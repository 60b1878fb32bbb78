use vstd::prelude::*;

use crate::date::dmy_text;
use crate::error::WorldlineError;
use crate::portal::{
    auth_http_request, auth_request, export_http_request, export_request, login_page_http_request,
    login_page_request, switch_http_request, LOGIN_PAGE_URL, switch_request, turnover_http_request,
    turnover_request, HttpMethod, HttpRequest, ParamView, ReportParams, ReportParamsView,
    RequestView,
};

verus! {

/// Seconds to wait after each login step; the portal rejects requests that come too quickly.
pub const LOGIN_PAUSE_SECS: u64 = 5;

/// Seconds to wait after each step that changes the portal's state before an export.
pub const REPORT_PAUSE_SECS: u64 = 10;

/// What the outside world reports back after carrying out an action.
pub enum PortalEvent {
    /// The request was answered with this HTTP status code, from this final URL (after
    /// redirects).
    Responded(u16, String),
    /// The HTTP client failed while sending the request or reading the body.
    Failed(reqwest::Error),
    /// The requested pause is over.
    Elapsed,
    /// The body of the last response.
    Body(Vec<u8>),
}

pub enum EventView {
    Responded(u16, Seq<char>),
    Failed(reqwest::Error),
    Elapsed,
    Body(Seq<u8>),
}

impl View for PortalEvent {
    type V = EventView;

    open spec fn view(&self) -> EventView {
        match self {
            PortalEvent::Responded(s, u) => EventView::Responded(*s, u@),
            PortalEvent::Failed(e) => EventView::Failed(*e),
            PortalEvent::Elapsed => EventView::Elapsed,
            PortalEvent::Body(b) => EventView::Body(b@),
        }
    }
}

/// What a portal conversation asks the outside world to do next.
pub enum PortalAction<T> {
    /// Send this request and report how it was answered.
    Send(HttpRequest),
    /// Wait this many seconds.
    Sleep(u64),
    /// Read the body of the last response.
    ReadBody,
    /// The conversation is over with this outcome.
    Finish(Result<T, WorldlineError>),
}

pub enum ActionView<T> {
    Send(RequestView),
    Sleep(u64),
    ReadBody,
    Finish(Result<T, WorldlineError>),
}

impl<T: View> View for PortalAction<T> {
    type V = ActionView<T::V>;

    open spec fn view(&self) -> ActionView<T::V> {
        match self {
            PortalAction::Send(r) => ActionView::Send(r@),
            PortalAction::Sleep(s) => ActionView::Sleep(*s),
            PortalAction::ReadBody => ActionView::ReadBody,
            PortalAction::Finish(Ok(v)) => ActionView::Finish(Ok(v@)),
            PortalAction::Finish(Err(e)) => ActionView::Finish(Err(*e)),
        }
    }
}

/// 2xx, the class of statuses that count as success.
pub open spec fn is_success(status: u16) -> bool {
    200 <= status < 300
}

/// Whether `status` is a success (2xx) status, as the HTTP client's `is_success` decides.
pub fn status_is_success(status: u16) -> (b: bool)
    ensures
        b == is_success(status),
{
    200 <= status && status < 300
}

// ---------------------------------------------------------------------------------------------
// Login
// ---------------------------------------------------------------------------------------------
#[derive(Clone, Copy, Debug, PartialEq, Eq, Structural)]
pub enum LoginStage {
    /// The login page was requested, to obtain a session cookie.
    FetchingLoginPage,
    PausingAfterLoginPage,
    /// The credentials were posted.
    Authenticating,
    /// The portal accepted the credentials.
    PausingAfterAuth,
    /// The portal rejected the credentials, answering with this status.
    PausingAfterRejection { status: u16 },
    Done,
}

/// The two-step login conversation: GET the login page, then POST the credentials.
pub struct LoginFlow {
    pub stage: LoginStage,
    pub username: String,
    pub password: String,
}

/// `url` is the portal's login page, possibly with a path parameter or query attached
/// (`login.jsp;jsessionid=...`, `login.jsp?error=...`).
pub open spec fn is_login_page(url: Seq<char>) -> bool {
    url.len() >= LOGIN_PAGE_URL@.len() && url.take(LOGIN_PAGE_URL@.len() as int)
        == LOGIN_PAGE_URL@
}

/// The portal accepted the credentials: the POST was answered with a success (2xx) status
/// from somewhere other than the login page, to which a rejected login is sent back.
pub open spec fn credentials_accepted(status: u16, url: Seq<char>) -> bool {
    is_success(status) && !is_login_page(url)
}

/// Whether `s` begins with `prefix`, as `str::starts_with` decides it.
pub fn starts_with_str(s: &str, prefix: &str) -> (r: bool)
    ensures
        r == (s@.len() >= prefix@.len() && s@.take(prefix@.len() as int) == prefix@),
{
    let n: usize = prefix.unicode_len();
    if s.unicode_len() < n {
        return false;
    }
    let mut i: usize = 0;
    while i < n
        invariant
            n == prefix@.len(),
            n <= s@.len(),
            i <= n,
            forall|j: int| 0 <= j < i ==> s@[j] == prefix@[j],
        decreases n - i,
    {
        if s.get_char(i) != prefix.get_char(i) {
            assert(s@.take(n as int)[i as int] != prefix@[i as int]);
            return false;
        }
        i = i + 1;
    }
    assert(s@.take(n as int) =~= prefix@);
    true
}

/// Whether the credentials POST, answered with `status` from `url`, was accepted.
pub fn credentials_accepted_exec(status: u16, url: &str) -> (b: bool)
    ensures
        b == credentials_accepted(status, url@),
{
    status_is_success(status) && !starts_with_str(url, LOGIN_PAGE_URL)
}

/// Which events the login conversation can receive in each stage.
pub open spec fn login_accepts(s: LoginStage, e: EventView) -> bool {
    match s {
        LoginStage::FetchingLoginPage | LoginStage::Authenticating => e is Responded || e is Failed,
        LoginStage::PausingAfterLoginPage
        | LoginStage::PausingAfterAuth
        | LoginStage::PausingAfterRejection { .. } => e is Elapsed,
        LoginStage::Done => false,
    }
}

/// The login conversation's next stage and action. After the credentials POST the login
/// pauses whatever the answer; it then succeeds only when the portal accepted the credentials
/// (see `credentials_accepted`), and ends with `LoginFailed` otherwise. A failing HTTP client
/// ends it with `Http`. The answer to the login page request only opens the session cookie.
pub open spec fn login_next(
    s: LoginStage,
    username: Seq<char>,
    password: Seq<char>,
    e: EventView,
) -> (LoginStage, ActionView<()>) {
    match (s, e) {
        (LoginStage::FetchingLoginPage, EventView::Responded(_, _)) => (
            LoginStage::PausingAfterLoginPage,
            ActionView::Sleep(LOGIN_PAUSE_SECS),
        ),
        (LoginStage::PausingAfterLoginPage, EventView::Elapsed) => (
            LoginStage::Authenticating,
            ActionView::Send(auth_request(username, password)),
        ),
        (LoginStage::Authenticating, EventView::Responded(status, url)) => if credentials_accepted(
            status,
            url,
        ) {
            (LoginStage::PausingAfterAuth, ActionView::Sleep(LOGIN_PAUSE_SECS))
        } else {
            (LoginStage::PausingAfterRejection { status }, ActionView::Sleep(LOGIN_PAUSE_SECS))
        },
        (LoginStage::PausingAfterAuth, EventView::Elapsed) => (
            LoginStage::Done,
            ActionView::Finish(Ok(())),
        ),
        (LoginStage::PausingAfterRejection { status }, EventView::Elapsed) => (
            LoginStage::Done,
            ActionView::Finish(Err(WorldlineError::LoginFailed { status })),
        ),
        (_, EventView::Failed(err)) => (
            LoginStage::Done,
            ActionView::Finish(Err(WorldlineError::Http(err))),
        ),
        // Events that `login_accepts` rules out; `step` never receives them.
        _ => (LoginStage::Done, ActionView::ReadBody),
    }
}

impl LoginFlow {
    /// Begins a login as `username`; the first action fetches the login page.
    pub fn start(username: &str, password: &str) -> (r: (LoginFlow, PortalAction<()>))
        ensures
            r.0.stage == LoginStage::FetchingLoginPage,
            r.0.username@ == username@,
            r.0.password@ == password@,
            r.1@ == ActionView::<()>::Send(login_page_request()),
    {
        let flow = LoginFlow {
            stage: LoginStage::FetchingLoginPage,
            username: String::from_str(username),
            password: String::from_str(password),
        };
        (flow, PortalAction::Send(login_page_http_request()))
    }

    /// Whether `event` is one the conversation can receive now.
    pub fn accepts(&self, event: &PortalEvent) -> (b: bool)
        ensures
            b == login_accepts(self.stage, event@),
    {
        match self.stage {
            LoginStage::FetchingLoginPage | LoginStage::Authenticating => match event {
                PortalEvent::Responded(_, _) | PortalEvent::Failed(_) => true,
                _ => false,
            },
            LoginStage::PausingAfterLoginPage
            | LoginStage::PausingAfterAuth
            | LoginStage::PausingAfterRejection { .. } => match event {
                PortalEvent::Elapsed => true,
                _ => false,
            },
            LoginStage::Done => false,
        }
    }

    /// Takes in the outcome of the last action and returns the next action. The login ends
    /// with `Ok` only after a pause that follows credentials the portal accepted.
    pub fn step(&mut self, event: PortalEvent) -> (a: PortalAction<()>)
        requires
            login_accepts(old(self).stage, event@),
        ensures
            (final(self).stage, a@) == login_next(
                old(self).stage,
                old(self).username@,
                old(self).password@,
                event@,
            ),
            final(self).username == old(self).username,
            final(self).password == old(self).password,
            a is Finish && a->Finish_0 is Ok ==> old(self).stage == LoginStage::PausingAfterAuth,
    {
        match event {
            PortalEvent::Failed(err) => {
                self.stage = LoginStage::Done;
                PortalAction::Finish(Err(WorldlineError::Http(err)))
            },
            PortalEvent::Responded(status, url) => {
                if self.stage == LoginStage::FetchingLoginPage {
                    self.stage = LoginStage::PausingAfterLoginPage;
                } else if credentials_accepted_exec(status, url.as_str()) {
                    self.stage = LoginStage::PausingAfterAuth;
                } else {
                    self.stage = LoginStage::PausingAfterRejection { status };
                }
                PortalAction::Sleep(LOGIN_PAUSE_SECS)
            },
            _ => {
                match self.stage {
                    LoginStage::PausingAfterLoginPage => {
                        self.stage = LoginStage::Authenticating;
                        PortalAction::Send(
                            auth_http_request(self.username.as_str(), self.password.as_str()),
                        )
                    },
                    LoginStage::PausingAfterRejection { status } => {
                        self.stage = LoginStage::Done;
                        PortalAction::Finish(Err(WorldlineError::LoginFailed { status }))
                    },
                    _ => {
                        self.stage = LoginStage::Done;
                        PortalAction::Finish(Ok(()))
                    },
                }
            },
        }
    }
}

// ---------------------------------------------------------------------------------------------
// Transaction report
// ---------------------------------------------------------------------------------------------
#[derive(Clone, Copy, Debug, PartialEq, Eq, Structural)]
pub enum ReportStage {
    /// The switch to the merchant account was requested.
    SwitchingMerchant,
    PausingAfterSwitch,
    /// The detailed turnover page was requested.
    OpeningTurnover,
    PausingAfterTurnover,
    /// The export was requested.
    Exporting,
    /// The export body is being read.
    ReadingBody,
    Done,
}

/// The report conversation: switch merchant account, open the turnover page, export.
pub struct ReportFlow {
    pub stage: ReportStage,
    pub params: ReportParams,
}

/// Which events the report conversation can receive in each stage.
pub open spec fn report_accepts(s: ReportStage, e: EventView) -> bool {
    match s {
        ReportStage::SwitchingMerchant | ReportStage::OpeningTurnover | ReportStage::Exporting =>
            e is Responded || e is Failed,
        ReportStage::PausingAfterSwitch | ReportStage::PausingAfterTurnover => e is Elapsed,
        ReportStage::ReadingBody => e is Body || e is Failed,
        ReportStage::Done => false,
    }
}

/// The report conversation's next stage and action.
pub open spec fn report_next(s: ReportStage, p: ReportParamsView, e: EventView) -> (
    ReportStage,
    ActionView<Seq<u8>>,
) {
    match (s, e) {
        (_, EventView::Failed(err)) => (
            ReportStage::Done,
            ActionView::Finish(Err(WorldlineError::Http(err))),
        ),
        (ReportStage::SwitchingMerchant, EventView::Responded(status, _)) => if is_success(status) {
            (ReportStage::PausingAfterSwitch, ActionView::Sleep(REPORT_PAUSE_SECS))
        } else {
            (
                ReportStage::Done,
                ActionView::Finish(Err(WorldlineError::MerchantSwitchFailed { status })),
            )
        },
        (ReportStage::PausingAfterSwitch, EventView::Elapsed) => (
            ReportStage::OpeningTurnover,
            ActionView::Send(turnover_request()),
        ),
        (ReportStage::OpeningTurnover, EventView::Responded(status, _)) => if is_success(status) {
            (ReportStage::PausingAfterTurnover, ActionView::Sleep(REPORT_PAUSE_SECS))
        } else {
            (
                ReportStage::Done,
                ActionView::Finish(Err(WorldlineError::TurnoverPageFailed { status })),
            )
        },
        (ReportStage::PausingAfterTurnover, EventView::Elapsed) => (
            ReportStage::Exporting,
            ActionView::Send(export_request(p)),
        ),
        (ReportStage::Exporting, EventView::Responded(status, _)) => if is_success(status) {
            (ReportStage::ReadingBody, ActionView::ReadBody)
        } else {
            (ReportStage::Done, ActionView::Finish(Err(WorldlineError::ExportFailed { status })))
        },
        (ReportStage::ReadingBody, EventView::Body(body)) => (
            ReportStage::Done,
            ActionView::Finish(Ok(body)),
        ),
        // Events that `report_accepts` rules out; `step` never receives them.
        _ => (ReportStage::Done, ActionView::ReadBody),
    }
}

impl ReportFlow {
    /// Begins a report request; the first action switches to the merchant account.
    pub fn start(params: ReportParams) -> (r: (ReportFlow, PortalAction<Vec<u8>>))
        ensures
            r.0.stage == ReportStage::SwitchingMerchant,
            r.0.params == params,
            r.1@ == ActionView::<Seq<u8>>::Send(switch_request(params.account_id@)),
    {
        let first = switch_http_request(params.account_id.as_str());
        (ReportFlow { stage: ReportStage::SwitchingMerchant, params }, PortalAction::Send(first))
    }

    /// Whether `event` is one the conversation can receive now.
    pub fn accepts(&self, event: &PortalEvent) -> (b: bool)
        ensures
            b == report_accepts(self.stage, event@),
    {
        match self.stage {
            ReportStage::SwitchingMerchant
            | ReportStage::OpeningTurnover
            | ReportStage::Exporting => match event {
                PortalEvent::Responded(_, _) | PortalEvent::Failed(_) => true,
                _ => false,
            },
            ReportStage::PausingAfterSwitch | ReportStage::PausingAfterTurnover => match event {
                PortalEvent::Elapsed => true,
                _ => false,
            },
            ReportStage::ReadingBody => match event {
                PortalEvent::Body(_) | PortalEvent::Failed(_) => true,
                _ => false,
            },
            ReportStage::Done => false,
        }
    }

    /// Takes in the outcome of the last action and returns the next action.
    pub fn step(&mut self, event: PortalEvent) -> (a: PortalAction<Vec<u8>>)
        requires
            report_accepts(old(self).stage, event@),
        ensures
            (final(self).stage, a@) == report_next(old(self).stage, old(self).params@, event@),
            final(self).params == old(self).params,
    {
        match event {
            PortalEvent::Failed(err) => {
                self.stage = ReportStage::Done;
                PortalAction::Finish(Err(WorldlineError::Http(err)))
            },
            PortalEvent::Responded(status, _) => {
                let ok = status_is_success(status);
                if self.stage == ReportStage::SwitchingMerchant {
                    if ok {
                        self.stage = ReportStage::PausingAfterSwitch;
                        PortalAction::Sleep(REPORT_PAUSE_SECS)
                    } else {
                        self.stage = ReportStage::Done;
                        PortalAction::Finish(Err(WorldlineError::MerchantSwitchFailed { status }))
                    }
                } else if self.stage == ReportStage::OpeningTurnover {
                    if ok {
                        self.stage = ReportStage::PausingAfterTurnover;
                        PortalAction::Sleep(REPORT_PAUSE_SECS)
                    } else {
                        self.stage = ReportStage::Done;
                        PortalAction::Finish(Err(WorldlineError::TurnoverPageFailed { status }))
                    }
                } else {
                    if ok {
                        self.stage = ReportStage::ReadingBody;
                        PortalAction::ReadBody
                    } else {
                        self.stage = ReportStage::Done;
                        PortalAction::Finish(Err(WorldlineError::ExportFailed { status }))
                    }
                }
            },
            PortalEvent::Elapsed => {
                if self.stage == ReportStage::PausingAfterSwitch {
                    self.stage = ReportStage::OpeningTurnover;
                    PortalAction::Send(turnover_http_request())
                } else {
                    self.stage = ReportStage::Exporting;
                    PortalAction::Send(export_http_request(&self.params))
                }
            },
            PortalEvent::Body(body) => {
                self.stage = ReportStage::Done;
                PortalAction::Finish(Ok(body))
            },
        }
    }
}


// ---------------------------------------------------------------------------------------------
// Whole conversations
// ---------------------------------------------------------------------------------------------
/// The final stage and the actions of a report conversation fed `events` from stage `s`.
pub open spec fn report_run(s: ReportStage, p: ReportParamsView, events: Seq<EventView>) -> (
    ReportStage,
    Seq<ActionView<Seq<u8>>>,
)
    decreases events.len(),
{
    if events.len() == 0 {
        (s, seq![])
    } else {
        let (t, a) = report_next(s, p, events[0]);
        let (u, rest) = report_run(t, p, events.drop_first());
        (u, seq![a] + rest)
    }
}

/// Every event of `events` is accepted in turn, starting from stage `s`.
pub open spec fn report_admits(s: ReportStage, p: ReportParamsView, events: Seq<EventView>) -> bool
    decreases events.len(),
{
    events.len() == 0 || (report_accepts(s, events[0]) && report_admits(
        report_next(s, p, events[0]).0,
        p,
        events.drop_first(),
    ))
}

/// The final stage and the actions of a login conversation fed `events` from stage `s`.
pub open spec fn login_run(s: LoginStage, u: Seq<char>, pw: Seq<char>, events: Seq<EventView>) -> (
    LoginStage,
    Seq<ActionView<()>>,
)
    decreases events.len(),
{
    if events.len() == 0 {
        (s, seq![])
    } else {
        let (t, a) = login_next(s, u, pw, events[0]);
        let (v, rest) = login_run(t, u, pw, events.drop_first());
        (v, seq![a] + rest)
    }
}

/// Every event of `events` is accepted in turn, starting from stage `s`.
pub open spec fn login_admits(s: LoginStage, u: Seq<char>, pw: Seq<char>, events: Seq<EventView>) -> bool
    decreases events.len(),
{
    events.len() == 0 || (login_accepts(s, events[0]) && login_admits(
        login_next(s, u, pw, events[0]).0,
        u,
        pw,
        events.drop_first(),
    ))
}

/// The error a non-2xx answer produces in each stage that waits for an answer.
pub open spec fn status_error(s: ReportStage, status: u16) -> WorldlineError {
    match s {
        ReportStage::SwitchingMerchant => WorldlineError::MerchantSwitchFailed { status },
        ReportStage::OpeningTurnover => WorldlineError::TurnoverPageFailed { status },
        _ => WorldlineError::ExportFailed { status },
    }
}

/// How many more events a report conversation can take from stage `s`.
pub open spec fn report_steps_left(s: ReportStage) -> nat {
    match s {
        ReportStage::SwitchingMerchant => 6,
        ReportStage::PausingAfterSwitch => 5,
        ReportStage::OpeningTurnover => 4,
        ReportStage::PausingAfterTurnover => 3,
        ReportStage::Exporting => 2,
        ReportStage::ReadingBody => 1,
        ReportStage::Done => 0,
    }
}

/// How many more events a login conversation can take from stage `s`.
pub open spec fn login_steps_left(s: LoginStage) -> nat {
    match s {
        LoginStage::FetchingLoginPage => 4,
        LoginStage::PausingAfterLoginPage => 3,
        LoginStage::Authenticating => 2,
        LoginStage::PausingAfterAuth => 1,
        LoginStage::PausingAfterRejection { .. } => 1,
        LoginStage::Done => 0,
    }
}

/// When every answer is a success, a report conversation switches the merchant account,
/// waits, opens the turnover page, waits, exports, reads the body, and hands that body back
/// unchanged.
pub proof fn law_report_success_sequence(
    p: ReportParamsView,
    c1: u16,
    u1: Seq<char>,
    c2: u16,
    u2: Seq<char>,
    c3: u16,
    u3: Seq<char>,
    body: Seq<u8>,
)
    requires
        is_success(c1),
        is_success(c2),
        is_success(c3),
    ensures
        ({
            let events = seq![
                EventView::Responded(c1, u1),
                EventView::Elapsed,
                EventView::Responded(c2, u2),
                EventView::Elapsed,
                EventView::Responded(c3, u3),
                EventView::Body(body),
            ];
            &&& report_admits(ReportStage::SwitchingMerchant, p, events)
            &&& report_run(ReportStage::SwitchingMerchant, p, events) == (
                ReportStage::Done,
                seq![
                    ActionView::Sleep(REPORT_PAUSE_SECS),
                    ActionView::Send(turnover_request()),
                    ActionView::Sleep(REPORT_PAUSE_SECS),
                    ActionView::Send(export_request(p)),
                    ActionView::ReadBody,
                    ActionView::Finish(Ok(body)),
                ],
            )
        }),
{
    let events = seq![
        EventView::Responded(c1, u1),
        EventView::Elapsed,
        EventView::Responded(c2, u2),
        EventView::Elapsed,
        EventView::Responded(c3, u3),
        EventView::Body(body),
    ];
    let e1 = events.drop_first();
    let e2 = e1.drop_first();
    let e3 = e2.drop_first();
    let e4 = e3.drop_first();
    let e5 = e4.drop_first();
    let e6 = e5.drop_first();
    assert(e1 =~= seq![
        EventView::Elapsed,
        EventView::Responded(c2, u2),
        EventView::Elapsed,
        EventView::Responded(c3, u3),
        EventView::Body(body),
    ]);
    assert(e2 =~= seq![
        EventView::Responded(c2, u2),
        EventView::Elapsed,
        EventView::Responded(c3, u3),
        EventView::Body(body),
    ]);
    assert(e3 =~= seq![EventView::Elapsed, EventView::Responded(c3, u3), EventView::Body(body)]);
    assert(e4 =~= seq![EventView::Responded(c3, u3), EventView::Body(body)]);
    assert(e5 =~= seq![EventView::Body(body)]);
    assert(e6.len() == 0);
    assert(report_admits(ReportStage::Done, p, e6));
    assert(report_admits(ReportStage::ReadingBody, p, e5));
    assert(report_admits(ReportStage::Exporting, p, e4));
    assert(report_admits(ReportStage::PausingAfterTurnover, p, e3));
    assert(report_admits(ReportStage::OpeningTurnover, p, e2));
    assert(report_admits(ReportStage::PausingAfterSwitch, p, e1));
    assert(report_admits(ReportStage::SwitchingMerchant, p, events));
    assert(report_run(ReportStage::Done, p, e6) == (ReportStage::Done, Seq::<ActionView<Seq<u8>>>::empty()));
    assert(report_run(ReportStage::ReadingBody, p, e5).0 == ReportStage::Done);
    assert(report_run(ReportStage::Exporting, p, e4).0 == ReportStage::Done);
    assert(report_run(ReportStage::PausingAfterTurnover, p, e3).0 == ReportStage::Done);
    assert(report_run(ReportStage::OpeningTurnover, p, e2).0 == ReportStage::Done);
    assert(report_run(ReportStage::PausingAfterSwitch, p, e1).0 == ReportStage::Done);
    assert(report_run(ReportStage::ReadingBody, p, e5).1 =~= seq![ActionView::Finish(Ok(body))]);
    assert(report_run(ReportStage::Exporting, p, e4).1 =~= seq![
        ActionView::ReadBody,
        ActionView::Finish(Ok(body)),
    ]);
    assert(report_run(ReportStage::PausingAfterTurnover, p, e3).1 =~= seq![
        ActionView::Send(export_request(p)),
        ActionView::ReadBody,
        ActionView::Finish(Ok(body)),
    ]);
    assert(report_run(ReportStage::OpeningTurnover, p, e2).1 =~= seq![
        ActionView::Sleep(REPORT_PAUSE_SECS),
        ActionView::Send(export_request(p)),
        ActionView::ReadBody,
        ActionView::Finish(Ok(body)),
    ]);
    assert(report_run(ReportStage::PausingAfterSwitch, p, e1).1 =~= seq![
        ActionView::Send(turnover_request()),
        ActionView::Sleep(REPORT_PAUSE_SECS),
        ActionView::Send(export_request(p)),
        ActionView::ReadBody,
        ActionView::Finish(Ok(body)),
    ]);
    assert(report_run(ReportStage::SwitchingMerchant, p, events).1 =~= seq![
        ActionView::Sleep(REPORT_PAUSE_SECS),
        ActionView::Send(turnover_request()),
        ActionView::Sleep(REPORT_PAUSE_SECS),
        ActionView::Send(export_request(p)),
        ActionView::ReadBody,
        ActionView::Finish(Ok(body)),
    ]);
}

/// A non-2xx answer to any of the three report requests ends the conversation with that
/// step's error carrying the status; a failing HTTP client ends it with that failure, at any
/// step that waits for the client.
pub proof fn law_report_failures(
    s: ReportStage,
    p: ReportParamsView,
    status: u16,
    url: Seq<char>,
    err: reqwest::Error,
)
    ensures
        (s == ReportStage::SwitchingMerchant || s == ReportStage::OpeningTurnover || s
            == ReportStage::Exporting) && !is_success(status) ==> report_next(
            s,
            p,
            EventView::Responded(status, url),
        ) == (ReportStage::Done, ActionView::<Seq<u8>>::Finish(Err(status_error(s, status)))),
        report_accepts(s, EventView::Failed(err)) ==> report_next(s, p, EventView::Failed(err)) == (
            ReportStage::Done,
            ActionView::<Seq<u8>>::Finish(Err(WorldlineError::Http(err))),
        ),
{
}

/// A report conversation finishes exactly when it reaches `Done`, accepts nothing after that,
/// and takes at most six events in all.
pub proof fn law_report_terminates(s: ReportStage, p: ReportParamsView, events: Seq<EventView>)
    ensures
        !report_accepts(ReportStage::Done, events.first()),
        events.len() > 0 && report_accepts(s, events[0]) ==> ((report_next(s, p, events[0]).0
            == ReportStage::Done) <==> (report_next(s, p, events[0]).1 is Finish)),
        report_admits(s, p, events) ==> events.len() <= report_steps_left(s),
    decreases events.len(),
{
    if events.len() > 0 && report_admits(s, p, events) {
        law_report_terminates(report_next(s, p, events[0]).0, p, events.drop_first());
    }
}

/// `a` asks to send a request with exactly this method, URL, query and form.
pub open spec fn sends_exactly(
    a: ActionView<Seq<u8>>,
    method: HttpMethod,
    url: Seq<char>,
    query: Seq<ParamView>,
    form: Seq<ParamView>,
) -> bool {
    a matches ActionView::Send(r) && r.method == method && r.url == url && r.query == query
        && r.form == form
}

/// `a` asks to send a login request with exactly this method, URL, query and form.
pub open spec fn login_sends_exactly(
    a: ActionView<()>,
    method: HttpMethod,
    url: Seq<char>,
    query: Seq<ParamView>,
    form: Seq<ParamView>,
) -> bool {
    a matches ActionView::Send(r) && r.method == method && r.url == url && r.query == query
        && r.form == form
}

/// The three requests of a report conversation, written out: the merchant switch is a POST
/// of `transaction_info` whose query names the account; after its pause comes a GET of the
/// detailed turnover page selecting the `tab.detailed_turnover` group; after that pause comes
/// a GET of `export_list_data` whose query carries the export type, the date type, the
/// account, both ends of the date range as `dd.mm.yyyy`, the date reference and the merchant
/// and terminal lookup strings. None of them has a form body.
pub proof fn law_report_requests(p: ReportParamsView)
    ensures
        sends_exactly(
            ActionView::Send(switch_request(p.account_id)),
            HttpMethod::Post,
            "https://portal.baltic.worldline-solutions.com/fdmp/transaction_info"@,
            seq![
                ("__Action"@, "merchant:parent_id"@),
                ("__CSRF"@, "null"@),
                ("merchant:parent_id"@, p.account_id),
                ("transaction_info:news_id"@, ""@),
            ],
            seq![],
        ),
        report_next(ReportStage::PausingAfterSwitch, p, EventView::Elapsed).0
            == ReportStage::OpeningTurnover,
        sends_exactly(
            report_next(ReportStage::PausingAfterSwitch, p, EventView::Elapsed).1,
            HttpMethod::Get,
            "https://portal.baltic.worldline-solutions.com/fdmp/detailed_turnover"@,
            seq![("group"@, "tab.detailed_turnover"@)],
            seq![],
        ),
        report_next(ReportStage::PausingAfterTurnover, p, EventView::Elapsed).0
            == ReportStage::Exporting,
        ({
            let m = match p.merchant {
                Some(m) => m,
                None => Seq::<char>::empty(),
            };
            let t = match p.term_id {
                Some(t) => t,
                None => Seq::<char>::empty(),
            };
            sends_exactly(
                report_next(ReportStage::PausingAfterTurnover, p, EventView::Elapsed).1,
                HttpMethod::Get,
                "https://portal.baltic.worldline-solutions.com/fdmp/export_list_data"@,
                seq![
                    ("uniqueid"@, "detailed_turnover:detailed_turnover_search_result"@),
                    ("exportType"@, p.export_type),
                    ("page"@, "1"@),
                    ("countRow"@, "15"@),
                    ("sortField"@, ""@),
                    ("sortType"@, "0"@),
                    ("detailed_turnover:date_type"@, p.date_type),
                    ("detailed_turnover:parent"@, p.account_id),
                    ("detailed_turnover:shipm_date_from"@, dmy_text(p.date_from)),
                    ("detailed_turnover:shipm_date_till"@, dmy_text(p.date_till)),
                    ("detailed_turnover:use_date"@, p.use_date),
                    (
                        "detailed_turnover:merchant_ret"@,
                        "detailed_turnover:merchant~"@ + m + "|detailed_turnover:merchant_txt~"@
                            + m + " {full_name}|detailed_turnover:merchant_order~"@ + m,
                    ),
                    (
                        "detailed_turnover:term_id_ret"@,
                        "detailed_turnover:term_id~"@ + t + "|detailed_turnover:term_id_txt~"@
                            + t + " {term_type}|detailed_turnover:term_id_order~"@ + t,
                    ),
                ],
                seq![],
            )
        }),
{
}

/// The two requests of a login, written out: a GET of the login page with neither query nor
/// form, then, after its pause, a POST of `j_security_check` with no query whose form asks
/// for the portal's `login:b_login#Save#` action with the given user name and password.
pub proof fn law_login_requests(username: Seq<char>, password: Seq<char>)
    ensures
        login_sends_exactly(
            ActionView::Send(login_page_request()),
            HttpMethod::Get,
            "https://portal.baltic.worldline-solutions.com/fdmp/login.jsp"@,
            seq![],
            seq![],
        ),
        login_next(LoginStage::PausingAfterLoginPage, username, password, EventView::Elapsed).0
            == LoginStage::Authenticating,
        login_sends_exactly(
            login_next(LoginStage::PausingAfterLoginPage, username, password, EventView::Elapsed).1,
            HttpMethod::Post,
            "https://portal.baltic.worldline-solutions.com/fdmp/j_security_check"@,
            seq![],
            seq![
                ("__Action"@, "login:b_login#Save#"@),
                ("j_username"@, username),
                ("j_password"@, password),
            ],
        ),
{
}

/// The login run for events `[Responded(c1, u1), Elapsed, Responded(c2, u2), Elapsed]`.
pub open spec fn login_events(c1: u16, u1: Seq<char>, c2: u16, u2: Seq<char>) -> Seq<EventView> {
    seq![
        EventView::Responded(c1, u1),
        EventView::Elapsed,
        EventView::Responded(c2, u2),
        EventView::Elapsed,
    ]
}

proof fn lemma_login_run_four(
    username: Seq<char>,
    password: Seq<char>,
    c1: u16,
    u1: Seq<char>,
    c2: u16,
    u2: Seq<char>,
)
    ensures
        ({
            let events = login_events(c1, u1, c2, u2);
            let (s2, a2) = login_next(LoginStage::Authenticating, username, password, events[2]);
            let (s3, a3) = login_next(s2, username, password, events[3]);
            &&& login_admits(LoginStage::FetchingLoginPage, username, password, events)
            &&& login_run(LoginStage::FetchingLoginPage, username, password, events) == (
                s3,
                seq![
                    ActionView::Sleep(LOGIN_PAUSE_SECS),
                    ActionView::Send(auth_request(username, password)),
                    a2,
                    a3,
                ],
            )
        }),
{
    let events = login_events(c1, u1, c2, u2);
    let e1 = events.drop_first();
    let e2 = e1.drop_first();
    let e3 = e2.drop_first();
    let e4 = e3.drop_first();
    assert(e1 =~= seq![EventView::Elapsed, EventView::Responded(c2, u2), EventView::Elapsed]);
    assert(e2 =~= seq![EventView::Responded(c2, u2), EventView::Elapsed]);
    assert(e3 =~= seq![EventView::Elapsed]);
    assert(e4.len() == 0);
    let (s2, a2) = login_next(LoginStage::Authenticating, username, password, events[2]);
    let (s3, a3) = login_next(s2, username, password, events[3]);
    assert(login_admits(s3, username, password, e4));
    assert(login_admits(s2, username, password, e3));
    assert(login_admits(LoginStage::Authenticating, username, password, e2));
    assert(login_admits(LoginStage::PausingAfterLoginPage, username, password, e1));
    assert(login_admits(LoginStage::FetchingLoginPage, username, password, events));
    assert(login_run(s3, username, password, e4) == (s3, Seq::<ActionView<()>>::empty()));
    assert(login_run(s2, username, password, e3).1 =~= seq![a3]);
    assert(login_run(s2, username, password, e3).0 == s3);
    assert(login_run(LoginStage::Authenticating, username, password, e2).1 =~= seq![a2, a3]);
    assert(login_run(LoginStage::PausingAfterLoginPage, username, password, e1).1 =~= seq![
        ActionView::Send(auth_request(username, password)),
        a2,
        a3,
    ]);
    assert(login_run(LoginStage::FetchingLoginPage, username, password, events).1 =~= seq![
        ActionView::Sleep(LOGIN_PAUSE_SECS),
        ActionView::Send(auth_request(username, password)),
        a2,
        a3,
    ]);
}

/// A login whose credentials are accepted fetches the login page, waits, posts the
/// credentials, waits and succeeds.
pub proof fn law_login_sequence(
    username: Seq<char>,
    password: Seq<char>,
    c1: u16,
    u1: Seq<char>,
    c2: u16,
    u2: Seq<char>,
)
    requires
        credentials_accepted(c2, u2),
    ensures
        login_admits(LoginStage::FetchingLoginPage, username, password, login_events(c1, u1, c2, u2)),
        login_run(LoginStage::FetchingLoginPage, username, password, login_events(c1, u1, c2, u2))
            == (
            LoginStage::Done,
            seq![
                ActionView::Sleep(LOGIN_PAUSE_SECS),
                ActionView::Send(auth_request(username, password)),
                ActionView::Sleep(LOGIN_PAUSE_SECS),
                ActionView::<()>::Finish(Ok(())),
            ],
        ),
{
    lemma_login_run_four(username, password, c1, u1, c2, u2);
}

/// A login whose credentials are rejected (a non-2xx answer, or an answer from the login
/// page) fetches the login page, waits, posts the credentials, still waits, and then fails
/// with `LoginFailed` carrying the status of that answer.
pub proof fn law_login_rejected(
    username: Seq<char>,
    password: Seq<char>,
    c1: u16,
    u1: Seq<char>,
    c2: u16,
    u2: Seq<char>,
)
    requires
        !credentials_accepted(c2, u2),
    ensures
        login_admits(LoginStage::FetchingLoginPage, username, password, login_events(c1, u1, c2, u2)),
        login_run(LoginStage::FetchingLoginPage, username, password, login_events(c1, u1, c2, u2))
            == (
            LoginStage::Done,
            seq![
                ActionView::Sleep(LOGIN_PAUSE_SECS),
                ActionView::Send(auth_request(username, password)),
                ActionView::Sleep(LOGIN_PAUSE_SECS),
                ActionView::<()>::Finish(Err(WorldlineError::LoginFailed { status: c2 })),
            ],
        ),
{
    lemma_login_run_four(username, password, c1, u1, c2, u2);
}

/// A login succeeds only right after the pause that follows credentials the portal
/// accepted; a failing HTTP client ends it with that failure; it finishes exactly when it
/// reaches `Done`, accepts nothing after that, and takes at most four events in all.
pub proof fn law_login_outcomes_and_termination(
    s: LoginStage,
    username: Seq<char>,
    password: Seq<char>,
    e: EventView,
    err: reqwest::Error,
    events: Seq<EventView>,
)
    ensures
        login_next(s, username, password, e).1 == ActionView::<()>::Finish(Ok(())) && login_accepts(
            s,
            e,
        ) ==> s == LoginStage::PausingAfterAuth,
        login_next(s, username, password, e).0 == LoginStage::PausingAfterAuth ==> s
            == LoginStage::Authenticating && (e matches EventView::Responded(status, url)
            && credentials_accepted(status, url)),
        login_accepts(s, EventView::Failed(err)) ==> login_next(
            s,
            username,
            password,
            EventView::Failed(err),
        ) == (LoginStage::Done, ActionView::<()>::Finish(Err(WorldlineError::Http(err)))),
        !login_accepts(LoginStage::Done, events.first()),
        events.len() > 0 && login_accepts(s, events[0]) ==> ((login_next(
            s,
            username,
            password,
            events[0],
        ).0 == LoginStage::Done) <==> (login_next(s, username, password, events[0]).1 is Finish)),
        login_admits(s, username, password, events) ==> events.len() <= login_steps_left(s),
    decreases events.len(),
{
    if events.len() > 0 && login_admits(s, username, password, events) {
        law_login_outcomes_and_termination(
            login_next(s, username, password, events[0]).0,
            username,
            password,
            e,
            err,
            events.drop_first(),
        );
    }
}

} // verus!
