use aioworldline::date::ReportDate;
use aioworldline::error::WorldlineError;
use aioworldline::flow::{
    credentials_accepted_exec, starts_with_str, status_is_success, LoginFlow, LoginStage, PortalAction, PortalEvent, ReportFlow, ReportStage,
    LOGIN_PAUSE_SECS, REPORT_PAUSE_SECS,
};
use aioworldline::portal::{
    HttpMethod, ReportParams, AUTH_URL, DETAILED_TURNOVER_PAGE_URL, EXPORT_LIST_DATA_URL,
    LOGIN_PAGE_URL, MERCHANT_SWITCH_URL,
};

fn answered(status: u16) -> PortalEvent {
    PortalEvent::Responded(status, "https://portal.baltic.worldline-solutions.com/fdmp/home".to_string())
}

fn params() -> ReportParams {
    let d = ReportDate::from_ymd(2024, 2, 27).unwrap();
    ReportParams::new(d, d, "ACC", "D", "TR", None, None, "csv")
}

fn client_error() -> reqwest::Error {
    reqwest::Client::new().get("not a url").build().unwrap_err()
}

fn sent_url<T>(a: &PortalAction<T>) -> (&str, HttpMethod) {
    match a {
        PortalAction::Send(r) => (r.url.as_str(), r.method),
        _ => panic!("expected a request"),
    }
}

fn step_report(flow: &mut ReportFlow, e: PortalEvent) -> PortalAction<Vec<u8>> {
    assert!(flow.accepts(&e));
    flow.step(e)
}

fn step_login(flow: &mut LoginFlow, e: PortalEvent) -> PortalAction<()> {
    assert!(flow.accepts(&e));
    flow.step(e)
}

#[test]
fn status_success_class() {
    assert!(status_is_success(200));
    assert!(status_is_success(204));
    assert!(status_is_success(299));
    assert!(!status_is_success(199));
    assert!(!status_is_success(300));
    assert!(!status_is_success(404));
}

#[test]
fn report_success_sequence() {
    let (mut flow, first) = ReportFlow::start(params());
    assert_eq!(sent_url(&first), (MERCHANT_SWITCH_URL, HttpMethod::Post));
    if let PortalAction::Send(r) = &first {
        assert_eq!(r.query[2].1, "ACC");
    }
    assert!(matches!(step_report(&mut flow, answered(200)), PortalAction::Sleep(s) if s == REPORT_PAUSE_SECS));
    let a = step_report(&mut flow, PortalEvent::Elapsed);
    assert_eq!(sent_url(&a), (DETAILED_TURNOVER_PAGE_URL, HttpMethod::Get));
    assert!(matches!(step_report(&mut flow, answered(200)), PortalAction::Sleep(10)));
    let a = step_report(&mut flow, PortalEvent::Elapsed);
    assert_eq!(sent_url(&a), (EXPORT_LIST_DATA_URL, HttpMethod::Get));
    assert!(matches!(step_report(&mut flow, answered(200)), PortalAction::ReadBody));
    let done = step_report(&mut flow, PortalEvent::Body(b"a;b\n1;2\n".to_vec()));
    match done {
        PortalAction::Finish(Ok(body)) => assert_eq!(body, b"a;b\n1;2\n".to_vec()),
        _ => panic!("expected the body"),
    }
    assert_eq!(flow.stage, ReportStage::Done);
    assert!(!flow.accepts(&PortalEvent::Elapsed));
}

#[test]
fn report_merchant_switch_failure() {
    let (mut flow, _) = ReportFlow::start(params());
    let a = step_report(&mut flow, answered(403));
    assert!(matches!(a, PortalAction::Finish(Err(WorldlineError::MerchantSwitchFailed { status: 403 }))));
    assert_eq!(flow.stage, ReportStage::Done);
}

#[test]
fn report_turnover_failure() {
    let (mut flow, _) = ReportFlow::start(params());
    step_report(&mut flow, answered(200));
    step_report(&mut flow, PortalEvent::Elapsed);
    let a = step_report(&mut flow, answered(500));
    assert!(matches!(a, PortalAction::Finish(Err(WorldlineError::TurnoverPageFailed { status: 500 }))));
}

#[test]
fn report_export_failure() {
    let (mut flow, _) = ReportFlow::start(params());
    step_report(&mut flow, answered(200));
    step_report(&mut flow, PortalEvent::Elapsed);
    step_report(&mut flow, answered(201));
    step_report(&mut flow, PortalEvent::Elapsed);
    let a = step_report(&mut flow, answered(302));
    assert!(matches!(a, PortalAction::Finish(Err(WorldlineError::ExportFailed { status: 302 }))));
}

#[test]
fn report_client_failure_ends_with_http_error() {
    let (mut flow, _) = ReportFlow::start(params());
    step_report(&mut flow, answered(200));
    step_report(&mut flow, PortalEvent::Elapsed);
    let a = step_report(&mut flow, PortalEvent::Failed(client_error()));
    assert!(matches!(a, PortalAction::Finish(Err(WorldlineError::Http(_)))));
    assert_eq!(flow.stage, ReportStage::Done);
}

#[test]
fn report_body_read_failure() {
    let (mut flow, _) = ReportFlow::start(params());
    step_report(&mut flow, answered(200));
    step_report(&mut flow, PortalEvent::Elapsed);
    step_report(&mut flow, answered(200));
    step_report(&mut flow, PortalEvent::Elapsed);
    step_report(&mut flow, answered(200));
    assert!(!flow.accepts(&answered(200)));
    let a = step_report(&mut flow, PortalEvent::Failed(client_error()));
    assert!(matches!(a, PortalAction::Finish(Err(WorldlineError::Http(_)))));
}

#[test]
fn report_rejects_out_of_order_events() {
    let (flow, _) = ReportFlow::start(params());
    assert!(!flow.accepts(&PortalEvent::Elapsed));
    assert!(!flow.accepts(&PortalEvent::Body(vec![])));
}

#[test]
fn login_sequence_with_accepted_credentials() {
    let (mut flow, first) = LoginFlow::start("alice", "pw");
    assert_eq!(sent_url(&first), (LOGIN_PAGE_URL, HttpMethod::Get));
    assert!(matches!(step_login(&mut flow, answered(500)), PortalAction::Sleep(s) if s == LOGIN_PAUSE_SECS));
    let a = step_login(&mut flow, PortalEvent::Elapsed);
    assert_eq!(sent_url(&a), (AUTH_URL, HttpMethod::Post));
    if let PortalAction::Send(r) = &a {
        assert_eq!(r.form[1], ("j_username".to_string(), "alice".to_string()));
        assert_eq!(r.form[2], ("j_password".to_string(), "pw".to_string()));
        assert!(r.query.is_empty());
    }
    assert!(matches!(step_login(&mut flow, answered(200)), PortalAction::Sleep(5)));
    assert!(matches!(step_login(&mut flow, PortalEvent::Elapsed), PortalAction::Finish(Ok(()))));
    assert_eq!(flow.stage, LoginStage::Done);
}

#[test]
fn login_client_failure() {
    let (mut flow, _) = LoginFlow::start("alice", "pw");
    let a = step_login(&mut flow, PortalEvent::Failed(client_error()));
    assert!(matches!(a, PortalAction::Finish(Err(WorldlineError::Http(_)))));
    assert!(!flow.accepts(&PortalEvent::Elapsed));
}

#[test]
fn login_rejected_credentials() {
    let (mut flow, _) = LoginFlow::start("alice", "wrong");
    step_login(&mut flow, answered(200));
    step_login(&mut flow, PortalEvent::Elapsed);
    let a = step_login(&mut flow, answered(401));
    assert!(matches!(a, PortalAction::Sleep(s) if s == LOGIN_PAUSE_SECS));
    assert_eq!(flow.stage, LoginStage::PausingAfterRejection { status: 401 });
    let a = step_login(&mut flow, PortalEvent::Elapsed);
    assert!(matches!(a, PortalAction::Finish(Err(WorldlineError::LoginFailed { status: 401 }))));
    assert_eq!(flow.stage, LoginStage::Done);
    assert!(!flow.accepts(&PortalEvent::Elapsed));
}

#[test]
fn login_sent_back_to_login_page_fails() {
    for url in [
        "https://portal.baltic.worldline-solutions.com/fdmp/login.jsp",
        "https://portal.baltic.worldline-solutions.com/fdmp/login.jsp?error=1",
        "https://portal.baltic.worldline-solutions.com/fdmp/login.jsp;jsessionid=AB12",
    ] {
        let (mut flow, _) = LoginFlow::start("alice", "wrong");
        step_login(&mut flow, answered(200));
        step_login(&mut flow, PortalEvent::Elapsed);
        let a = step_login(&mut flow, PortalEvent::Responded(200, url.to_string()));
        assert!(matches!(a, PortalAction::Sleep(5)));
        let a = step_login(&mut flow, PortalEvent::Elapsed);
        assert!(matches!(a, PortalAction::Finish(Err(WorldlineError::LoginFailed { status: 200 }))));
    }
}

#[test]
fn credentials_acceptance() {
    assert!(credentials_accepted_exec(200, "https://portal.baltic.worldline-solutions.com/fdmp/home.jsp"));
    assert!(!credentials_accepted_exec(302, "https://x/"));
    assert!(!credentials_accepted_exec(200, "https://portal.baltic.worldline-solutions.com/fdmp/login.jsp"));
    assert!(starts_with_str("abcdef", "abc"));
    assert!(starts_with_str("abc", ""));
    assert!(!starts_with_str("ab", "abc"));
    assert!(!starts_with_str("abd", "abc"));
}
