use vstd::prelude::*;

use crate::date::{dmy_text, ReportDate};

verus! {

pub const LOGIN_PAGE_URL: &'static str = "https://portal.baltic.worldline-solutions.com/fdmp/login.jsp";

pub const AUTH_URL: &'static str = "https://portal.baltic.worldline-solutions.com/fdmp/j_security_check";

pub const MERCHANT_SWITCH_URL: &'static str =
    "https://portal.baltic.worldline-solutions.com/fdmp/transaction_info";

pub const DETAILED_TURNOVER_PAGE_URL: &'static str =
    "https://portal.baltic.worldline-solutions.com/fdmp/detailed_turnover";

pub const EXPORT_LIST_DATA_URL: &'static str =
    "https://portal.baltic.worldline-solutions.com/fdmp/export_list_data";

/// The browser identity the HTTP client presents to the portal.
pub const USER_AGENT: &'static str =
    "Mozilla/5.0 (X11; Ubuntu; Linux x86_64; rv:109.0) Gecko/20100101 Firefox/111.0";

/// How many redirects the HTTP client follows before giving up.
pub const MAX_REDIRECTS: usize = 10;

/// A key/value pair of a query string or of a form body.
pub type Param = (String, String);

pub type ParamView = (Seq<char>, Seq<char>);

#[derive(Clone, Copy, Debug, PartialEq, Eq, Structural)]
pub enum HttpMethod {
    Get,
    Post,
}

/// A request the portal conversation asks the HTTP client to send.
pub struct HttpRequest {
    pub method: HttpMethod,
    pub url: String,
    /// Parameters appended to the URL's query string.
    pub query: Vec<Param>,
    /// Parameters sent as an `application/x-www-form-urlencoded` body; empty means no body.
    pub form: Vec<Param>,
}

pub struct RequestView {
    pub method: HttpMethod,
    pub url: Seq<char>,
    pub query: Seq<ParamView>,
    pub form: Seq<ParamView>,
}

impl View for HttpRequest {
    type V = RequestView;

    open spec fn view(&self) -> RequestView {
        RequestView {
            method: self.method,
            url: self.url@,
            query: self.query.deep_view(),
            form: self.form.deep_view(),
        }
    }
}

/// What a transaction report request asks for.
pub struct ReportParams {
    pub date_from: ReportDate,
    pub date_till: ReportDate,
    pub account_id: String,
    /// `"D"` = settlement date, `"T"` = transaction date.
    pub date_type: String,
    /// `"TR"` = transaction date reference.
    pub use_date: String,
    /// Filter by merchant ID; `None` means no filter.
    pub merchant: Option<String>,
    /// Filter by terminal ID; `None` means no filter.
    pub term_id: Option<String>,
    /// Output format sent to the portal (`"csv"`, `"xls"`, ...).
    pub export_type: String,
}

pub struct ReportParamsView {
    pub date_from: (int, int, int),
    pub date_till: (int, int, int),
    pub account_id: Seq<char>,
    pub date_type: Seq<char>,
    pub use_date: Seq<char>,
    pub merchant: Option<Seq<char>>,
    pub term_id: Option<Seq<char>>,
    pub export_type: Seq<char>,
}

impl View for ReportParams {
    type V = ReportParamsView;

    open spec fn view(&self) -> ReportParamsView {
        ReportParamsView {
            date_from: self.date_from@,
            date_till: self.date_till@,
            account_id: self.account_id@,
            date_type: self.date_type@,
            use_date: self.use_date@,
            merchant: self.merchant.deep_view(),
            term_id: self.term_id.deep_view(),
            export_type: self.export_type@,
        }
    }
}

pub open spec fn str_opt_view(o: Option<&str>) -> Option<Seq<char>> {
    match o {
        Some(s) => Some(s@),
        None => None,
    }
}

pub open spec fn or_empty(o: Option<Seq<char>>) -> Seq<char> {
    match o {
        Some(s) => s,
        None => Seq::empty(),
    }
}

/// Form body of the credential POST.
pub open spec fn login_form(username: Seq<char>, password: Seq<char>) -> Seq<ParamView> {
    seq![
        ("__Action"@, "login:b_login#Save#"@),
        ("j_username"@, username),
        ("j_password"@, password),
    ]
}

/// Query string of the merchant account switch.
pub open spec fn switch_query(account_id: Seq<char>) -> Seq<ParamView> {
    seq![
        ("__Action"@, "merchant:parent_id"@),
        ("__CSRF"@, "null"@),
        ("merchant:parent_id"@, account_id),
        ("transaction_info:news_id"@, ""@),
    ]
}

/// Query string of the detailed turnover page.
pub open spec fn turnover_query() -> Seq<ParamView> {
    seq![("group"@, "tab.detailed_turnover"@)]
}

/// The lookup-field return string for the merchant filter.
pub open spec fn merchant_return(m: Seq<char>) -> Seq<char> {
    "detailed_turnover:merchant~"@ + m + "|detailed_turnover:merchant_txt~"@ + m
        + " {full_name}|detailed_turnover:merchant_order~"@ + m
}

/// The lookup-field return string for the terminal filter.
pub open spec fn terminal_return(t: Seq<char>) -> Seq<char> {
    "detailed_turnover:term_id~"@ + t + "|detailed_turnover:term_id_txt~"@ + t
        + " {term_type}|detailed_turnover:term_id_order~"@ + t
}

/// Query string of the export request.
pub open spec fn export_query(p: ReportParamsView) -> Seq<ParamView> {
    seq![
        ("uniqueid"@, "detailed_turnover:detailed_turnover_search_result"@),
        ("exportType"@, p.export_type),
        ("page"@, "1"@),
        ("countRow"@, "15"@),
        ("sortField"@, ""@),
        ("sortType"@, "0"@),
        ("detailed_turnover:date_type"@, p.date_type),
        ("detailed_turnover:parent"@, p.account_id),
        ("detailed_turnover:shipm_date_from"@, dmy_text(p.date_from)),
        ("detailed_turnover:shipm_date_till"@, dmy_text(p.date_till)),
        ("detailed_turnover:use_date"@, p.use_date),
        ("detailed_turnover:merchant_ret"@, merchant_return(or_empty(p.merchant))),
        ("detailed_turnover:term_id_ret"@, terminal_return(or_empty(p.term_id))),
    ]
}

pub open spec fn login_page_request() -> RequestView {
    RequestView { method: HttpMethod::Get, url: LOGIN_PAGE_URL@, query: seq![], form: seq![] }
}

pub open spec fn auth_request(username: Seq<char>, password: Seq<char>) -> RequestView {
    RequestView {
        method: HttpMethod::Post,
        url: AUTH_URL@,
        query: seq![],
        form: login_form(username, password),
    }
}

pub open spec fn switch_request(account_id: Seq<char>) -> RequestView {
    RequestView {
        method: HttpMethod::Post,
        url: MERCHANT_SWITCH_URL@,
        query: switch_query(account_id),
        form: seq![],
    }
}

pub open spec fn turnover_request() -> RequestView {
    RequestView {
        method: HttpMethod::Get,
        url: DETAILED_TURNOVER_PAGE_URL@,
        query: turnover_query(),
        form: seq![],
    }
}

pub open spec fn export_request(p: ReportParamsView) -> RequestView {
    RequestView {
        method: HttpMethod::Get,
        url: EXPORT_LIST_DATA_URL@,
        query: export_query(p),
        form: seq![],
    }
}

fn param(key: &str, value: &str) -> (p: Param)
    ensures
        p.0@ == key@,
        p.1@ == value@,
{
    (String::from_str(key), String::from_str(value))
}

fn param_owned(key: &str, value: String) -> (p: Param)
    ensures
        p.0@ == key@,
        p.1@ == value@,
{
    (String::from_str(key), value)
}

/// The form body of the credential POST.
pub fn login_form_params(username: &str, password: &str) -> (v: Vec<Param>)
    ensures
        v.deep_view() == login_form(username@, password@),
{
    let mut v: Vec<Param> = Vec::new();
    v.push(param("__Action", "login:b_login#Save#"));
    v.push(param("j_username", username));
    v.push(param("j_password", password));
    assert(v.deep_view() =~= login_form(username@, password@));
    v
}

/// The query string that switches the session to the merchant account `account_id`.
pub fn switch_query_params(account_id: &str) -> (v: Vec<Param>)
    ensures
        v.deep_view() == switch_query(account_id@),
{
    let mut v: Vec<Param> = Vec::new();
    v.push(param("__Action", "merchant:parent_id"));
    v.push(param("__CSRF", "null"));
    v.push(param("merchant:parent_id", account_id));
    v.push(param("transaction_info:news_id", ""));
    assert(v.deep_view() =~= switch_query(account_id@));
    v
}

/// The query string of the detailed turnover page.
pub fn turnover_query_params() -> (v: Vec<Param>)
    ensures
        v.deep_view() == turnover_query(),
{
    let mut v: Vec<Param> = Vec::new();
    v.push(param("group", "tab.detailed_turnover"));
    assert(v.deep_view() =~= turnover_query());
    v
}

/// The lookup-field return string for the merchant filter `m` (empty when unfiltered).
pub fn merchant_return_text(m: &str) -> (s: String)
    ensures
        s@ == merchant_return(m@),
{
    let mut s = String::from_str("detailed_turnover:merchant~");
    s.append(m);
    s.append("|detailed_turnover:merchant_txt~");
    s.append(m);
    s.append(" {full_name}|detailed_turnover:merchant_order~");
    s.append(m);
    s
}

/// The lookup-field return string for the terminal filter `t` (empty when unfiltered).
pub fn terminal_return_text(t: &str) -> (s: String)
    ensures
        s@ == terminal_return(t@),
{
    let mut s = String::from_str("detailed_turnover:term_id~");
    s.append(t);
    s.append("|detailed_turnover:term_id_txt~");
    s.append(t);
    s.append(" {term_type}|detailed_turnover:term_id_order~");
    s.append(t);
    s
}

fn opt_as_str(o: &Option<String>) -> (r: &str)
    ensures
        r@ == or_empty(o.deep_view()),
{
    match o {
        Some(s) => s.as_str(),
        None => {
            proof { reveal_strlit(""); }
            ""
        },
    }
}

/// The query string of the export request for `p`.
pub fn export_query_params(p: &ReportParams) -> (v: Vec<Param>)
    ensures
        v.deep_view() == export_query(p@),
{
    let mut v: Vec<Param> = Vec::new();
    v.push(param("uniqueid", "detailed_turnover:detailed_turnover_search_result"));
    v.push(param("exportType", p.export_type.as_str()));
    v.push(param("page", "1"));
    v.push(param("countRow", "15"));
    v.push(param("sortField", ""));
    v.push(param("sortType", "0"));
    v.push(param("detailed_turnover:date_type", p.date_type.as_str()));
    v.push(param("detailed_turnover:parent", p.account_id.as_str()));
    v.push(param_owned("detailed_turnover:shipm_date_from", p.date_from.format_dmy()));
    v.push(param_owned("detailed_turnover:shipm_date_till", p.date_till.format_dmy()));
    v.push(param("detailed_turnover:use_date", p.use_date.as_str()));
    v.push(
        param_owned("detailed_turnover:merchant_ret", merchant_return_text(opt_as_str(&p.merchant))),
    );
    v.push(
        param_owned("detailed_turnover:term_id_ret", terminal_return_text(opt_as_str(&p.term_id))),
    );
    assert(v.deep_view() =~= export_query(p@));
    v
}

impl ReportParams {
    /// Collects the arguments of a report request.
    pub fn new(
        date_from: ReportDate,
        date_till: ReportDate,
        account_id: &str,
        date_type: &str,
        use_date: &str,
        merchant: Option<&str>,
        term_id: Option<&str>,
        export_type: &str,
    ) -> (p: ReportParams)
        ensures
            p@ == (ReportParamsView {
                date_from: date_from@,
                date_till: date_till@,
                account_id: account_id@,
                date_type: date_type@,
                use_date: use_date@,
                merchant: str_opt_view(merchant),
                term_id: str_opt_view(term_id),
                export_type: export_type@,
            }),
    {
        let merchant = match merchant {
            Some(m) => Some(String::from_str(m)),
            None => None,
        };
        let term_id = match term_id {
            Some(t) => Some(String::from_str(t)),
            None => None,
        };
        ReportParams {
            date_from,
            date_till,
            account_id: String::from_str(account_id),
            date_type: String::from_str(date_type),
            use_date: String::from_str(use_date),
            merchant,
            term_id,
            export_type: String::from_str(export_type),
        }
    }
}

/// The GET of the login page that opens a session cookie.
pub fn login_page_http_request() -> (r: HttpRequest)
    ensures
        r@ == login_page_request(),
{
    let r = HttpRequest {
        method: HttpMethod::Get,
        url: String::from_str(LOGIN_PAGE_URL),
        query: Vec::new(),
        form: Vec::new(),
    };
    assert(r@.query =~= seq![]);
    assert(r@.form =~= seq![]);
    r
}

/// The POST of the credentials.
pub fn auth_http_request(username: &str, password: &str) -> (r: HttpRequest)
    ensures
        r@ == auth_request(username@, password@),
{
    let r = HttpRequest {
        method: HttpMethod::Post,
        url: String::from_str(AUTH_URL),
        query: Vec::new(),
        form: login_form_params(username, password),
    };
    assert(r@.query =~= seq![]);
    r
}

/// The POST that switches the session to the merchant account `account_id`.
pub fn switch_http_request(account_id: &str) -> (r: HttpRequest)
    ensures
        r@ == switch_request(account_id@),
{
    let r = HttpRequest {
        method: HttpMethod::Post,
        url: String::from_str(MERCHANT_SWITCH_URL),
        query: switch_query_params(account_id),
        form: Vec::new(),
    };
    assert(r@.form =~= seq![]);
    r
}

/// The GET of the detailed turnover page, which sets the portal's state for the export.
pub fn turnover_http_request() -> (r: HttpRequest)
    ensures
        r@ == turnover_request(),
{
    let r = HttpRequest {
        method: HttpMethod::Get,
        url: String::from_str(DETAILED_TURNOVER_PAGE_URL),
        query: turnover_query_params(),
        form: Vec::new(),
    };
    assert(r@.form =~= seq![]);
    r
}

/// The GET that exports the transactions described by `p`.
pub fn export_http_request(p: &ReportParams) -> (r: HttpRequest)
    ensures
        r@ == export_request(p@),
{
    let r = HttpRequest {
        method: HttpMethod::Get,
        url: String::from_str(EXPORT_LIST_DATA_URL),
        query: export_query_params(p),
        form: Vec::new(),
    };
    assert(r@.form =~= seq![]);
    r
}

} // verus!
