use aioworldline::date::ReportDate;
use aioworldline::options::ReportOptions;
use aioworldline::portal::{
    export_http_request, export_query_params, login_form_params, merchant_return_text,
    switch_query_params, terminal_return_text, turnover_query_params, HttpMethod, ReportParams,
    EXPORT_LIST_DATA_URL,
};

fn pairs(v: &[(String, String)]) -> Vec<(&str, &str)> {
    v.iter().map(|(k, v)| (k.as_str(), v.as_str())).collect()
}

#[test]
fn default_options() {
    let o = ReportOptions::default();
    assert_eq!(o.account_id, "");
    assert_eq!(o.date_type, "D");
    assert_eq!(o.use_date, "TR");
    assert_eq!(o.merchant, None);
    assert_eq!(o.term_id, None);
    assert_eq!(o.export_type, "csv");
}

#[test]
fn login_form_carries_credentials() {
    let f = login_form_params("alice", "s3cret");
    assert_eq!(
        pairs(&f),
        vec![("__Action", "login:b_login#Save#"), ("j_username", "alice"), ("j_password", "s3cret")]
    );
}

#[test]
fn switch_query_names_account() {
    let q = switch_query_params("ACC42");
    assert_eq!(
        pairs(&q),
        vec![
            ("__Action", "merchant:parent_id"),
            ("__CSRF", "null"),
            ("merchant:parent_id", "ACC42"),
            ("transaction_info:news_id", ""),
        ]
    );
}

#[test]
fn turnover_query_selects_tab() {
    assert_eq!(pairs(&turnover_query_params()), vec![("group", "tab.detailed_turnover")]);
}

#[test]
fn lookup_return_strings() {
    assert_eq!(
        merchant_return_text("M1"),
        "detailed_turnover:merchant~M1|detailed_turnover:merchant_txt~M1 {full_name}|detailed_turnover:merchant_order~M1"
    );
    assert_eq!(
        terminal_return_text(""),
        "detailed_turnover:term_id~|detailed_turnover:term_id_txt~ {term_type}|detailed_turnover:term_id_order~"
    );
}

#[test]
fn export_query_without_filters() {
    let d1 = ReportDate::from_ymd(2024, 2, 27).unwrap();
    let d2 = ReportDate::from_ymd(2024, 3, 1).unwrap();
    let o = ReportOptions { account_id: "ACC", ..Default::default() };
    let p = ReportParams::new(d1, d2, o.account_id, o.date_type, o.use_date, o.merchant, o.term_id, o.export_type);
    let q = export_query_params(&p);
    assert_eq!(
        pairs(&q),
        vec![
            ("uniqueid", "detailed_turnover:detailed_turnover_search_result"),
            ("exportType", "csv"),
            ("page", "1"),
            ("countRow", "15"),
            ("sortField", ""),
            ("sortType", "0"),
            ("detailed_turnover:date_type", "D"),
            ("detailed_turnover:parent", "ACC"),
            ("detailed_turnover:shipm_date_from", "27.02.2024"),
            ("detailed_turnover:shipm_date_till", "01.03.2024"),
            ("detailed_turnover:use_date", "TR"),
            (
                "detailed_turnover:merchant_ret",
                "detailed_turnover:merchant~|detailed_turnover:merchant_txt~ {full_name}|detailed_turnover:merchant_order~"
            ),
            (
                "detailed_turnover:term_id_ret",
                "detailed_turnover:term_id~|detailed_turnover:term_id_txt~ {term_type}|detailed_turnover:term_id_order~"
            ),
        ]
    );
}

#[test]
fn export_request_with_filters() {
    let d = ReportDate::from_ymd(2023, 12, 31).unwrap();
    let p = ReportParams::new(d, d, "A", "T", "TR", Some("M7"), Some("T9"), "xls");
    let r = export_http_request(&p);
    assert_eq!(r.method, HttpMethod::Get);
    assert_eq!(r.url, EXPORT_LIST_DATA_URL);
    assert!(r.form.is_empty());
    let q = pairs(&r.query);
    assert_eq!(q[1], ("exportType", "xls"));
    assert_eq!(q[6], ("detailed_turnover:date_type", "T"));
    assert_eq!(q[8], ("detailed_turnover:shipm_date_from", "31.12.2023"));
    assert_eq!(
        q[11],
        (
            "detailed_turnover:merchant_ret",
            "detailed_turnover:merchant~M7|detailed_turnover:merchant_txt~M7 {full_name}|detailed_turnover:merchant_order~M7"
        )
    );
    assert_eq!(
        q[12],
        (
            "detailed_turnover:term_id_ret",
            "detailed_turnover:term_id~T9|detailed_turnover:term_id_txt~T9 {term_type}|detailed_turnover:term_id_order~T9"
        )
    );
}
