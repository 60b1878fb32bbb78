use aioworldline::date::ReportDate;
use aioworldline::report::report_window;

fn ymd(y: i32, m: u32, d: u32) -> ReportDate {
    ReportDate::from_ymd(y, m, d).expect("valid date")
}

fn parts(d: &ReportDate) -> (i32, u32, u32) {
    (d.year(), d.month(), d.day())
}

#[test]
fn from_ymd_accepts_real_days() {
    assert_eq!(parts(&ymd(2024, 2, 29)), (2024, 2, 29));
    assert_eq!(parts(&ymd(2000, 2, 29)), (2000, 2, 29));
    assert_eq!(parts(&ymd(2023, 12, 31)), (2023, 12, 31));
    assert!(ReportDate::from_ymd(-4, 2, 29).is_some());
}

#[test]
fn from_ymd_rejects_missing_days() {
    assert!(ReportDate::from_ymd(2023, 2, 29).is_none());
    assert!(ReportDate::from_ymd(1900, 2, 29).is_none());
    assert!(ReportDate::from_ymd(2023, 4, 31).is_none());
    assert!(ReportDate::from_ymd(2023, 13, 1).is_none());
    assert!(ReportDate::from_ymd(2023, 0, 1).is_none());
    assert!(ReportDate::from_ymd(2023, 1, 0).is_none());
    assert!(ReportDate::from_ymd(262143, 1, 1).is_none());
    assert!(ReportDate::from_ymd(-262144, 12, 31).is_none());
    assert!(ReportDate::from_ymd(262142, 12, 31).is_some());
    assert!(ReportDate::from_ymd(-262143, 1, 1).is_some());
}

#[test]
fn format_dmy_pads_day_month_and_year() {
    assert_eq!(ymd(2024, 3, 5).format_dmy(), "05.03.2024");
    assert_eq!(ymd(2023, 12, 31).format_dmy(), "31.12.2023");
    assert_eq!(ymd(999, 1, 9).format_dmy(), "09.01.0999");
    assert_eq!(ymd(7, 10, 10).format_dmy(), "10.10.0007");
    assert_eq!(ymd(0, 1, 1).format_dmy(), "01.01.0000");
}

#[test]
fn format_dmy_signs_years_outside_four_digits() {
    assert_eq!(ymd(-1, 1, 1).format_dmy(), "01.01.-0001");
    assert_eq!(ymd(-12345, 6, 7).format_dmy(), "07.06.-12345");
    assert_eq!(ymd(10000, 6, 7).format_dmy(), "07.06.+10000");
    assert_eq!(ymd(262142, 12, 31).format_dmy(), "31.12.+262142");
}

#[test]
fn format_dmy_matches_chrono() {
    for &(y, m, d) in &[(2024, 2, 29), (1, 1, 1), (-262143, 1, 1), (9999, 12, 31), (12000, 5, 17), (-50, 3, 3)] {
        let ours = ymd(y, m, d).format_dmy();
        let theirs = chrono::NaiveDate::from_ymd_opt(y, m, d).unwrap().format("%d.%m.%Y").to_string();
        assert_eq!(ours, theirs);
    }
}

#[test]
fn pred_steps_over_month_and_year_ends() {
    assert_eq!(parts(&ymd(2024, 3, 1).pred().unwrap()), (2024, 2, 29));
    assert_eq!(parts(&ymd(2023, 3, 1).pred().unwrap()), (2023, 2, 28));
    assert_eq!(parts(&ymd(2024, 1, 1).pred().unwrap()), (2023, 12, 31));
    assert_eq!(parts(&ymd(2024, 5, 1).pred().unwrap()), (2024, 4, 30));
    assert_eq!(parts(&ymd(2024, 5, 17).pred().unwrap()), (2024, 5, 16));
    assert!(ymd(-262143, 1, 1).pred().is_none());
}

#[test]
fn days_before_counts_back() {
    assert_eq!(parts(&ymd(2024, 3, 3).days_before(5).unwrap()), (2024, 2, 27));
    assert_eq!(parts(&ymd(2024, 1, 2).days_before(5).unwrap()), (2023, 12, 28));
    assert_eq!(parts(&ymd(2024, 1, 2).days_before(0).unwrap()), (2024, 1, 2));
    assert!(ymd(-262143, 1, 3).days_before(5).is_none());
    let chrono_day = chrono::NaiveDate::from_ymd_opt(2024, 3, 3).unwrap() - chrono::TimeDelta::days(400);
    let ours = ymd(2024, 3, 3).days_before(400).unwrap();
    assert_eq!(ours.format_dmy(), chrono_day.format("%d.%m.%Y").to_string());
}

#[test]
fn report_window_is_five_days_back_on_both_ends() {
    let (from, till) = report_window(&ymd(2024, 3, 3)).unwrap();
    assert_eq!(parts(&from), (2024, 2, 27));
    assert_eq!(parts(&till), (2024, 2, 27));
    assert!(report_window(&ymd(-262143, 1, 5)).is_none());
}
