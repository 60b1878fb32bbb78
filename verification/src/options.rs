use vstd::prelude::*;

verus! {

/// Builder-style options for a transaction report request.
pub struct ReportOptions<'a> {
    pub account_id: &'a str,
    /// `"D"` = settlement date, `"T"` = transaction date.
    pub date_type: &'a str,
    /// `"TR"` = transaction date reference.
    pub use_date: &'a str,
    /// Filter by merchant ID; `None` means no filter.
    pub merchant: Option<&'a str>,
    /// Filter by terminal ID; `None` means no filter.
    pub term_id: Option<&'a str>,
    /// Output format sent to the portal (`"csv"`, `"xls"`, ...).
    pub export_type: &'a str,
}

impl<'a> Default for ReportOptions<'a> {
    fn default() -> (r: Self)
        ensures
            r.account_id@ == ""@,
            r.date_type@ == "D"@,
            r.use_date@ == "TR"@,
            r.merchant is None,
            r.term_id is None,
            r.export_type@ == "csv"@,
    {
        ReportOptions {
            account_id: "",
            date_type: "D",
            use_date: "TR",
            merchant: None,
            term_id: None,
            export_type: "csv",
        }
    }
}

} // verus!
