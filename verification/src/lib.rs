//! A client for the Worldline Baltic merchant portal: the portal conversations (login and
//! transaction report export) as verified state machines, the requests they send, the
//! configuration check, CSRF extraction from pages, and decoding of the exported report.

pub mod conf;
pub mod csrf;
pub mod date;
pub mod error;
pub mod flow;
pub mod options;
pub mod portal;
pub mod report;

pub use conf::Settings;
pub use csrf::extract_csrf;
pub use error::WorldlineError;
pub use options::ReportOptions;
