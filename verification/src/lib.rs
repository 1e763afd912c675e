//! Verified core of a recursive content-discovery scanner: validation of
//! run-time limits, the help-flag decision of the command line, and the
//! decisions that drive the scan of one url.

pub mod parser;
pub mod scanner;
pub mod time_spec;

pub use parser::{help_request, user_agent_help, HelpRequest};
pub use time_spec::{time_spec_verdict, valid_time_spec};
