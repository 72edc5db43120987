#![verifier::loop_isolation(false)]
pub mod config;
pub mod emoji;
pub mod errors;
pub mod git;
pub mod laws;
pub mod lint;
pub mod outside;
pub mod parser;
pub mod refs;
pub mod text;

pub use config::count_active_rules;
pub use config::Config;
pub use errors::pluralize;
pub use errors::SumiError;
pub use lint::run_lint;
pub use lint::run_lint_on_each_line;
pub use parser::ParsedCommit;
