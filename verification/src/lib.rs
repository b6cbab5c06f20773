//! Rendering of diagnostic reports for matches in source code.

pub mod escape;
pub mod finding;
pub mod highlight;
pub mod laws;
pub mod lines;
pub mod plan;
pub mod report;
pub mod style;
pub mod text;

pub use finding::{LintMatch, Point, Range};
pub use report::{report, report_opts, Opts};
