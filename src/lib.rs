//! Cheat-guarded assertions.
//!
//! Every assertion made by this library carries documentation of what it
//! protects, how severe a silent bypass would be, the concrete ways it could
//! be gamed, and what a user would experience if it were. That documentation
//! is rendered verbatim into the failure report.

mod check;
mod guard;
mod report;

pub use report::{
    border, cheat_line, cheat_lines, cheat_texts, contains_at, decimal, digit_char, format_report,
    join_lines, lemma_cheats_numbered_in_order, lemma_format_deterministic, line_offset,
    report_head, report_tail, report_text, Severity,
};
pub use guard::{
    bail, bail_outcome, ensure, ensure_outcome, failure_text, lemma_ensure_agrees_with_bail,
    CheatGuardedFailure,
};
pub use check::{
    check, diagnostic_block, lemma_diagnostics_show_metadata, lines_of, progress_line, CheckLog,
    CheckResult, ResultAggregator,
};
