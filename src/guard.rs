use vstd::prelude::*;

use crate::report::{cheat_texts, format_report, report_text, Severity};

verus! {

/// A cheat-guarded failure: the error that `bail` and `ensure` produce.
/// Its payload is the rendered report.
#[derive(Clone, Debug)]
pub struct CheatGuardedFailure {
    pub report: String,
}

impl View for CheatGuardedFailure {
    type V = Seq<char>;

    open spec fn view(&self) -> Seq<char> {
        self.report@
    }
}

impl CheatGuardedFailure {
    /// The text of the report.
    pub fn message(&self) -> (r: &str)
        ensures
            r@ == self@,
    {
        self.report.as_str()
    }
}

/// The report that a failing `bail` or `ensure` carries, if any.
pub open spec fn failure_text<T>(r: Result<T, CheatGuardedFailure>) -> Option<Seq<char>> {
    match r {
        Ok(_) => None,
        Err(e) => Some(e@),
    }
}

/// What `bail` produces: always the report of its fields.
pub open spec fn bail_outcome(
    error_message: Seq<char>,
    protects: Seq<char>,
    severity: Severity,
    cheats: Seq<Seq<char>>,
    consequence: Seq<char>,
) -> Option<Seq<char>> {
    Some(report_text(error_message, protects, severity, cheats, consequence))
}

/// What `ensure` produces: nothing when the condition holds.
pub open spec fn ensure_outcome(
    condition: bool,
    error_message: Seq<char>,
    protects: Seq<char>,
    severity: Severity,
    cheats: Seq<Seq<char>>,
    consequence: Seq<char>,
) -> Option<Seq<char>> {
    if condition {
        None
    } else {
        bail_outcome(error_message, protects, severity, cheats, consequence)
    }
}

/// Fails unconditionally, with the rendered report as the error.
pub fn bail<T>(
    error_message: &str,
    protects: &str,
    severity: Severity,
    cheats: &[&str],
    consequence: &str,
) -> (r: Result<T, CheatGuardedFailure>)
    requires
        cheats@.len() > 0,
    ensures
        r is Err,
        failure_text(r) == bail_outcome(
            error_message@,
            protects@,
            severity,
            cheat_texts(cheats@),
            consequence@,
        ),
{
    let report = format_report(error_message, protects, severity, cheats, consequence);
    Err(CheatGuardedFailure { report })
}

/// Succeeds when `condition` holds; otherwise fails exactly as `bail` does
/// with the same fields.
pub fn ensure(
    condition: bool,
    error_message: &str,
    protects: &str,
    severity: Severity,
    cheats: &[&str],
    consequence: &str,
) -> (r: Result<(), CheatGuardedFailure>)
    requires
        cheats@.len() > 0,
    ensures
        r is Ok <==> condition,
        failure_text(r) == ensure_outcome(
            condition,
            error_message@,
            protects@,
            severity,
            cheat_texts(cheats@),
            consequence@,
        ),
{
    if !condition {
        bail(error_message, protects, severity, cheats, consequence)
    } else {
        Ok(())
    }
}

/// `ensure` of a true condition never fails; `ensure` of a false one fails
/// with a report identical to the one `bail` gives for the same fields.
pub proof fn lemma_ensure_agrees_with_bail(
    error_message: Seq<char>,
    protects: Seq<char>,
    severity: Severity,
    cheats: Seq<Seq<char>>,
    consequence: Seq<char>,
)
    ensures
        ensure_outcome(true, error_message, protects, severity, cheats, consequence) is None,
        ensure_outcome(false, error_message, protects, severity, cheats, consequence)
            == bail_outcome(error_message, protects, severity, cheats, consequence),
        bail_outcome(error_message, protects, severity, cheats, consequence) is Some,
{
}

} // verus!
