use vstd::prelude::*;
use vstd::string::StringExecFns;

use crate::report::{append_border, append_cheat_line, border, cheat_line, cheat_lines, cheat_texts, Severity};

verus! {

/// The outcome of one recorded check.
#[derive(Clone, Debug)]
pub enum CheckResult {
    Pass(String),
    Fail { expected: String, actual: String },
}

impl CheckResult {
    pub fn passed(&self) -> (r: bool)
        ensures
            r == (self is Pass),
    {
        match self {
            CheckResult::Pass(_) => true,
            CheckResult::Fail { .. } => false,
        }
    }
}

/// A collector of named check outcomes, such as the result of one step of
/// a procedure under test. Entries with the same name are all kept.
pub trait ResultAggregator {
    /// The outcomes recorded so far, in order, each under its name.
    spec fn recorded(&self) -> Seq<(Seq<char>, CheckResult)>;

    fn add_check(&mut self, name: &str, result: CheckResult)
        ensures
            final(self).recorded() == old(self).recorded().push((name@, result)),
    ;
}

/// A plain in-memory aggregator.
pub struct CheckLog {
    entries: Vec<(String, CheckResult)>,
}

impl ResultAggregator for CheckLog {
    closed spec fn recorded(&self) -> Seq<(Seq<char>, CheckResult)> {
        self.entries@.map_values(|e: (String, CheckResult)| (e.0@, e.1))
    }

    fn add_check(&mut self, name: &str, result: CheckResult) {
        let ghost before = self.entries@;
        self.entries.push((String::from_str(name), result));
        assert(self.recorded() =~= before.map_values(
            |e: (String, CheckResult)| (e.0@, e.1),
        ).push((name@, result)));
    }
}

impl CheckLog {
    pub fn new() -> (r: CheckLog)
        ensures
            r.recorded() == Seq::<(Seq<char>, CheckResult)>::empty(),
    {
        let r = CheckLog { entries: Vec::new() };
        assert(r.recorded() =~= Seq::<(Seq<char>, CheckResult)>::empty());
        r
    }

    /// The number of outcomes recorded.
    pub fn len(&self) -> (r: usize)
        ensures
            r == self.recorded().len(),
    {
        self.entries.len()
    }

    /// The name and outcome of the `i`-th entry.
    pub fn get(&self, i: usize) -> (r: (&str, &CheckResult))
        requires
            i < self.recorded().len(),
        ensures
            (r.0@, *r.1) == self.recorded()[i as int],
    {
        let e = &self.entries[i];
        (e.0.as_str(), &e.1)
    }
}

/// The text of each line written to a sink.
pub open spec fn lines_of(sink: Seq<String>) -> Seq<Seq<char>> {
    sink.map_values(|s: String| s@)
}

/// The progress line that announces a check.
pub open spec fn progress_line(name: Seq<char>, protects: Seq<char>) -> Seq<char> {
    "    checking: "@ + name + " (protects: "@ + protects + ")"@
}

/// The diagnostic block written when a check fails.
pub open spec fn diagnostic_block(
    name: Seq<char>,
    protects: Seq<char>,
    severity: Severity,
    cheats: Seq<Seq<char>>,
    consequence: Seq<char>,
) -> Seq<Seq<char>> {
    seq![
        Seq::empty(),
        border(60),
        "CHEAT-GUARDED CHECK FAILED: "@ + name,
        border(60),
        "PROTECTS: "@ + protects,
        "SEVERITY: "@ + severity.text(),
        "CHEATS:"@,
    ] + cheat_lines(cheats) + seq!["CONSEQUENCE: "@ + consequence, border(60)]
}


/// The diagnostic block of a failed check shows its severity, its
/// consequence, and every cheat vector under its 1-based number, in order.
pub proof fn lemma_diagnostics_show_metadata(
    name: Seq<char>,
    protects: Seq<char>,
    severity: Severity,
    cheats: Seq<Seq<char>>,
    consequence: Seq<char>,
)
    ensures
        diagnostic_block(name, protects, severity, cheats, consequence).contains(
            "SEVERITY: "@ + severity.text(),
        ),
        diagnostic_block(name, protects, severity, cheats, consequence).contains(
            "CONSEQUENCE: "@ + consequence,
        ),
        forall|i: int|
            0 <= i < cheats.len() ==> diagnostic_block(
                name,
                protects,
                severity,
                cheats,
                consequence,
            )[7 + i] == cheat_line((i + 1) as nat, #[trigger] cheats[i]),
{
    let block = diagnostic_block(name, protects, severity, cheats, consequence);
    assert(block[5] == "SEVERITY: "@ + severity.text());
    assert(block[7 + cheats.len() as int] == "CONSEQUENCE: "@ + consequence);
}

fn joined(a: &str, b: &str) -> (r: String)
    ensures
        r@ == a@ + b@,
{
    let mut s = String::from_str(a);
    s.append(b);
    s
}

fn border_line(n: usize) -> (r: String)
    ensures
        r@ == border(n as nat),
{
    let mut s = String::new();
    append_border(&mut s, n);
    assert(s@ =~= border(n as nat));
    s
}

/// Writes the diagnostic block of a failed check, line by line.
fn write_diagnostics(
    diagnostics: &mut Vec<String>,
    name: &str,
    protects: &str,
    severity: Severity,
    cheats: &[&str],
    consequence: &str,
)
    ensures
        lines_of(final(diagnostics)@) == lines_of(old(diagnostics)@) + diagnostic_block(
            name@,
            protects@,
            severity,
            cheat_texts(cheats@),
            consequence@,
        ),
{
    let ghost start = lines_of(diagnostics@);
    let ghost block = diagnostic_block(
        name@,
        protects@,
        severity,
        cheat_texts(cheats@),
        consequence@,
    );
    let ghost lines = cheat_lines(cheat_texts(cheats@));
    diagnostics.push(String::new());
    diagnostics.push(border_line(60));
    diagnostics.push(joined("CHEAT-GUARDED CHECK FAILED: ", name));
    diagnostics.push(border_line(60));
    diagnostics.push(joined("PROTECTS: ", protects));
    diagnostics.push(joined("SEVERITY: ", severity.label()));
    diagnostics.push(String::from_str("CHEATS:"));
    assert(lines_of(diagnostics@) =~= start + block.take(7));
    let mut i: usize = 0;
    while i < cheats.len()
        invariant
            i <= cheats@.len(),
            lines == cheat_lines(cheat_texts(cheats@)),
            block == diagnostic_block(
                name@,
                protects@,
                severity,
                cheat_texts(cheats@),
                consequence@,
            ),
            lines_of(diagnostics@) == start + block.take(7 + i),
        decreases cheats@.len() - i,
    {
        let mut line = String::new();
        append_cheat_line(&mut line, i + 1, cheats[i]);
        assert(line@ =~= lines[i as int]);
        assert(block[7 + i as int] == lines[i as int]);
        let ghost pre = lines_of(diagnostics@);
        diagnostics.push(line);
        assert(lines_of(diagnostics@) =~= pre.push(lines[i as int]));
        i = i + 1;
        assert(lines_of(diagnostics@) =~= start + block.take(7 + i));
    }
    let ghost n = lines.len() as int;
    assert(block.len() == n + 9);
    assert(block.take(7 + n) =~= block.subrange(0, n + 7));
    assert(n == cheats@.len());
    let ghost mid = lines_of(diagnostics@);
    assert(mid == start + block.take(7 + n));
    diagnostics.push(joined("CONSEQUENCE: ", consequence));
    assert(lines_of(diagnostics@) =~= mid.push(block[n + 7]));
    let ghost mid2 = lines_of(diagnostics@);
    diagnostics.push(border_line(60));
    assert(lines_of(diagnostics@) =~= mid2.push(block[n + 8]));
    assert(block[n + 7] == "CONSEQUENCE: "@ + consequence@);
    assert(block[n + 8] == border(60));
    assert(lines_of(diagnostics@) =~= start + block);
}

/// Checks `condition` and records its outcome under `name`, without ever
/// failing the caller.
///
/// A progress line naming the check and what it protects is always written
/// to `progress`. When the condition holds, `Pass(expected)` is recorded and
/// nothing is written to `diagnostics`. When it does not, the diagnostic
/// block with the cheat vectors is written to `diagnostics` and
/// `Fail { expected, actual }` is recorded.
pub fn check<A: ResultAggregator>(
    aggregator: &mut A,
    progress: &mut Vec<String>,
    diagnostics: &mut Vec<String>,
    name: &str,
    condition: bool,
    protects: &str,
    severity: Severity,
    cheats: &[&str],
    consequence: &str,
    expected: String,
    actual: String,
)
    requires
        cheats@.len() > 0,
    ensures
        final(progress)@.len() == old(progress)@.len() + 1,
        lines_of(final(progress)@) == lines_of(old(progress)@).push(progress_line(name@, protects@)),
        condition ==> final(diagnostics)@ == old(diagnostics)@,
        condition ==> final(aggregator).recorded() == old(aggregator).recorded().push(
            (name@, CheckResult::Pass(expected)),
        ),
        !condition ==> lines_of(final(diagnostics)@) == lines_of(old(diagnostics)@)
            + diagnostic_block(name@, protects@, severity, cheat_texts(cheats@), consequence@),
        !condition ==> final(aggregator).recorded() == old(aggregator).recorded().push(
            (name@, CheckResult::Fail { expected, actual }),
        ),
{
    let ghost before = lines_of(progress@);
    let mut line = joined("    checking: ", name);
    line.append(" (protects: ");
    line.append(protects);
    line.append(")");
    progress.push(line);
    assert(lines_of(progress@) =~= before.push(progress_line(name@, protects@)));
    if condition {
        aggregator.add_check(name, CheckResult::Pass(expected));
    } else {
        write_diagnostics(diagnostics, name, protects, severity, cheats, consequence);
        aggregator.add_check(name, CheckResult::Fail { expected, actual });
    }
}

} // verus!
