use vstd::prelude::*;

verus! {

/// How severe a silent bypass of a check would be.
///
/// The levels are labels only: no ordering is imposed on them here.
#[derive(Clone, Copy, Debug, PartialEq, Eq, Structural)]
pub enum Severity {
    Critical,
    High,
    Medium,
    Low,
}

impl Severity {
    /// The label under which the level is shown in reports.
    pub open spec fn text(self) -> Seq<char> {
        match self {
            Severity::Critical => "CRITICAL"@,
            Severity::High => "HIGH"@,
            Severity::Medium => "MEDIUM"@,
            Severity::Low => "LOW"@,
        }
    }

    pub fn label(&self) -> (r: &'static str)
        ensures
            r@ == self.text(),
    {
        match self {
            Severity::Critical => "CRITICAL",
            Severity::High => "HIGH",
            Severity::Medium => "MEDIUM",
            Severity::Low => "LOW",
        }
    }
}

/// The character of a decimal digit.
pub open spec fn digit_char(d: nat) -> char {
    seq!['0', '1', '2', '3', '4', '5', '6', '7', '8', '9'][d as int]
}

/// The decimal rendering of `n`, without leading zeros.
pub open spec fn decimal(n: nat) -> Seq<char>
    decreases n,
{
    if n < 10 {
        seq![digit_char(n)]
    } else {
        decimal(n / 10).push(digit_char(n % 10))
    }
}

/// `n` copies of `=`.
pub open spec fn border(n: nat) -> Seq<char> {
    Seq::new(n, |i: int| '=')
}

/// The rendering of the cheat vector `c` under the 1-based number `k`.
pub open spec fn cheat_line(k: nat, c: Seq<char>) -> Seq<char> {
    seq![' ', ' '] + decimal(k) + seq!['.', ' '] + c
}

/// The text of each cheat vector.
pub open spec fn cheat_texts(cheats: Seq<&str>) -> Seq<Seq<char>> {
    cheats.map_values(|c: &str| c@)
}

/// Each cheat vector rendered under its 1-based position.
pub open spec fn cheat_lines(cheats: Seq<Seq<char>>) -> Seq<Seq<char>> {
    Seq::new(cheats.len(), |i: int| cheat_line((i + 1) as nat, cheats[i]))
}

/// The lines joined by newlines.
pub open spec fn join_lines(lines: Seq<Seq<char>>) -> Seq<char>
    decreases lines.len(),
{
    if lines.len() == 0 {
        Seq::empty()
    } else if lines.len() == 1 {
        lines[0]
    } else {
        join_lines(lines.drop_last()) + seq!['\n'] + lines.last()
    }
}

/// Where the `i`-th line starts in `join_lines(lines)`.
pub open spec fn line_offset(lines: Seq<Seq<char>>, i: int) -> int
    decreases i,
{
    if i <= 0 {
        0
    } else {
        line_offset(lines, i - 1) + lines[i - 1].len() + 1
    }
}

/// `t` occurs in `s` starting at position `k`.
pub open spec fn contains_at(s: Seq<char>, t: Seq<char>, k: int) -> bool {
    0 <= k && k + t.len() <= s.len() && s.subrange(k, k + t.len()) == t
}

fn digit_str(d: usize) -> (r: &'static str)
    requires
        d < 10,
    ensures
        r@ == seq![digit_char(d as nat)],
{
    proof {
        reveal_strlit("0");
        reveal_strlit("1");
        reveal_strlit("2");
        reveal_strlit("3");
        reveal_strlit("4");
        reveal_strlit("5");
        reveal_strlit("6");
        reveal_strlit("7");
        reveal_strlit("8");
        reveal_strlit("9");
    }
    match d {
        0 => "0",
        1 => "1",
        2 => "2",
        3 => "3",
        4 => "4",
        5 => "5",
        6 => "6",
        7 => "7",
        8 => "8",
        _ => "9",
    }
}

fn append_decimal(out: &mut String, n: usize)
    ensures
        final(out)@ == old(out)@ + decimal(n as nat),
    decreases n,
{
    if n >= 10 {
        append_decimal(out, n / 10);
    }
    out.append(digit_str(n % 10));
    assert(final(out)@ =~= old(out)@ + decimal(n as nat));
}


/// The part of a report above the cheat list.
pub open spec fn report_head(protects: Seq<char>, severity: Seq<char>) -> Seq<char> {
    "\n"@ + border(70) + "\n=== CHEAT-GUARDED FAILURE ===\n"@ + border(70) + "\n\nPROTECTS: "@
        + protects + "\nSEVERITY: "@ + severity + "\n\nCHEAT VECTORS:\n"@
}

/// The part of a report below the cheat list.
pub open spec fn report_tail(consequence: Seq<char>, error_message: Seq<char>) -> Seq<char> {
    "\n\nUSER CONSEQUENCE:\n"@ + consequence + "\n\nERROR:\n"@ + error_message + "\n"@ + border(
        70,
    ) + "\n"@
}

/// The full report of a cheat-guarded failure.
pub open spec fn report_text(
    error_message: Seq<char>,
    protects: Seq<char>,
    severity: Severity,
    cheats: Seq<Seq<char>>,
    consequence: Seq<char>,
) -> Seq<char> {
    report_head(protects, severity.text()) + join_lines(cheat_lines(cheats)) + report_tail(
        consequence,
        error_message,
    )
}

proof fn lemma_join_step(lines: Seq<Seq<char>>, i: int)
    requires
        0 <= i < lines.len(),
    ensures
        i == 0 ==> join_lines(lines.take(i + 1)) == lines[i],
        i > 0 ==> join_lines(lines.take(i + 1)) == join_lines(lines.take(i)) + seq!['\n']
            + lines[i],
{
    assert(lines.take(i + 1).drop_last() =~= lines.take(i));
}

proof fn lemma_offset_prefix(lines: Seq<Seq<char>>, i: int)
    requires
        lines.len() > 0,
        i < lines.len(),
    ensures
        line_offset(lines.drop_last(), i) == line_offset(lines, i),
    decreases i,
{
    if i > 0 {
        lemma_offset_prefix(lines, i - 1);
    }
}

proof fn lemma_join_len(lines: Seq<Seq<char>>)
    requires
        lines.len() > 0,
    ensures
        join_lines(lines).len() + 1 == line_offset(lines, lines.len() as int),
    decreases lines.len(),
{
    let n = lines.len() as int;
    assert(line_offset(lines, n) == line_offset(lines, n - 1) + lines[n - 1].len() + 1);
    if n > 1 {
        let front = lines.drop_last();
        lemma_join_len(front);
        lemma_offset_prefix(lines, n - 1);
        assert(join_lines(lines) == join_lines(front) + seq!['\n'] + lines[n - 1]);
    }
}

proof fn lemma_join_contains(lines: Seq<Seq<char>>, i: int)
    requires
        0 <= i < lines.len(),
    ensures
        contains_at(join_lines(lines), lines[i], line_offset(lines, i)),
    decreases lines.len(),
{
    let j = join_lines(lines);
    let k = line_offset(lines, i);
    if lines.len() == 1 {
        assert(j.subrange(0, lines[0].len() as int) =~= lines[0]);
    } else {
        let front = lines.drop_last();
        lemma_join_len(front);
        if i < lines.len() - 1 {
            lemma_join_contains(front, i);
            lemma_offset_prefix(lines, i);
            assert(j.subrange(k, k + lines[i].len()) =~= join_lines(front).subrange(
                k,
                k + lines[i].len(),
            ));
        } else {
            lemma_offset_prefix(lines, i);
            assert(j.subrange(k, k + lines[i].len()) =~= lines[i]);
        }
    }
}

proof fn lemma_offsets_increase(lines: Seq<Seq<char>>, i: int, j: int)
    requires
        0 <= i < j,
    ensures
        line_offset(lines, i) < line_offset(lines, j),
    decreases j,
{
    if i < j - 1 {
        lemma_offsets_increase(lines, i, j - 1);
    }
}

/// The cheat vectors of a report are numbered 1 to N in the order given:
/// the `i`-th one appears in the report behind the number `i + 1`, and
/// each one starts after the one before it.
pub proof fn lemma_cheats_numbered_in_order(
    error_message: Seq<char>,
    protects: Seq<char>,
    severity: Severity,
    cheats: Seq<Seq<char>>,
    consequence: Seq<char>,
)
    requires
        cheats.len() > 0,
    ensures
        forall|i: int|
            0 <= i < cheats.len() ==> contains_at(
                report_text(error_message, protects, severity, cheats, consequence),
                cheat_line((i + 1) as nat, #[trigger] cheats[i]),
                report_head(protects, severity.text()).len() + line_offset(cheat_lines(cheats), i),
            ),
        forall|i: int, j: int|
            0 <= i < j < cheats.len() ==> #[trigger] line_offset(cheat_lines(cheats), i)
                < #[trigger] line_offset(cheat_lines(cheats), j),
{
    let head = report_head(protects, severity.text());
    let lines = cheat_lines(cheats);
    let body = join_lines(lines);
    let tail = report_tail(consequence, error_message);
    let r = report_text(error_message, protects, severity, cheats, consequence);
    assert forall|i: int| 0 <= i < cheats.len() implies contains_at(
        r,
        cheat_line((i + 1) as nat, #[trigger] cheats[i]),
        head.len() + line_offset(lines, i),
    ) by {
        lemma_join_contains(lines, i);
        let k = line_offset(lines, i);
        let n = lines[i].len();
        assert(r.subrange(head.len() + k, head.len() + k + n) =~= body.subrange(k, k + n));
    }
    assert forall|i: int, j: int| 0 <= i < j < cheats.len() implies #[trigger] line_offset(
        lines,
        i,
    ) < #[trigger] line_offset(lines, j) by {
        lemma_offsets_increase(lines, i, j);
    }
}

/// A report depends on nothing but its five fields: rendering the same
/// fields twice gives the same text.
pub proof fn lemma_format_deterministic(
    error_message: Seq<char>,
    protects: Seq<char>,
    severity: Severity,
    cheats: Seq<Seq<char>>,
    consequence: Seq<char>,
    error_message2: Seq<char>,
    protects2: Seq<char>,
    severity2: Severity,
    cheats2: Seq<Seq<char>>,
    consequence2: Seq<char>,
)
    requires
        error_message == error_message2,
        protects == protects2,
        severity == severity2,
        cheats == cheats2,
        consequence == consequence2,
    ensures
        report_text(error_message, protects, severity, cheats, consequence) == report_text(
            error_message2,
            protects2,
            severity2,
            cheats2,
            consequence2,
        ),
{
}

pub(crate) fn append_border(out: &mut String, n: usize)
    ensures
        final(out)@ == old(out)@ + border(n as nat),
{
    let mut i: usize = 0;
    while i < n
        invariant
            i <= n,
            out@ == old(out)@ + border(i as nat),
        decreases n - i,
    {
        proof {
            reveal_strlit("=");
        }
        out.append("=");
        i = i + 1;
        assert(out@ =~= old(out)@ + border(i as nat));
    }
}

pub(crate) fn append_cheat_line(out: &mut String, k: usize, c: &str)
    ensures
        final(out)@ == old(out)@ + cheat_line(k as nat, c@),
{
    proof {
        reveal_strlit("  ");
        reveal_strlit(". ");
    }
    out.append("  ");
    append_decimal(out, k);
    out.append(". ");
    out.append(c);
    assert(final(out)@ =~= old(out)@ + cheat_line(k as nat, c@));
}

/// Appends the numbered cheat list, one entry per line.
fn append_cheat_lines(out: &mut String, cheats: &[&str])
    ensures
        final(out)@ == old(out)@ + join_lines(cheat_lines(cheat_texts(cheats@))),
{
    let ghost lines = cheat_lines(cheat_texts(cheats@));
    let mut i: usize = 0;
    while i < cheats.len()
        invariant
            i <= cheats@.len(),
            lines == cheat_lines(cheat_texts(cheats@)),
            out@ == old(out)@ + join_lines(lines.take(i as int)),
        decreases cheats@.len() - i,
    {
        proof {
            reveal_strlit("\n");
            lemma_join_step(lines, i as int);
        }
        if i > 0 {
            out.append("\n");
        }
        append_cheat_line(out, i + 1, cheats[i]);
        proof {
            if i == 0 {
                assert(lines.take(0) =~= Seq::<Seq<char>>::empty());
            }
        }
        i = i + 1;
        assert(out@ =~= old(out)@ + join_lines(lines.take(i as int)));
    }
    assert(lines.take(cheats@.len() as int) =~= lines);
}

/// Renders the report of a cheat-guarded failure: a bordered header, the
/// protected property and severity, the cheat vectors numbered from 1 in
/// the order given, the consequence, the error message and a closing border.
pub fn format_report(
    error_message: &str,
    protects: &str,
    severity: Severity,
    cheats: &[&str],
    consequence: &str,
) -> (r: String)
    requires
        cheats@.len() > 0,
    ensures
        r@ == report_text(error_message@, protects@, severity, cheat_texts(cheats@), consequence@),
{
    let mut out = String::new();
    out.append("\n");
    append_border(&mut out, 70);
    out.append("\n=== CHEAT-GUARDED FAILURE ===\n");
    append_border(&mut out, 70);
    out.append("\n\nPROTECTS: ");
    out.append(protects);
    out.append("\nSEVERITY: ");
    out.append(severity.label());
    out.append("\n\nCHEAT VECTORS:\n");
    append_cheat_lines(&mut out, cheats);
    out.append("\n\nUSER CONSEQUENCE:\n");
    out.append(consequence);
    out.append("\n\nERROR:\n");
    out.append(error_message);
    out.append("\n");
    append_border(&mut out, 70);
    out.append("\n");
    assert(out@ =~= report_text(
        error_message@,
        protects@,
        severity,
        cheat_texts(cheats@),
        consequence@,
    ));
    out
}

} // verus!
