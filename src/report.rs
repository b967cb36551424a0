use crate::detect::{detect, detected_among, Entry};
use crate::language::{name_of, registry, Language};
use crate::runner::{lemma_same_codes_same_verdict, EcosystemResult, EcosystemRun, RunState};
use vstd::prelude::*;

verus! {

/// Why a whole run did not succeed.
#[derive(Clone, Copy, Debug, PartialEq, Eq, Structural)]
pub enum RunError {
    /// No marker of any ecosystem was found; nothing ran.
    NoEcosystemDetected,
    /// A log file or directory could not be created, or no shell could be
    /// started; the run stopped there.
    InfrastructureFailure,
    /// Every hook ran, and at least one ecosystem failed.
    SomeChecksFailed,
}

impl RunError {
    /// The message shown for this error.
    pub fn message(&self) -> (r: &'static str)
        ensures
            r@ == match self {
                RunError::NoEcosystemDetected => "No language detected"@,
                RunError::InfrastructureFailure => "Failed to run hook"@,
                RunError::SomeChecksFailed => "Some checks failed."@,
            },
    {
        match self {
            RunError::NoEcosystemDetected => "No language detected",
            RunError::InfrastructureFailure => "Failed to run hook",
            RunError::SomeChecksFailed => "Some checks failed.",
        }
    }
}

/// Whether every ecosystem of a report passed (true of an empty report).
pub open spec fn every_ecosystem_passed(results: Seq<EcosystemResult>) -> bool {
    forall|i: int| 0 <= i < results.len() ==> (#[trigger] results[i]).passed
}

/// The status shown for a pass or a failure.
pub open spec fn status_of(passed: bool) -> Seq<char> {
    if passed {
        "Success"@
    } else {
        "Failure"@
    }
}

/// The character of the decimal digit `d`.
pub open spec fn digit_char(d: nat) -> char {
    if d == 0 {
        '0'
    } else if d == 1 {
        '1'
    } else if d == 2 {
        '2'
    } else if d == 3 {
        '3'
    } else if d == 4 {
        '4'
    } else if d == 5 {
        '5'
    } else if d == 6 {
        '6'
    } else if d == 7 {
        '7'
    } else if d == 8 {
        '8'
    } else {
        '9'
    }
}

/// The decimal digits of `n`, most significant first, without leading zeros.
pub open spec fn decimal(n: nat) -> Seq<char>
    decreases n,
{
    if n < 10 {
        seq![digit_char(n)]
    } else {
        decimal(n / 10).push(digit_char(n % 10))
    }
}

/// A duration as shown in the report: its seconds in decimal, then `s`.
pub open spec fn seconds_of(n: u64) -> Seq<char> {
    decimal(n as nat) + "s"@
}

/// The header row of the report.
pub open spec fn header_row() -> Seq<Seq<char>> {
    seq!["Language"@, "Status"@, "Take"@]
}

/// The row of one ecosystem: its name, its status and its elapsed time.
pub open spec fn result_row(r: EcosystemResult) -> Seq<Seq<char>> {
    seq![name_of(r.language), status_of(r.passed), seconds_of(r.elapsed)]
}

/// The closing row, over the whole run.
pub open spec fn all_row(results: Seq<EcosystemResult>, total_elapsed: u64) -> Seq<Seq<char>> {
    seq!["All"@, status_of(every_ecosystem_passed(results)), seconds_of(total_elapsed)]
}

/// The rows of the report: the header, one row per ecosystem in the order of
/// `results`, then the `All` row.
pub open spec fn rows_of(results: Seq<EcosystemResult>, total_elapsed: u64) -> Seq<
    Seq<Seq<char>>,
> {
    seq![header_row()] + results.map_values(|r: EcosystemResult| result_row(r)) + seq![
        all_row(results, total_elapsed),
    ]
}

/// The text of a table with the cells `rows`, drawn with rounded borders by
/// the `tabled` crate.
pub uninterp spec fn rounded_table(rows: Seq<Seq<Seq<char>>>) -> Seq<char>;

/// Relies on `tabled::builder::Builder::from`, `Builder::build`, `Table::with`
/// with `Style::modern_rounded` and `Table::to_string`: the drawn table depends
/// on the cells alone.
#[verifier::external_body]
fn draw_table(rows: Vec<Vec<String>>) -> (r: String)
    ensures
        r@ == rounded_table(rows.deep_view()),
{
    let mut table = tabled::builder::Builder::from(rows).build();
    table.with(tabled::settings::Style::modern_rounded());
    table.to_string()
}

/// Whether every ecosystem of `results` passed.
pub fn overall_passed(results: &Vec<EcosystemResult>) -> (r: bool)
    ensures
        r == every_ecosystem_passed(results@),
{
    let mut i: usize = 0;
    while i < results.len()
        invariant
            i <= results@.len(),
            forall|k: int| 0 <= k < i ==> (#[trigger] results@[k]).passed,
        decreases results@.len() - i,
    {
        if !results[i].passed {
            return false;
        }
        i = i + 1;
    }
    true
}

/// The status shown for a pass or a failure.
pub fn status_label(passed: bool) -> (r: &'static str)
    ensures
        r@ == status_of(passed),
{
    if passed {
        "Success"
    } else {
        "Failure"
    }
}

/// The text of the decimal digit `d`.
fn digit_text(d: u64) -> (r: &'static str)
    requires
        d < 10,
    ensures
        r@ == seq![digit_char(d as nat)],
{
    proof {
        reveal_strlit("0");
        reveal_strlit("1");
        reveal_strlit("2");
        reveal_strlit("3");
        reveal_strlit("4");
        reveal_strlit("5");
        reveal_strlit("6");
        reveal_strlit("7");
        reveal_strlit("8");
        reveal_strlit("9");
    }
    if d == 0 {
        "0"
    } else if d == 1 {
        "1"
    } else if d == 2 {
        "2"
    } else if d == 3 {
        "3"
    } else if d == 4 {
        "4"
    } else if d == 5 {
        "5"
    } else if d == 6 {
        "6"
    } else if d == 7 {
        "7"
    } else if d == 8 {
        "8"
    } else {
        "9"
    }
}

/// The decimal digits of `n`.
pub fn decimal_text(n: u64) -> (r: String)
    ensures
        r@ == decimal(n as nat),
    decreases n,
{
    if n < 10 {
        String::from_str(digit_text(n))
    } else {
        let mut s = decimal_text(n / 10);
        s.append(digit_text(n % 10));
        s
    }
}

/// A duration as shown in the report, such as `12s`.
pub fn seconds_text(n: u64) -> (r: String)
    ensures
        r@ == seconds_of(n),
{
    let mut s = decimal_text(n);
    s.append("s");
    s
}

/// A row of three cells.
fn row3(a: &str, b: &str, c: String) -> (r: Vec<String>)
    ensures
        r.deep_view() == seq![a@, b@, c@],
{
    let mut row: Vec<String> = Vec::new();
    row.push(String::from_str(a));
    row.push(String::from_str(b));
    row.push(c);
    proof {
        assert(row.deep_view() =~= seq![a@, b@, c@]);
    }
    row
}

/// The rows of the report on `results`, the whole run having taken
/// `total_elapsed` seconds.
pub fn report_rows(results: &Vec<EcosystemResult>, total_elapsed: u64) -> (r: Vec<Vec<String>>)
    ensures
        r.deep_view() == rows_of(results@, total_elapsed),
{
    let mut rows: Vec<Vec<String>> = Vec::new();
    rows.push(row3("Language", "Status", String::from_str("Take")));
    let ghost head = seq![header_row()];
    proof {
        assert(rows.deep_view() =~= head);
    }
    let mut i: usize = 0;
    while i < results.len()
        invariant
            i <= results@.len(),
            head == seq![header_row()],
            rows.deep_view() == head + results@.subrange(0, i as int).map_values(
                |r: EcosystemResult| result_row(r),
            ),
        decreases results@.len() - i,
    {
        let r = results[i];
        let row = row3(r.language.name(), status_label(r.passed), seconds_text(r.elapsed));
        let ghost before = rows.deep_view();
        rows.push(row);
        proof {
            assert(rows.deep_view() =~= before.push(result_row(r)));
            assert(results@.subrange(0, i + 1).map_values(|r: EcosystemResult| result_row(r))
                =~= results@.subrange(0, i as int).map_values(|r: EcosystemResult| result_row(r)).push(
                result_row(r),
            ));
        }
        i = i + 1;
    }
    let passed = overall_passed(results);
    let ghost before = rows.deep_view();
    rows.push(row3("All", status_label(passed), seconds_text(total_elapsed)));
    proof {
        assert(results@.subrange(0, i as int) == results@);
        assert(rows.deep_view() =~= before.push(all_row(results@, total_elapsed)));
        assert(rows_of(results@, total_elapsed) =~= before + seq![all_row(results@, total_elapsed)]);
    }
    rows
}

/// The report on `results` drawn as a table.
pub fn render_report(results: &Vec<EcosystemResult>, total_elapsed: u64) -> (r: String)
    ensures
        r@ == rounded_table(rows_of(results@, total_elapsed)),
{
    draw_table(report_rows(results, total_elapsed))
}

/// The outcome of the whole run once the report is printed: success when
/// every ecosystem passed, `SomeChecksFailed` otherwise.
pub fn conclude(results: &Vec<EcosystemResult>) -> (r: Result<i32, RunError>)
    ensures
        every_ecosystem_passed(results@) ==> r == Ok::<i32, RunError>(0),
        !every_ecosystem_passed(results@) ==> r == Err::<i32, RunError>(
            RunError::SomeChecksFailed,
        ),
{
    if overall_passed(results) {
        Ok(0)
    } else {
        Err(RunError::SomeChecksFailed)
    }
}

/// The ecosystems to verify, in registry order, or `NoEcosystemDetected` when
/// no marker is present among `entries`.
pub fn plan(entries: &Vec<Entry>) -> (r: Result<Vec<Language>, RunError>)
    ensures
        detected_among(registry(), entries@).len() == 0 ==> r == Err::<Vec<Language>, RunError>(
            RunError::NoEcosystemDetected,
        ),
        detected_among(registry(), entries@).len() > 0 ==> r is Ok && r->Ok_0@ == detected_among(
            registry(),
            entries@,
        ),
{
    let detected = detect(entries);
    if detected.len() == 0 {
        Err(RunError::NoEcosystemDetected)
    } else {
        Ok(detected)
    }
}

/// Adds the result of a completed run to the report `all`, given the seconds
/// the run took.
pub fn run_hook(run: &EcosystemRun, all: &mut Vec<EcosystemResult>, elapsed: u64)
    requires
        run@.done(),
    ensures
        final(all)@ == old(all)@.push(run@.result(elapsed)),
{
    all.push(run.finish(elapsed));
}

/// Two runs of the same hooks that get back the same exit codes give the same
/// rows in the report, status labels included, when they took as long; the
/// times are the only cells that may differ otherwise.
pub proof fn lemma_same_codes_same_rows(
    s: RunState,
    t: RunState,
    codes: Seq<Option<i32>>,
    elapsed_s: u64,
    elapsed_t: u64,
    total_s: u64,
    total_t: u64,
)
    requires
        s.fresh(),
        t.fresh(),
        s.language == t.language,
        s.hooks == t.hooks,
    ensures
        ({
            let a = rows_of(seq![s.replay(codes).result(elapsed_s)], total_s);
            let b = rows_of(seq![t.replay(codes).result(elapsed_t)], total_t);
            &&& a.len() == b.len() == 3
            &&& a[0] == b[0]
            &&& forall|i: int| 1 <= i < 3 ==> (#[trigger] a[i])[0] == b[i][0] && a[i][1] == b[i][1]
            &&& elapsed_s == elapsed_t && total_s == total_t ==> a == b
        }),
{
    lemma_same_codes_same_verdict(s, t, codes, elapsed_s);
    let rs = seq![s.replay(codes).result(elapsed_s)];
    let rt = seq![t.replay(codes).result(elapsed_t)];
    assert(rs[0].passed == rt[0].passed);
    assert(every_ecosystem_passed(rs) == every_ecosystem_passed(rt)) by {
        if every_ecosystem_passed(rs) {
            assert(rs[0].passed);
        }
        if every_ecosystem_passed(rt) {
            assert(rt[0].passed);
        }
    }
    let a = rows_of(rs, total_s);
    let b = rows_of(rt, total_t);
    assert(a[1] == result_row(rs[0]));
    assert(b[1] == result_row(rt[0]));
    assert(a[2] == all_row(rs, total_s));
    assert(b[2] == all_row(rt, total_t));
}

} // verus!
