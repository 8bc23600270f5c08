//! Producing the report of matching lines, and the outcome of a search.
use vstd::prelude::*;
use crate::config::{Config, ConfigView, UsageError};
use crate::matcher::{line_matches, matches_line};

verus! {

/// The decimal digit for `d`, for `d` below ten.
pub open spec fn digit_char(d: nat) -> char {
    if d == 0 {
        '0'
    } else if d == 1 {
        '1'
    } else if d == 2 {
        '2'
    } else if d == 3 {
        '3'
    } else if d == 4 {
        '4'
    } else if d == 5 {
        '5'
    } else if d == 6 {
        '6'
    } else if d == 7 {
        '7'
    } else if d == 8 {
        '8'
    } else {
        '9'
    }
}

/// The decimal notation of `n`, without leading zeros.
pub open spec fn decimal(n: nat) -> Seq<char>
    decreases n,
{
    if n < 10 {
        seq![digit_char(n)]
    } else {
        decimal(n / 10).push(digit_char(n % 10))
    }
}

/// The report of line number `n` holding `line`: `Line <n>: <line>`.
pub open spec fn report_text(n: nat, line: Seq<char>) -> Seq<char> {
    seq!['L', 'i', 'n', 'e', ' '] + decimal(n) + seq![':', ' '] + line
}

/// The reports for a sequence of lines, numbered from one, in order. A line
/// that could not be read as text (`None`) is reported nowhere but keeps its
/// number.
pub open spec fn scan_report(c: ConfigView, lines: Seq<Option<Seq<char>>>) -> Seq<Seq<char>>
    decreases lines.len(),
{
    if lines.len() == 0 {
        seq![]
    } else {
        let earlier = scan_report(c, lines.drop_last());
        let last = lines.last();
        if last is Some && matches_line(last->Some_0, c.query, c.ignore_case) {
            earlier.push(report_text(lines.len() as nat, last->Some_0))
        } else {
            earlier
        }
    }
}

/// The one-character text of a decimal digit.
fn digit_text(d: usize) -> (r: &'static str)
    requires
        d < 10,
    ensures
        r@ == seq![digit_char(d as nat)],
{
    if d == 0 {
        proof { reveal_strlit("0"); }
        "0"
    } else if d == 1 {
        proof { reveal_strlit("1"); }
        "1"
    } else if d == 2 {
        proof { reveal_strlit("2"); }
        "2"
    } else if d == 3 {
        proof { reveal_strlit("3"); }
        "3"
    } else if d == 4 {
        proof { reveal_strlit("4"); }
        "4"
    } else if d == 5 {
        proof { reveal_strlit("5"); }
        "5"
    } else if d == 6 {
        proof { reveal_strlit("6"); }
        "6"
    } else if d == 7 {
        proof { reveal_strlit("7"); }
        "7"
    } else if d == 8 {
        proof { reveal_strlit("8"); }
        "8"
    } else {
        proof { reveal_strlit("9"); }
        "9"
    }
}

/// Appends the decimal notation of `n` to `out`.
fn append_decimal(out: &mut String, n: usize)
    ensures
        final(out)@ == old(out)@ + decimal(n as nat),
    decreases n,
{
    if n >= 10 {
        append_decimal(out, n / 10);
    }
    out.append(digit_text(n % 10));
    assert(out@ =~= old(out)@ + decimal(n as nat));
}

/// Formats the report of line number `number` holding `line`.
pub fn format_report(number: usize, line: &str) -> (r: String)
    ensures
        r@ == report_text(number as nat, line@),
{
    let mut out: String = "Line ".to_owned();
    append_decimal(&mut out, number);
    out.append(": ");
    out.append(line);
    proof {
        reveal_strlit("Line ");
        reveal_strlit(": ");
        assert(out@ =~= report_text(number as nat, line@));
    }
    out
}

/// The report for line number `number` holding `line`, if the line matches
/// the configured query.
pub fn report_line(config: &Config, number: usize, line: &str) -> (r: Option<String>)
    ensures
        matches_line(line@, config.query@, config.ignore_case) ==> r is Some && r->Some_0@
            == report_text(number as nat, line@),
        !matches_line(line@, config.query@, config.ignore_case) ==> r is None,
{
    if line_matches(line, config.query.as_str(), config.ignore_case) {
        Some(format_report(number, line))
    } else {
        None
    }
}

/// Scans the lines of a file in order and returns the reports of those that
/// match, numbered from one. `None` stands for a line that could not be read
/// as text: it is skipped but still counted.
pub fn scan(config: &Config, lines: &Vec<Option<String>>) -> (r: Vec<String>)
    ensures
        r.deep_view() == scan_report(config@, lines.deep_view()),
{
    let ghost all = lines.deep_view();
    let mut out: Vec<String> = Vec::new();
    let n: usize = lines.len();
    let mut i: usize = 0;
    while i < n
        invariant
            n == lines@.len(),
            all == lines.deep_view(),
            i <= n,
            out.deep_view() == scan_report(config@, all.subrange(0, i as int)),
        decreases n - i,
    {
        let ghost before = out.deep_view();
        assert(all.subrange(0, i + 1).drop_last() =~= all.subrange(0, i as int));
        match &lines[i] {
            Some(text) => {
                match report_line(config, i + 1, text.as_str()) {
                    Some(rep) => {
                        out.push(rep);
                        assert(out.deep_view() =~= before.push(rep@));
                    },
                    None => {},
                }
            },
            None => {},
        }
        i = i + 1;
    }
    assert(all.subrange(0, n as int) =~= all);
    out
}

/// Why a search produced no report.
#[derive(Debug, Clone)]
pub enum SearchError {
    /// The arguments do not describe a search.
    Usage(UsageError),
    /// The file could not be opened; `reason` is what the system said.
    FileAccess { path: String, reason: String },
}

impl SearchError {
    /// The text shown to the user for this error.
    pub fn message(&self) -> (r: String)
        ensures
            match self {
                SearchError::Usage(e) => r@ == e.message_text(),
                SearchError::FileAccess { path, reason } => r@ == path@ + seq![':', ' '] + reason@,
            },
    {
        match self {
            SearchError::Usage(e) => e.message().to_owned(),
            SearchError::FileAccess { path, reason } => {
                let mut out = path.clone();
                out.append(": ");
                out.append(reason.as_str());
                proof {
                    reveal_strlit(": ");
                }
                out
            },
        }
    }
}

/// The outcome of a search over a file whose reading gave `contents`: the
/// lines, or the reason the file could not be opened.
pub fn search(config: &Config, contents: Result<Vec<Option<String>>, String>) -> (r: Result<
    Vec<String>,
    SearchError,
>)
    ensures
        match contents {
            Ok(lines) => r is Ok && r->Ok_0.deep_view() == scan_report(config@, lines.deep_view()),
            Err(reason) => r == Err::<Vec<String>, SearchError>(
                SearchError::FileAccess { path: config.file_path, reason },
            ),
        },
{
    match contents {
        Ok(lines) => Ok(scan(config, &lines)),
        Err(reason) => Err(SearchError::FileAccess { path: config.file_path.clone(), reason }),
    }
}

/// The process exit status for an outcome: zero on success, one on error.
pub open spec fn exit_status<T>(outcome: Result<T, SearchError>) -> int {
    if outcome is Ok {
        0
    } else {
        1
    }
}

/// The process exit status for an outcome.
pub fn exit_code<T>(outcome: &Result<T, SearchError>) -> (r: i32)
    ensures
        r == exit_status(*outcome),
{
    match outcome {
        Ok(_) => 0,
        Err(_) => 1,
    }
}

/// Scanning the same lines twice with the same configuration gives the same
/// reports both times.
pub proof fn scan_is_repeatable(
    c: ConfigView,
    first: Seq<Option<Seq<char>>>,
    second: Seq<Option<Seq<char>>>,
)
    requires
        first == second,
    ensures
        scan_report(c, first) == scan_report(c, second),
{
}

} // verus!
