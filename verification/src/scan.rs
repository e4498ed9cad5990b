//! The line scanner and output formatter: classifies each line of a file as
//! qualifying or not, and renders the qualifying lines, the count, or the
//! filename, with optional highlighting.

use vstd::prelude::*;
use vstd::string::StrSliceExecFns;
use vstd::string::StringExecFns;
use crate::config::OutputMode;
use crate::pattern::{Matcher, re_match, re_spans};

verus! {

/// A line qualifies when the invert flag differs from the match answer: the
/// plain search keeps the matching lines, the inverted search the others.
pub open spec fn line_qualifies(
    line: Seq<char>,
    pattern: Seq<char>,
    ignore_case: bool,
    invert: bool,
) -> bool {
    invert != re_match(pattern, ignore_case, line)
}

/// How many of the first `k` lines qualify.
pub open spec fn qualifying_count_upto(
    lines: Seq<Seq<char>>,
    pattern: Seq<char>,
    ignore_case: bool,
    invert: bool,
    k: int,
) -> int
    decreases k,
{
    if k <= 0 {
        0
    } else {
        qualifying_count_upto(lines, pattern, ignore_case, invert, k - 1) + (
        if line_qualifies(lines[k - 1], pattern, ignore_case, invert) {
            1int
        } else {
            0int
        })
    }
}

/// How many lines of the file qualify.
pub open spec fn qualifying_count(
    lines: Seq<Seq<char>>,
    pattern: Seq<char>,
    ignore_case: bool,
    invert: bool,
) -> int {
    qualifying_count_upto(lines, pattern, ignore_case, invert, lines.len() as int)
}

/// The qualifying count of a prefix lies between zero and the prefix length.
pub proof fn lemma_qualifying_count_upto_bounds(
    lines: Seq<Seq<char>>,
    pattern: Seq<char>,
    ignore_case: bool,
    invert: bool,
    k: int,
)
    requires
        k >= 0,
    ensures
        0 <= qualifying_count_upto(lines, pattern, ignore_case, invert, k) <= k,
    decreases k,
{
    if k > 0 {
        lemma_qualifying_count_upto_bounds(lines, pattern, ignore_case, invert, k - 1);
    }
}

/// For every file and pattern, inversion partitions the lines: a line
/// qualifies under exactly one of the two settings of the invert flag, so the
/// two qualifying counts sum to the number of lines.  In particular, when the
/// pattern matches every line the inverted count is zero.
pub proof fn lemma_invert_counts_partition(
    lines: Seq<Seq<char>>,
    pattern: Seq<char>,
    ignore_case: bool,
)
    ensures
        qualifying_count(lines, pattern, ignore_case, false) + qualifying_count(
            lines,
            pattern,
            ignore_case,
            true,
        ) == lines.len(),
{
    lemma_invert_counts_partition_upto(lines, pattern, ignore_case, lines.len() as int);
}

proof fn lemma_invert_counts_partition_upto(
    lines: Seq<Seq<char>>,
    pattern: Seq<char>,
    ignore_case: bool,
    k: int,
)
    requires
        k >= 0,
    ensures
        qualifying_count_upto(lines, pattern, ignore_case, false, k) + qualifying_count_upto(
            lines,
            pattern,
            ignore_case,
            true,
            k,
        ) == k,
    decreases k,
{
    if k > 0 {
        lemma_invert_counts_partition_upto(lines, pattern, ignore_case, k - 1);
    }
}

/// The escape sequence that starts a bold-red highlighted span.
pub open spec fn color_prefix() -> Seq<char> {
    "\u{1b}[1;31m"@
}

/// The escape sequence that ends a highlighted span.
pub open spec fn color_suffix() -> Seq<char> {
    "\u{1b}[0m"@
}

/// Well-formed match spans of a line of length `len`: each span lies within
/// the line, and successive spans do not overlap.
pub open spec fn spans_wf(spans: Seq<(usize, usize)>, len: nat) -> bool {
    &&& forall|i: int| 0 <= i < spans.len() ==> (#[trigger] spans[i]).0 <= spans[i].1 <= len
    &&& forall|i: int| 0 <= i < spans.len() - 1 ==> (#[trigger] spans[i]).1 <= spans[i + 1].0
}

/// The rendering of the line from position `cursor` on, with the spans from
/// index `k` on highlighted: the text up to the next span, the span wrapped in
/// the colour escapes, then the rest.
pub open spec fn highlighted_from(
    line: Seq<char>,
    spans: Seq<(usize, usize)>,
    k: int,
    cursor: int,
) -> Seq<char>
    decreases spans.len() - k,
{
    if k < 0 || k >= spans.len() {
        line.subrange(cursor, line.len() as int)
    } else {
        line.subrange(cursor, spans[k].0 as int) + color_prefix() + line.subrange(
            spans[k].0 as int,
            spans[k].1 as int,
        ) + color_suffix() + highlighted_from(line, spans, k + 1, spans[k].1 as int)
    }
}

/// The line with every given span wrapped in the colour escapes.
pub open spec fn highlighted(line: Seq<char>, spans: Seq<(usize, usize)>) -> Seq<char> {
    highlighted_from(line, spans, 0, 0)
}

/// What one line looks like in the full listing: with colour on, every match
/// span (as the engine finds them) is wrapped in bold-red escapes; with colour
/// off, the line is unchanged.
pub open spec fn rendered_line(
    line: Seq<char>,
    pattern: Seq<char>,
    ignore_case: bool,
    colorize: bool,
) -> Seq<char> {
    if colorize {
        highlighted(line, re_spans(pattern, ignore_case, line))
    } else {
        line
    }
}

/// With colour off a line is rendered unchanged: rendering introduces no
/// escape sequences.
pub proof fn lemma_no_color_renders_plain(line: Seq<char>, pattern: Seq<char>, ignore_case: bool)
    ensures
        rendered_line(line, pattern, ignore_case, false) == line,
{
}

/// A line with no match spans is rendered unchanged even with colour on; in
/// particular, under an inverted search a qualifying line does not match, has
/// no spans, and highlighting it is a no-op.
pub proof fn lemma_no_spans_renders_plain(line: Seq<char>)
    ensures
        highlighted(line, Seq::<(usize, usize)>::empty()) == line,
{
    assert(highlighted(line, Seq::<(usize, usize)>::empty()) =~= line);
}

/// With colour on, a line with a match span visibly changes: the rendering
/// carries the escape character at the position where the first span starts.
pub proof fn lemma_color_introduces_escape(line: Seq<char>, spans: Seq<(usize, usize)>)
    requires
        spans.len() > 0,
        spans_wf(spans, line.len()),
    ensures
        highlighted(line, spans)[spans[0].0 as int] == '\u{1b}',
{
    reveal_strlit("\u{1b}[1;31m");
    assert(spans[0].0 <= spans[0].1 <= line.len());
    assert(line.subrange(0, spans[0].0 as int).len() == spans[0].0 as int);
    assert(highlighted(line, spans)[spans[0].0 as int] == color_prefix()[0]);
}

/// Relies on `ansi_term`: `Colour::Red.bold().paint(s)` renders as the
/// bold-red escape prefix, then the text, then the reset suffix.
#[verifier::external_body]
fn paint_red_bold(s: &str) -> (r: String)
    ensures
        r@ == color_prefix() + s@ + color_suffix(),
{
    ansi_term::Colour::Red.bold().paint(s).to_string()
}

/// Renders one line of the full listing: when `colorize` is set, every match
/// span found by the matcher over this line is wrapped in bold-red terminal
/// escapes; otherwise the line is returned unchanged.  Under an inverted
/// search a qualifying line has no match spans, so highlighting leaves it
/// untouched.
pub fn highlight_line(line: &String, matcher: &Matcher, colorize: bool) -> (r: String)
    ensures
        r@ == rendered_line(line@, matcher.pattern_view(), matcher.case_insensitive(), colorize),
{
    if !colorize {
        return line.clone();
    }
    let spans = matcher.find_spans(line);
    let n = line.as_str().unicode_len();
    let mut out = String::new();
    let mut cursor: usize = 0;
    let mut i: usize = 0;
    proof {
        assert(out@ + highlighted_from(line@, spans@, 0, 0) =~= highlighted(line@, spans@));
    }
    while i < spans.len()
        invariant
            spans@ == re_spans(matcher.pattern_view(), matcher.case_insensitive(), line@),
            spans_wf(spans@, line@.len()),
            n == line@.len(),
            i <= spans@.len(),
            cursor == if i == 0 {
                0int
            } else {
                spans@[i - 1].1 as int
            },
            i < spans@.len() ==> cursor <= spans@[i as int].0,
            cursor <= n,
            out@ + highlighted_from(line@, spans@, i as int, cursor as int) == highlighted(
                line@,
                spans@,
            ),
        decreases spans@.len() - i,
    {
        let (from, to) = spans[i];
        let ghost prev_out = out@;
        let ghost prev_cursor = cursor as int;
        let before = line.as_str().substring_char(cursor, from);
        out.append(before);
        let matched = line.as_str().substring_char(from, to);
        let painted = paint_red_bold(matched);
        out.append(painted.as_str());
        proof {
            assert(out@ + highlighted_from(line@, spans@, i + 1, spans@[i as int].1 as int)
                =~= prev_out + highlighted_from(line@, spans@, i as int, prev_cursor));
        }
        cursor = to;
        i += 1;
    }
    let tail = line.as_str().substring_char(cursor, n);
    out.append(tail);
    proof {
        assert(highlighted_from(line@, spans@, spans@.len() as int, cursor as int) == line
            @.subrange(cursor as int, line@.len() as int));
    }
    out
}

/// Counts the qualifying lines of a file, given as the file's lines in order.
/// This is the scanner's count mode; the list mode asks only whether the
/// answer is positive.
pub fn count_matches(lines: &Vec<String>, matcher: &Matcher, invert: bool) -> (count: usize)
    ensures
        count == qualifying_count(
            lines.deep_view(),
            matcher.pattern_view(),
            matcher.case_insensitive(),
            invert,
        ),
{
    let mut count: usize = 0;
    let mut i: usize = 0;
    while i < lines.len()
        invariant
            i <= lines@.len(),
            count <= i,
            count == qualifying_count_upto(
                lines.deep_view(),
                matcher.pattern_view(),
                matcher.case_insensitive(),
                invert,
                i as int,
            ),
        decreases lines@.len() - i,
    {
        let is_match = matcher.is_match(&lines[i]);
        if invert != is_match {
            count += 1;
        }
        i += 1;
    }
    count
}

/// The decimal digit characters.
pub open spec fn digit_char(d: int) -> char {
    if d == 0 {
        '0'
    } else if d == 1 {
        '1'
    } else if d == 2 {
        '2'
    } else if d == 3 {
        '3'
    } else if d == 4 {
        '4'
    } else if d == 5 {
        '5'
    } else if d == 6 {
        '6'
    } else if d == 7 {
        '7'
    } else if d == 8 {
        '8'
    } else {
        '9'
    }
}

/// The decimal rendering of a non-negative number, most significant digit
/// first, without leading zeros (a single zero for zero itself).
pub open spec fn dec_digits(n: int) -> Seq<char>
    decreases n,
{
    if n < 10 {
        seq![digit_char(n)]
    } else {
        dec_digits(n / 10).push(digit_char(n % 10))
    }
}

fn digit_char_exec(d: usize) -> (c: char)
    requires
        d < 10,
    ensures
        c == digit_char(d as int),
{
    if d == 0 {
        '0'
    } else if d == 1 {
        '1'
    } else if d == 2 {
        '2'
    } else if d == 3 {
        '3'
    } else if d == 4 {
        '4'
    } else if d == 5 {
        '5'
    } else if d == 6 {
        '6'
    } else if d == 7 {
        '7'
    } else if d == 8 {
        '8'
    } else {
        '9'
    }
}

/// Relies on `String::push`: it appends the one character.
#[verifier::external_body]
fn push_char(s: &mut String, c: char)
    ensures
        final(s)@ == old(s)@.push(c),
{
    s.push(c);
}

/// Renders a number in decimal, as it appears in line-number and count
/// records.
pub fn usize_to_string(n: usize) -> (r: String)
    ensures
        r@ == dec_digits(n as int),
    decreases n,
{
    if n < 10 {
        let mut s = String::new();
        push_char(&mut s, digit_char_exec(n));
        proof {
            assert(s@ =~= dec_digits(n as int));
        }
        s
    } else {
        let mut s = usize_to_string(n / 10);
        push_char(&mut s, digit_char_exec(n % 10));
        s
    }
}

/// A record of the full listing: `path:line_number:rendered_text`.
pub open spec fn full_record(path: Seq<char>, line_number: int, text: Seq<char>) -> Seq<char> {
    path + ":"@ + dec_digits(line_number) + ":"@ + text
}

/// A record of the count mode: `path:count`.
pub open spec fn count_record(path: Seq<char>, count: int) -> Seq<char> {
    path + ":"@ + dec_digits(count)
}

fn make_count_record(path: &String, count: usize) -> (r: String)
    ensures
        r@ == count_record(path@, count as int),
{
    let mut r = path.clone();
    r.append(":");
    let num = usize_to_string(count);
    r.append(num.as_str());
    proof {
        assert(r@ =~= count_record(path@, count as int));
    }
    r
}

fn make_full_record(path: &String, line_number: usize, text: &String) -> (r: String)
    ensures
        r@ == full_record(path@, line_number as int, text@),
{
    let mut r = path.clone();
    r.append(":");
    let num = usize_to_string(line_number);
    r.append(num.as_str());
    r.append(":");
    r.append(text.as_str());
    proof {
        assert(r@ =~= full_record(path@, line_number as int, text@));
    }
    r
}

/// The records the full listing prints for the first `k` lines of the file:
/// one `path:line_number:rendered_text` record per qualifying line, in file
/// order, with 1-based line numbers.
pub open spec fn full_records_upto(
    path: Seq<char>,
    lines: Seq<Seq<char>>,
    pattern: Seq<char>,
    ignore_case: bool,
    invert: bool,
    colorize: bool,
    k: int,
) -> Seq<Seq<char>>
    decreases k,
{
    if k <= 0 {
        Seq::empty()
    } else {
        full_records_upto(path, lines, pattern, ignore_case, invert, colorize, k - 1) + (
        if line_qualifies(lines[k - 1], pattern, ignore_case, invert) {
            seq![full_record(path, k, rendered_line(lines[k - 1], pattern, ignore_case, colorize))]
        } else {
            Seq::<Seq<char>>::empty()
        })
    }
}

/// The records the full listing prints for the whole file.
pub open spec fn full_records(
    path: Seq<char>,
    lines: Seq<Seq<char>>,
    pattern: Seq<char>,
    ignore_case: bool,
    invert: bool,
    colorize: bool,
) -> Seq<Seq<char>> {
    full_records_upto(path, lines, pattern, ignore_case, invert, colorize, lines.len() as int)
}

/// What one file contributes to the output and to the run's outcome.
pub struct FileReport {
    /// The records to print on standard output, in order, one per line.
    pub records: Vec<String>,
    /// Whether the file had at least one qualifying line.
    pub found: bool,
}

/// The scanner's full mode: for every qualifying line of the file, in file
/// order, a `path:line_number:rendered_text` record, with 1-based line numbers
/// and optional highlighting; `found` says whether there was any.
pub fn full_matches(
    path: &String,
    lines: &Vec<String>,
    matcher: &Matcher,
    invert: bool,
    colorize: bool,
) -> (report: FileReport)
    ensures
        report.records.deep_view() == full_records(
            path@,
            lines.deep_view(),
            matcher.pattern_view(),
            matcher.case_insensitive(),
            invert,
            colorize,
        ),
        report.found == (qualifying_count(
            lines.deep_view(),
            matcher.pattern_view(),
            matcher.case_insensitive(),
            invert,
        ) > 0),
{
    let mut records: Vec<String> = Vec::new();
    let mut found = false;
    let mut i: usize = 0;
    while i < lines.len()
        invariant
            i <= lines@.len(),
            records.deep_view() == full_records_upto(
                path@,
                lines.deep_view(),
                matcher.pattern_view(),
                matcher.case_insensitive(),
                invert,
                colorize,
                i as int,
            ),
            found == (qualifying_count_upto(
                lines.deep_view(),
                matcher.pattern_view(),
                matcher.case_insensitive(),
                invert,
                i as int,
            ) > 0),
        decreases lines@.len() - i,
    {
        let ghost prev_records = records.deep_view();
        proof {
            lemma_qualifying_count_upto_bounds(
                lines.deep_view(),
                matcher.pattern_view(),
                matcher.case_insensitive(),
                invert,
                i as int,
            );
        }
        let line = &lines[i];
        let is_match = matcher.is_match(line);
        if invert != is_match {
            found = true;
            let rendered = highlight_line(line, matcher, colorize);
            let record = make_full_record(path, i + 1, &rendered);
            records.push(record);
            proof {
                assert(records.deep_view() =~= prev_records.push(record@));
            }
        }
        proof {
            assert(records.deep_view() =~= full_records_upto(
                path@,
                lines.deep_view(),
                matcher.pattern_view(),
                matcher.case_insensitive(),
                invert,
                colorize,
                i + 1,
            ));
        }
        i += 1;
    }
    FileReport { records, found }
}

/// The records the count mode prints for a file: `path:count` when some line
/// qualifies, nothing otherwise.
pub open spec fn count_records(
    path: Seq<char>,
    lines: Seq<Seq<char>>,
    pattern: Seq<char>,
    ignore_case: bool,
    invert: bool,
) -> Seq<Seq<char>> {
    if qualifying_count(lines, pattern, ignore_case, invert) > 0 {
        seq![count_record(path, qualifying_count(lines, pattern, ignore_case, invert))]
    } else {
        Seq::<Seq<char>>::empty()
    }
}

/// The records the list mode prints for a file: the path alone when some line
/// qualifies, nothing otherwise.
pub open spec fn list_records(
    path: Seq<char>,
    lines: Seq<Seq<char>>,
    pattern: Seq<char>,
    ignore_case: bool,
    invert: bool,
) -> Seq<Seq<char>> {
    if qualifying_count(lines, pattern, ignore_case, invert) > 0 {
        seq![path]
    } else {
        Seq::<Seq<char>>::empty()
    }
}

/// Everything a file contributes to standard output, by output mode.
pub open spec fn file_records(
    mode: OutputMode,
    path: Seq<char>,
    lines: Seq<Seq<char>>,
    pattern: Seq<char>,
    ignore_case: bool,
    invert: bool,
    colorize: bool,
) -> Seq<Seq<char>> {
    match mode {
        OutputMode::Full => full_records(
            path,
            lines,
            pattern,
            ignore_case,
            invert,
            colorize,
        ),
        OutputMode::Count => count_records(path, lines, pattern, ignore_case, invert),
        OutputMode::List => list_records(path, lines, pattern, ignore_case, invert),
    }
}

proof fn lemma_full_records_upto_len(
    path: Seq<char>,
    lines: Seq<Seq<char>>,
    pattern: Seq<char>,
    ignore_case: bool,
    invert: bool,
    colorize: bool,
    k: int,
)
    ensures
        full_records_upto(path, lines, pattern, ignore_case, invert, colorize, k).len()
            == qualifying_count_upto(lines, pattern, ignore_case, invert, k),
    decreases k,
{
    if k > 0 {
        lemma_full_records_upto_len(path, lines, pattern, ignore_case, invert, colorize, k - 1);
        lemma_qualifying_count_upto_bounds(lines, pattern, ignore_case, invert, k - 1);
    }
}

/// The full listing prints exactly one record per qualifying line of the file.
pub proof fn lemma_one_record_per_qualifying_line(
    path: Seq<char>,
    lines: Seq<Seq<char>>,
    pattern: Seq<char>,
    ignore_case: bool,
    invert: bool,
    colorize: bool,
)
    ensures
        full_records(path, lines, pattern, ignore_case, invert, colorize).len()
            == qualifying_count(lines, pattern, ignore_case, invert),
{
    lemma_full_records_upto_len(
        path,
        lines,
        pattern,
        ignore_case,
        invert,
        colorize,
        lines.len() as int,
    );
}

/// A file with no qualifying line prints nothing, whatever the output mode; by
/// [`scan_file`]'s contract it also reports `found == false`, contributing
/// nothing to the run's outcome.
pub proof fn lemma_no_qualifying_line_no_output(
    mode: OutputMode,
    path: Seq<char>,
    lines: Seq<Seq<char>>,
    pattern: Seq<char>,
    ignore_case: bool,
    invert: bool,
    colorize: bool,
)
    requires
        qualifying_count(lines, pattern, ignore_case, invert) == 0,
    ensures
        file_records(mode, path, lines, pattern, ignore_case, invert, colorize) == Seq::<
            Seq<char>,
        >::empty(),
{
    match mode {
        OutputMode::Full => {
            lemma_one_record_per_qualifying_line(
                path,
                lines,
                pattern,
                ignore_case,
                invert,
                colorize,
            );
            assert(file_records(mode, path, lines, pattern, ignore_case, invert, colorize)
                =~= Seq::<Seq<char>>::empty());
        },
        _ => {
        },
    }
}

/// A file contributes output exactly when it has a qualifying line, in every
/// output mode; with [`scan_file`]'s contract, exactly the files that print
/// something report `found` and so turn the run's outcome to success.
pub proof fn lemma_output_exactly_when_found(
    mode: OutputMode,
    path: Seq<char>,
    lines: Seq<Seq<char>>,
    pattern: Seq<char>,
    ignore_case: bool,
    invert: bool,
    colorize: bool,
)
    ensures
        (file_records(mode, path, lines, pattern, ignore_case, invert, colorize).len() > 0) == (
        qualifying_count(lines, pattern, ignore_case, invert) > 0),
{
    lemma_qualifying_count_upto_bounds(lines, pattern, ignore_case, invert, lines.len() as int);
    match mode {
        OutputMode::Full => {
            lemma_one_record_per_qualifying_line(
                path,
                lines,
                pattern,
                ignore_case,
                invert,
                colorize,
            );
        },
        _ => {
        },
    }
}

/// One file's whole processing: scans the lines against the matcher and
/// renders what the active output mode prints for this file.  `found` says
/// whether the file had at least one qualifying line, whatever the mode.
pub fn scan_file(
    path: &String,
    lines: &Vec<String>,
    matcher: &Matcher,
    invert: bool,
    mode: OutputMode,
    colorize: bool,
) -> (report: FileReport)
    ensures
        report.records.deep_view() == file_records(
            mode,
            path@,
            lines.deep_view(),
            matcher.pattern_view(),
            matcher.case_insensitive(),
            invert,
            colorize,
        ),
        report.found == (qualifying_count(
            lines.deep_view(),
            matcher.pattern_view(),
            matcher.case_insensitive(),
            invert,
        ) > 0),
{
    match mode {
        OutputMode::Full => full_matches(path, lines, matcher, invert, colorize),
        OutputMode::Count => {
            let count = count_matches(lines, matcher, invert);
            let mut records: Vec<String> = Vec::new();
            if count > 0 {
                let record = make_count_record(path, count);
                records.push(record);
                proof {
                    assert(records.deep_view() =~= file_records(
                        mode,
                        path@,
                        lines.deep_view(),
                        matcher.pattern_view(),
                        matcher.case_insensitive(),
                        invert,
                        colorize,
                    ));
                }
            } else {
                proof {
                    assert(records.deep_view() =~= Seq::<Seq<char>>::empty());
                }
            }
            FileReport { records, found: count > 0 }
        },
        OutputMode::List => {
            let count = count_matches(lines, matcher, invert);
            let mut records: Vec<String> = Vec::new();
            if count > 0 {
                records.push(path.clone());
                proof {
                    assert(records.deep_view() =~= seq![path@]);
                }
            } else {
                proof {
                    assert(records.deep_view() =~= Seq::<Seq<char>>::empty());
                }
            }
            FileReport { records, found: count > 0 }
        },
    }
}

} // verus!

