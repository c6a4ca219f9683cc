//! The name under which the tool reports a mod it has added, recovered from
//! what the tool printed. The tool's phrasings are tried first, as regular
//! expressions; where none fits, the first line that is neither empty nor a
//! report of progress is cleaned up and taken.

use vstd::prelude::*;
use crate::text::{
    chars_of,
    contains,
    lines,
    line_spans,
    run_length,
    scan,
    slice_text,
    span_contains,
    span_starts_with,
    span_utf8_longer_than,
    starts_with,
    trim,
    trim_span,
    utf8_len,
    CharClass,
};

verus! {

/// What capture group number `group` of `pattern` holds in the leftmost match
/// of `pattern` in `text`: `None` where `pattern` is no regular expression,
/// where it matches nowhere in `text`, where it has no such group, or where
/// the group took no part in the match.
pub uninterp spec fn captured_group(pattern: Seq<char>, text: Seq<char>, group: nat) -> Option<
    Seq<char>,
>;

/// Compiles `pattern` with `regex::Regex::new`, searches `text` with
/// `Regex::captures` and hands out the text of the group (`Captures::get`,
/// `Match::as_str`). The contract names the result after the values it was
/// made from; what a pattern matches stays with the `regex` crate.
#[verifier::external_body]
fn capture_group(pattern: &str, text: &str, group: usize) -> (found: Option<String>)
    ensures
        found.deep_view() == captured_group(pattern@, text@, group as nat),
{
    match regex::Regex::new(pattern) {
        Ok(expression) => match expression.captures(text) {
            Some(captures) => match captures.get(group) {
                Some(part) => Some(part.as_str().to_string()),
                None => None,
            },
            None => None,
        },
        Err(_) => None,
    }
}

/// The number of phrasings that are tried.
pub open spec fn pattern_count() -> int {
    8
}

/// The tool's phrasings for a mod that was added or was there already, in the
/// order in which they are tried.
pub open spec fn name_pattern(k: int) -> Seq<char> {
    if k == 0 {
        "Successfully added (.+)"@
    } else if k == 1 {
        "Added (.+) successfully"@
    } else if k == 2 {
        "✓ Added (.+)"@
    } else if k == 3 {
        "Added: (.+)"@
    } else if k == 4 {
        "The project has already been added: (.+)"@
    } else if k == 5 {
        "Already added: (.+)"@
    } else if k == 6 {
        "(.+) has already been added"@
    } else {
        "(.+) is already installed"@
    }
}

/// What the first phrasing from number `from` on that fits `text` captured.
pub open spec fn first_capture(text: Seq<char>, from: int) -> Option<Seq<char>>
    decreases pattern_count() - from,
{
    if from < 0 || from >= pattern_count() {
        None
    } else {
        match captured_group(name_pattern(from), text, 1) {
            Some(group) => Some(group),
            None => first_capture(text, from + 1),
        }
    }
}

/// `s` without `marker` at its front and the whitespace around what is left,
/// where `s` begins with `marker`.
pub open spec fn strip_marker(s: Seq<char>, marker: Seq<char>) -> Seq<char> {
    if starts_with(s, marker) {
        trim(s.skip(marker.len() as int))
    } else {
        s
    }
}

/// `s` with each of the known leading markers taken off in turn.
pub open spec fn strip_markers(s: Seq<char>) -> Seq<char> {
    let s1 = strip_marker(s, "Successfully added"@);
    let s2 = strip_marker(s1, "Added"@);
    let s3 = strip_marker(s2, "✓"@);
    let s4 = strip_marker(s3, "-"@);
    strip_marker(s4, "•"@)
}

/// `s` up to the first `stop`, trimmed, where `stop` occurs in `s`.
pub open spec fn cut_at(s: Seq<char>, stop: char) -> Seq<char> {
    let n = run_length(s, CharClass::Before(stop));
    if n < s.len() {
        trim(s.take(n as int))
    } else {
        s
    }
}

/// The name in a line: the line without leading markers and without what an
/// opening parenthesis or bracket introduces, if more than one character is
/// left of it.
pub open spec fn meaningful_part(line: Seq<char>) -> Option<Seq<char>> {
    let cleaned = cut_at(cut_at(strip_markers(line), '('), '[');
    if cleaned.len() > 1 {
        Some(cleaned)
    } else {
        None
    }
}

/// The line reports progress and names no mod.
pub open spec fn is_progress_line(line: Seq<char>) -> bool {
    starts_with(line, "Downloading"@) || starts_with(line, "Fetching"@) || contains(
        line,
        "bytes"@,
    )
}

/// The trimmed line may hold a name: it is no report of progress and takes
/// more than three bytes.
pub open spec fn is_candidate(line: Seq<char>) -> bool {
    line.len() > 0 && !is_progress_line(line) && utf8_len(line) > 3
}

/// The name that a line of the output gives, if it gives one.
pub open spec fn name_in_line(line: Seq<char>) -> Option<Seq<char>> {
    if is_candidate(trim(line)) {
        meaningful_part(trim(line))
    } else {
        None
    }
}

/// The name that the first of `ls` to give one gives.
pub open spec fn first_name_in(ls: Seq<Seq<char>>) -> Option<Seq<char>>
    decreases ls.len(),
{
    if ls.len() == 0 {
        None
    } else {
        match name_in_line(ls[0]) {
            Some(name) => Some(name),
            None => first_name_in(ls.drop_first()),
        }
    }
}

/// The name of the added mod, given what the first fitting phrasing captured
/// (`None` where no phrasing fits) and the tool's output: the capture,
/// trimmed; without one, what the lines of the output give.
pub open spec fn added_name(capture: Option<Seq<char>>, output: Seq<char>) -> Option<
    Seq<char>,
> {
    match capture {
        Some(group) => Some(trim(group)),
        None => first_name_in(lines(output)),
    }
}

fn pattern_text(k: usize) -> (pattern: &'static str)
    requires
        k < pattern_count(),
    ensures
        pattern@ == name_pattern(k as int),
{
    if k == 0 {
        "Successfully added (.+)"
    } else if k == 1 {
        "Added (.+) successfully"
    } else if k == 2 {
        "✓ Added (.+)"
    } else if k == 3 {
        "Added: (.+)"
    } else if k == 4 {
        "The project has already been added: (.+)"
    } else if k == 5 {
        "Already added: (.+)"
    } else if k == 6 {
        "(.+) has already been added"
    } else {
        "(.+) is already installed"
    }
}

fn strip_marker_span(v: &Vec<char>, from: usize, to: usize, marker: &str) -> (span: (
    usize,
    usize,
))
    requires
        from <= to <= v.len(),
    ensures
        from <= span.0 <= span.1 <= to,
        v@.subrange(span.0 as int, span.1 as int) == strip_marker(
            v@.subrange(from as int, to as int),
            marker@,
        ),
{
    let m = chars_of(marker);
    if span_starts_with(v, from, to, &m) {
        let rest = from + m.len();
        proof {
            let s = v@.subrange(from as int, to as int);
            assert(s.skip(m.len() as int) =~= v@.subrange(rest as int, to as int));
        }
        trim_span(v, rest, to)
    } else {
        (from, to)
    }
}

fn cut_span(v: &Vec<char>, from: usize, to: usize, stop: char) -> (span: (usize, usize))
    requires
        from <= to <= v.len(),
    ensures
        from <= span.0 <= span.1 <= to,
        v@.subrange(span.0 as int, span.1 as int) == cut_at(
            v@.subrange(from as int, to as int),
            stop,
        ),
{
    let at = scan(v, from, to, CharClass::Before(stop));
    if at < to {
        proof {
            let s = v@.subrange(from as int, to as int);
            assert(s.take(at - from) =~= v@.subrange(from as int, at as int));
        }
        trim_span(v, from, at)
    } else {
        (from, to)
    }
}

/// The name in a line of the tool's output, if the line holds one.
pub fn extract_meaningful_part(line: &str) -> (name: Option<String>)
    ensures
        name.deep_view() == meaningful_part(line@),
{
    let v = chars_of(line);
    assert(v@.subrange(0, v.len() as int) =~= v@);
    let (a1, b1) = strip_marker_span(&v, 0, v.len(), "Successfully added");
    let (a2, b2) = strip_marker_span(&v, a1, b1, "Added");
    let (a3, b3) = strip_marker_span(&v, a2, b2, "✓");
    let (a4, b4) = strip_marker_span(&v, a3, b3, "-");
    let (a5, b5) = strip_marker_span(&v, a4, b4, "•");
    let (a6, b6) = cut_span(&v, a5, b5, '(');
    let (a7, b7) = cut_span(&v, a6, b6, '[');
    if b7 - a7 > 1 {
        Some(slice_text(line, a7, b7))
    } else {
        None
    }
}

/// The name that the first line of `output` to give one gives.
pub fn scan_for_name(output: &str) -> (name: Option<String>)
    ensures
        name.deep_view() == first_name_in(lines(output@)),
{
    let v = chars_of(output);
    let spans = line_spans(&v);
    let downloading = chars_of("Downloading");
    let fetching = chars_of("Fetching");
    let bytes = chars_of("bytes");
    let ghost ls = lines(v@);
    let mut i: usize = 0;
    assert(ls.skip(0) =~= ls);
    while i < spans.len()
        invariant
            i <= spans.len(),
            v@ == output@,
            ls == lines(v@),
            spans.len() == ls.len(),
            forall|k: int|
                0 <= k < spans.len() ==> {
                    &&& (#[trigger] spans[k]).0 <= spans[k].1 <= v.len()
                    &&& v@.subrange(spans[k].0 as int, spans[k].1 as int) == ls[k]
                },
            downloading@ == "Downloading"@,
            fetching@ == "Fetching"@,
            bytes@ == "bytes"@,
            first_name_in(ls) == first_name_in(ls.skip(i as int)),
        decreases spans.len() - i,
    {
        let (from, to) = spans[i];
        let (a, b) = trim_span(&v, from, to);
        proof {
            assert(ls.skip(i as int)[0] == ls[i as int]);
            assert(ls.skip(i as int).drop_first() =~= ls.skip(i + 1));
        }
        if b > a && !span_starts_with(&v, a, b, &downloading) && !span_starts_with(
            &v,
            a,
            b,
            &fetching,
        ) && !span_contains(&v, a, b, &bytes) && span_utf8_longer_than(&v, a, b, 3) {
            let line = slice_text(output, a, b);
            let name = extract_meaningful_part(line.as_str());
            if name.is_some() {
                return name;
            }
        }
        i += 1;
    }
    None
}

/// The name of the added mod, given what the first fitting phrasing captured
/// and the tool's output.
pub fn resolve_added_name(capture: Option<String>, output: &str) -> (name: Option<String>)
    ensures
        name.deep_view() == added_name(capture.deep_view(), output@),
{
    match capture {
        Some(group) => {
            let v = chars_of(group.as_str());
            assert(v@.subrange(0, v.len() as int) =~= v@);
            let (a, b) = trim_span(&v, 0, v.len());
            Some(slice_text(group.as_str(), a, b))
        },
        None => scan_for_name(output),
    }
}

/// What the first phrasing that fits `output` captured.
pub fn capture_added_name(output: &str) -> (capture: Option<String>)
    ensures
        capture.deep_view() == first_capture(output@, 0),
{
    let mut k: usize = 0;
    while k < 8
        invariant
            k <= 8,
            first_capture(output@, 0) == first_capture(output@, k as int),
        decreases 8 - k,
    {
        let group = capture_group(pattern_text(k), output, 1);
        if group.is_some() {
            return group;
        }
        k += 1;
    }
    None
}

/// The name under which the tool reports the mod it has added, recovered from
/// the standard output of the run; `None` where the output gives none.
pub fn extract_mod_name_from_output(output: &str) -> (name: Option<String>)
    ensures
        name.deep_view() == added_name(first_capture(output@, 0), output@),
{
    let capture = capture_added_name(output);
    resolve_added_name(capture, output)
}

} // verus!
