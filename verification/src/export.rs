//! Exporting the list of installed mods: reading the identifiers out of the
//! tool's listing, and reporting how handing them to the clipboard went.

use vstd::prelude::*;
use crate::text::{chars_of, join_lines, lines, line_spans, second_word, second_word_span, slice_text};
use crate::tool::{InvocationOutcome, LaunchError};

verus! {

/// The result of exporting the list of installed mods.
#[derive(Clone, Debug)]
pub struct ExportResult {
    pub success: bool,
    pub message: String,
    /// The identifiers of the installed mods, one per line.
    pub mod_list: String,
    /// The time of day at which the list was taken.
    pub timestamp: String,
}

/// How handing the list to the host's clipboard went.
#[derive(Clone, Debug)]
pub enum ClipboardOutcome {
    /// The list is on the clipboard.
    Copied,
    /// The clipboard was there and refused the text; the host's words for it.
    WriteFailed(String),
    /// No clipboard could be reached; the host's words for it.
    Unavailable(String),
}

/// The second words of those of `ls` that have two words, in order.
pub open spec fn second_words(ls: Seq<Seq<char>>) -> Seq<Seq<char>>
    decreases ls.len(),
{
    if ls.len() == 0 {
        Seq::empty()
    } else {
        let before = second_words(ls.drop_last());
        match second_word(ls.last()) {
            Some(word) => before.push(word),
            None => before,
        }
    }
}

/// The lines of a listing that stand for mods: all but the first, which
/// counts them.
pub open spec fn listed_lines(listing: Seq<char>) -> Seq<Seq<char>> {
    let ls = lines(listing);
    if ls.len() > 0 {
        ls.drop_first()
    } else {
        ls
    }
}

/// The identifiers in a listing, one per line: the second word of each line
/// after the first. Lines with fewer than two words give nothing.
pub open spec fn listed_identifiers(listing: Seq<char>) -> Seq<char> {
    join_lines(second_words(listed_lines(listing)))
}

/// The identifiers of the installed mods, one per line, read out of what the
/// tool's list command printed.
pub fn extract_middle_text(input: String) -> (list: String)
    ensures
        list@ == listed_identifiers(input@),
{
    let v = chars_of(input.as_str());
    let spans = line_spans(&v);
    let mut list = String::new();
    if spans.len() == 0 {
        return list;
    }
    let ghost ls = lines(v@);
    let ghost mut parts: Seq<Seq<char>> = Seq::empty();
    let mut first = true;
    let mut i: usize = 1;
    proof {
        assert(ls.subrange(1, 1) =~= Seq::<Seq<char>>::empty());
        assert(ls.drop_first() =~= ls.subrange(1, ls.len() as int));
        reveal_strlit("\n");
    }
    while i < spans.len()
        invariant
            1 <= i <= spans.len(),
            v@ == input@,
            ls == lines(v@),
            spans.len() == ls.len(),
            forall|k: int|
                0 <= k < spans.len() ==> {
                    &&& (#[trigger] spans[k]).0 <= spans[k].1 <= v.len()
                    &&& v@.subrange(spans[k].0 as int, spans[k].1 as int) == ls[k]
                },
            parts == second_words(ls.subrange(1, i as int)),
            list@ == join_lines(parts),
            first == (parts.len() == 0),
            "\n"@ == seq!['\n'],
        decreases spans.len() - i,
    {
        let (from, to) = spans[i];
        proof {
            let upto = ls.subrange(1, i + 1);
            assert(upto.drop_last() =~= ls.subrange(1, i as int));
            assert(upto.last() == ls[i as int]);
        }
        match second_word_span(&v, from, to) {
            Some((a, b)) => {
                let word = slice_text(input.as_str(), a, b);
                let ghost before = parts;
                if first {
                    assert(list@ =~= Seq::<char>::empty());
                    list.append(word.as_str());
                    first = false;
                    proof {
                        parts = parts.push(word@);
                        assert(list@ =~= parts[0]);
                    }
                } else {
                    list.append("\n");
                    list.append(word.as_str());
                    proof {
                        parts = parts.push(word@);
                        assert(parts.drop_last() =~= before);
                    }
                }
            },
            None => {},
        }
        i += 1;
    }
    list
}

/// What is reported for each way the clipboard may have answered.
pub open spec fn export_message(clipboard: ClipboardOutcome) -> Seq<char> {
    match clipboard {
        ClipboardOutcome::Copied => "📋 Mod list copied to clipboard"@,
        ClipboardOutcome::WriteFailed(reason) => "Failed to copy to clipboard: "@ + reason@,
        ClipboardOutcome::Unavailable(reason) => "Failed to access clipboard: "@ + reason@,
    }
}

/// What is reported for a list command that ended badly.
pub open spec fn listing_failure(stderr: Seq<char>) -> Seq<char> {
    "Ferium command failed: "@ + stderr
}

/// What is reported when the tool could not be started for a listing.
pub open spec fn listing_launch_failure(reason: Seq<char>) -> Seq<char> {
    "Failed to execute ferium: "@ + reason
}

/// What a run of the tool's list command came to: the list of identifiers to
/// put on the clipboard, or the words for why there is none.
pub open spec fn listing_result(run: Result<InvocationOutcome, LaunchError>) -> Result<
    Seq<char>,
    Seq<char>,
> {
    match run {
        Ok(outcome) => if outcome.exit_succeeded {
            Ok(listed_identifiers(outcome.stdout@))
        } else {
            Err(listing_failure(outcome.stderr@))
        },
        Err(error) => Err(listing_launch_failure(error.reason@)),
    }
}

/// The first half of an export: the list of identifiers that a run of the
/// tool's list command gave, or the error that ends the export.
pub fn listed_mods(run: &Result<InvocationOutcome, LaunchError>) -> (list: Result<String, String>)
    ensures
        match listing_result(*run) {
            Ok(text) => list matches Ok(found) && found@ == text,
            Err(text) => list matches Err(message) && message@ == text,
        },
{
    match run {
        Ok(outcome) => {
            if outcome.exit_succeeded {
                Ok(extract_middle_text(outcome.stdout.clone()))
            } else {
                let mut message = "Ferium command failed: ".to_string();
                message.append(outcome.stderr.as_str());
                Err(message)
            }
        },
        Err(error) => {
            let mut message = "Failed to execute ferium: ".to_string();
            message.append(error.reason.as_str());
            Err(message)
        },
    }
}

/// The second half of an export, at a given time of day: the result that
/// tells how the clipboard answered. The list is handed on whether or not
/// the clipboard took it.
pub fn export_result_at(mod_list: String, clipboard: ClipboardOutcome, timestamp: String) -> (result:
    ExportResult)
    ensures
        result.success == (clipboard is Copied),
        result.message@ == export_message(clipboard),
        result.mod_list@ == mod_list@,
        result.timestamp@ == timestamp@,
{
    match clipboard {
        ClipboardOutcome::Copied => ExportResult {
            success: true,
            message: "📋 Mod list copied to clipboard".to_string(),
            mod_list,
            timestamp,
        },
        ClipboardOutcome::WriteFailed(reason) => {
            let mut message = "Failed to copy to clipboard: ".to_string();
            message.append(reason.as_str());
            ExportResult { success: false, message, mod_list, timestamp }
        },
        ClipboardOutcome::Unavailable(reason) => {
            let mut message = "Failed to access clipboard: ".to_string();
            message.append(reason.as_str());
            ExportResult { success: false, message, mod_list, timestamp }
        },
    }
}

/// `c` is one of the ten decimal digits.
pub open spec fn is_digit(c: char) -> bool {
    0x30 <= c as u32 <= 0x39
}

/// The number that two decimal digits stand for.
pub open spec fn two_digits(tens: char, ones: char) -> int {
    (tens as u32 - 0x30) * 10 + (ones as u32 - 0x30)
}

/// `text` is a time of day written as hours, minutes and seconds of two
/// digits each, with colons between them. A leap second reads 60.
pub open spec fn is_clock_reading(text: Seq<char>) -> bool {
    &&& text.len() == 8
    &&& is_digit(text[0]) && is_digit(text[1]) && two_digits(text[0], text[1]) <= 23
    &&& text[2] == ':'
    &&& is_digit(text[3]) && is_digit(text[4]) && two_digits(text[3], text[4]) <= 59
    &&& text[5] == ':'
    &&& is_digit(text[6]) && is_digit(text[7]) && two_digits(text[6], text[7]) <= 60
}

/// The pattern that writes a time of day as hours, minutes and seconds.
pub open spec fn clock_pattern() -> Seq<char> {
    "%H:%M:%S"@
}

/// Reads the clock with `chrono::Local::now` and writes the local time with
/// `DateTime::format`. The contract is for the pattern of hours, minutes and
/// seconds alone: it gives the shape that this pattern stands for and says
/// nothing of which time it is.
#[verifier::external_body]
fn local_time_text(pattern: &str) -> (time: String)
    requires
        pattern@ == clock_pattern(),
    ensures
        is_clock_reading(time@),
{
    chrono::Local::now().format(pattern).to_string()
}

/// The local time of day as hours, minutes and seconds.
pub fn get_current_time() -> (time: String)
    ensures
        is_clock_reading(time@),
{
    local_time_text("%H:%M:%S")
}

/// The second half of an export, stamped with the time of day at which it is
/// called.
pub fn export_result(mod_list: String, clipboard: ClipboardOutcome) -> (result: ExportResult)
    ensures
        result.success == (clipboard is Copied),
        result.message@ == export_message(clipboard),
        result.mod_list@ == mod_list@,
        is_clock_reading(result.timestamp@),
{
    let timestamp = get_current_time();
    export_result_at(mod_list, clipboard, timestamp)
}

/// The one line that tells how an export went, where no more than a line is
/// shown: the time of the copy, or what the tool complained of.
pub open spec fn export_status_line(exit_succeeded: bool, stderr: Seq<char>, time: Seq<char>) -> Seq<
    char,
> {
    if exit_succeeded {
        "Copied mods at "@ + time
    } else {
        "Command failed: "@ + stderr
    }
}

/// The status line of an export that was made at the given time of day.
pub fn export_status_at(outcome: &InvocationOutcome, time: &str) -> (status: String)
    ensures
        status@ == export_status_line(outcome.exit_succeeded, outcome.stderr@, time@),
{
    if outcome.exit_succeeded {
        let mut status = "Copied mods at ".to_string();
        status.append(time);
        status
    } else {
        let mut status = "Command failed: ".to_string();
        status.append(outcome.stderr.as_str());
        status
    }
}

/// The status line of an export, with the time of day at which it is called.
pub fn export_status(outcome: &InvocationOutcome) -> (status: String)
    ensures
        exists|time: Seq<char>|
            is_clock_reading(time) && status@ == #[trigger] export_status_line(
                outcome.exit_succeeded,
                outcome.stderr@,
                time,
            ),
{
    let time = get_current_time();
    export_status_at(outcome, time.as_str())
}

} // verus!
