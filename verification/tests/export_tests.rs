use iridium::export::{
    export_result, export_result_at, export_status, export_status_at, extract_middle_text, get_current_time,
    listed_mods, ClipboardOutcome,
};
use iridium::tool::{InvocationOutcome, LaunchError};

fn outcome(exit_succeeded: bool, stdout: &str, stderr: &str) -> InvocationOutcome {
    InvocationOutcome {
        exit_succeeded,
        stdout: stdout.to_string(),
        stderr: stderr.to_string(),
    }
}

fn is_clock_reading(text: &str) -> bool {
    let c: Vec<char> = text.chars().collect();
    if c.len() != 8 || c[2] != ':' || c[5] != ':' {
        return false;
    }
    let digits = [c[0], c[1], c[3], c[4], c[6], c[7]];
    if !digits.iter().all(|d| d.is_ascii_digit()) {
        return false;
    }
    let value = |i: usize| (c[i] as u32 - '0' as u32) * 10 + (c[i + 1] as u32 - '0' as u32);
    value(0) <= 23 && value(3) <= 59 && value(6) <= 60
}

#[test]
fn the_second_word_of_each_line_after_the_first_is_listed() {
    let listing = "3 mods installed\nslug1 Mod One 1.0\nslug2 Mod Two 2.0";
    assert_eq!(extract_middle_text(listing.to_string()), "Mod\nMod");
}

#[test]
fn identifiers_are_listed_in_order() {
    let listing = "2 mods\n✓ sodium   Sodium\n✓ lithium  Lithium\n";
    assert_eq!(extract_middle_text(listing.to_string()), "sodium\nlithium");
}

#[test]
fn lines_with_fewer_than_two_words_are_dropped() {
    let listing = "header line\nsingle\n\n   \na b\nalone  \n  c   d   e  ";
    assert_eq!(extract_middle_text(listing.to_string()), "b\nd");
}

#[test]
fn the_first_line_is_never_listed() {
    assert_eq!(extract_middle_text("a b".to_string()), "");
    assert_eq!(extract_middle_text("a b\n".to_string()), "");
    assert_eq!(extract_middle_text("\na b".to_string()), "b");
}

#[test]
fn an_empty_listing_lists_nothing() {
    assert_eq!(extract_middle_text(String::new()), "");
    assert_eq!(extract_middle_text("\n".to_string()), "");
    assert_eq!(extract_middle_text("header\nonly\nsingle\nwords".to_string()), "");
}

#[test]
fn carriage_returns_end_lines_too() {
    assert_eq!(extract_middle_text("head\r\na b\r\nc d\r\n".to_string()), "b\nd");
}

#[test]
fn the_listing_agrees_with_the_standard_library() {
    let listings = [
        "",
        "x",
        "3 mods installed\nslug1 Mod One 1.0\nslug2 Mod Two 2.0",
        "h\n a\tb \n\nc\u{a0}d\r\ne f g\n",
        "h\r\n\r\nq w\re r\n",
    ];
    for listing in listings {
        let expected = listing
            .lines()
            .skip(1)
            .filter_map(|line| line.split_whitespace().nth(1).map(|word| word.to_string()))
            .collect::<Vec<String>>()
            .join("\n");
        assert_eq!(extract_middle_text(listing.to_string()), expected, "{:?}", listing);
    }
}

#[test]
fn a_listing_that_ended_well_gives_the_list() {
    let list = listed_mods(&Ok(outcome(true, "1 mod\nx sodium", "warning")));
    assert_eq!(list, Ok("sodium".to_string()));
}

#[test]
fn a_listing_that_ended_badly_gives_the_complaint() {
    let list = listed_mods(&Ok(outcome(false, "1 mod\nx sodium", "no profile")));
    assert_eq!(list, Err("Ferium command failed: no profile".to_string()));
}

#[test]
fn a_listing_that_never_ran_gives_the_reason() {
    let list = listed_mods(&Err(LaunchError { reason: "program not found".to_string() }));
    assert_eq!(list, Err("Failed to execute ferium: program not found".to_string()));
}

#[test]
fn a_copied_list_is_a_success() {
    let result = export_result_at("a\nb".to_string(), ClipboardOutcome::Copied, "12:34:56".to_string());
    assert!(result.success);
    assert_eq!(result.message, "📋 Mod list copied to clipboard");
    assert_eq!(result.mod_list, "a\nb");
    assert_eq!(result.timestamp, "12:34:56");
}

#[test]
fn a_refused_copy_still_hands_the_list_on() {
    let result = export_result_at(
        "a\nb".to_string(),
        ClipboardOutcome::WriteFailed("clipboard is busy".to_string()),
        "00:00:00".to_string(),
    );
    assert!(!result.success);
    assert_eq!(result.message, "Failed to copy to clipboard: clipboard is busy");
    assert_eq!(result.mod_list, "a\nb");
    assert_eq!(result.timestamp, "00:00:00");
}

#[test]
fn a_missing_clipboard_still_hands_the_list_on() {
    let result = export_result_at(
        "a".to_string(),
        ClipboardOutcome::Unavailable("no display".to_string()),
        "23:59:60".to_string(),
    );
    assert!(!result.success);
    assert_eq!(result.message, "Failed to access clipboard: no display");
    assert_eq!(result.mod_list, "a");
    assert_eq!(result.timestamp, "23:59:60");
}

#[test]
fn an_export_is_stamped_with_the_time_of_day() {
    let result = export_result("a".to_string(), ClipboardOutcome::Copied);
    assert!(result.success);
    assert_eq!(result.mod_list, "a");
    assert!(is_clock_reading(&result.timestamp), "{:?}", result.timestamp);
    let result = export_result("a".to_string(), ClipboardOutcome::Unavailable("x".to_string()));
    assert!(!result.success);
    assert_eq!(result.message, "Failed to access clipboard: x");
    assert!(is_clock_reading(&result.timestamp), "{:?}", result.timestamp);
}

#[test]
fn the_status_line_tells_the_time_or_the_complaint() {
    assert_eq!(export_status_at(&outcome(true, "x", "y"), "01:02:03"), "Copied mods at 01:02:03");
    assert_eq!(export_status_at(&outcome(false, "x", "y"), "01:02:03"), "Command failed: y");
}

#[test]
fn the_status_line_is_stamped_with_the_time_of_day() {
    let status = export_status(&outcome(true, "", ""));
    assert!(status.starts_with("Copied mods at "));
    assert!(is_clock_reading(&status["Copied mods at ".len()..]), "{:?}", status);
    assert_eq!(export_status(&outcome(false, "", "bad")), "Command failed: bad");
}

#[test]
fn the_time_of_day_has_two_digits_for_each_part() {
    let time = get_current_time();
    assert!(is_clock_reading(&time), "{:?}", time);
}
