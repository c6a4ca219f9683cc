use iridium::tool::{InvocationOutcome, LaunchError};
use iridium::upgrade::{classify_upgrade, combine_output, upgrade_message, upgrade_mods};

const FAILED: &str = "❌ Upgrade failed - check the output below";
const UP_TO_DATE: &str = "✅ All mods are already up to date!";
const DOWNLOADED: &str = "🚀 Successfully downloaded and installed mod updates!";
const CONFIRMED: &str = "✅ All mods checked and confirmed up to date!";
const PROCESSED: &str = "🚀 Successfully processed and updated mods!";
const VERSIONS: &str = "🔍 Successfully checked mod versions!";
const NO_MODS: &str = "ℹ️ No mods found to upgrade - add some mods first!";
const QUIET: &str = "✅ Upgrade completed successfully!";
const COMPLETED: &str = "🚀 Upgrade process completed!";

#[test]
fn up_to_date_output_gives_the_up_to_date_message() {
    let result = classify_upgrade(true, "All up to date!", "");
    assert!(result.success);
    assert_eq!(result.message, UP_TO_DATE);
    assert_eq!(result.output, "All up to date!");
}

#[test]
fn a_failed_upgrade_keeps_the_error_output() {
    let result = classify_upgrade(false, "", "network error");
    assert!(!result.success);
    assert_eq!(result.message, FAILED);
    assert!(result.output.contains("network error"));
    assert_eq!(result.output, "network error");
}

#[test]
fn a_failed_upgrade_is_not_classified_by_its_output() {
    let result = classify_upgrade(false, "All up to date!", "");
    assert!(!result.success);
    assert_eq!(result.message, FAILED);
    assert_eq!(result.output, "All up to date!");
}

#[test]
fn the_output_is_matched_in_lower_case() {
    assert_eq!(classify_upgrade(true, "ALL UP TO DATE!", "").message, UP_TO_DATE);
    assert_eq!(classify_upgrade(true, "DOWNLOADING MODS", "").message, DOWNLOADED);
    assert_eq!(classify_upgrade(true, "", "No Mods installed").message, NO_MODS);
}

#[test]
fn output_and_errors_are_joined_by_a_line_feed() {
    assert_eq!(combine_output("out", "err"), "out\nerr");
    assert_eq!(combine_output("", "err"), "err");
    assert_eq!(combine_output("out", ""), "out");
    assert_eq!(combine_output("", ""), "");
    assert_eq!(classify_upgrade(true, "a", "b").output, "a\nb");
}

#[test]
fn each_rule_gives_its_message() {
    assert_eq!(upgrade_message("all up to date!", "x"), UP_TO_DATE);
    assert_eq!(upgrade_message("downloading 3 mods", "x"), DOWNLOADED);
    assert_eq!(upgrade_message("✓ sodium.jar\nall up to date", "x"), CONFIRMED);
    assert_eq!(upgrade_message("✓ sodium.jar", "x"), PROCESSED);
    assert_eq!(upgrade_message("✓ fabric api", "x"), PROCESSED);
    assert_eq!(upgrade_message("✓ forge thing", "x"), PROCESSED);
    assert_eq!(upgrade_message("determining the latest compatible versions", "x"), VERSIONS);
    assert_eq!(upgrade_message("no mods", "x"), NO_MODS);
    assert_eq!(upgrade_message("nothing in this modpack", "x"), NO_MODS);
    assert_eq!(upgrade_message("", ""), QUIET);
    assert_eq!(upgrade_message("  \n", "  \n"), QUIET);
    assert_eq!(upgrade_message("done", "Done"), COMPLETED);
}

#[test]
fn earlier_rules_win() {
    assert_eq!(upgrade_message("downloading mod\nall up to date!", "x"), UP_TO_DATE);
    assert_eq!(upgrade_message("✓ sodium.jar downloading mod", "x"), DOWNLOADED);
    assert_eq!(upgrade_message("✓ a.jar determining versions", "x"), PROCESSED);
    assert_eq!(upgrade_message("determining versions of no mods", "x"), VERSIONS);
}

#[test]
fn rules_that_need_two_markers_need_both() {
    assert_eq!(upgrade_message("downloading", "x"), COMPLETED);
    assert_eq!(upgrade_message("✓ done", "x"), COMPLETED);
    assert_eq!(upgrade_message("sodium.jar", "x"), COMPLETED);
    assert_eq!(upgrade_message("determining", "x"), COMPLETED);
    assert_eq!(upgrade_message("versions", "x"), COMPLETED);
    assert_eq!(upgrade_message("mod", "x"), COMPLETED);
}

#[test]
fn blankness_is_judged_on_the_output_as_printed() {
    assert_eq!(upgrade_message("", "something"), COMPLETED);
    assert_eq!(upgrade_message("something", " "), QUIET);
}

#[test]
fn a_quiet_upgrade_completed() {
    let result = classify_upgrade(true, "", "");
    assert!(result.success);
    assert_eq!(result.message, QUIET);
    assert_eq!(result.output, "");
}

#[test]
fn an_upgrade_run_is_classified() {
    let run = Ok(InvocationOutcome {
        exit_succeeded: true,
        stdout: "Determining the Latest Compatible Versions".to_string(),
        stderr: "".to_string(),
    });
    match upgrade_mods(&run) {
        Ok(result) => {
            assert!(result.success);
            assert_eq!(result.message, VERSIONS);
            assert_eq!(result.output, "Determining the Latest Compatible Versions");
        }
        Err(message) => panic!("{}", message),
    }
    let run = Ok(InvocationOutcome {
        exit_succeeded: false,
        stdout: "partial".to_string(),
        stderr: "boom".to_string(),
    });
    match upgrade_mods(&run) {
        Ok(result) => {
            assert!(!result.success);
            assert_eq!(result.message, FAILED);
            assert_eq!(result.output, "partial\nboom");
        }
        Err(message) => panic!("{}", message),
    }
}

#[test]
fn a_tool_that_did_not_start_fails_the_upgrade() {
    let run = Err(LaunchError { reason: "No such file or directory (os error 2)".to_string() });
    match upgrade_mods(&run) {
        Ok(_) => panic!("an upgrade without the tool"),
        Err(message) => assert_eq!(
            message,
            "Failed to execute ferium upgrade: No such file or directory (os error 2)"
        ),
    }
}
