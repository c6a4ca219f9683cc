use iridium::import::{import_mods, invocation_status, ImportResult, ImportRun};
use iridium::tool::{InvocationOutcome, LaunchError, ToolCommand};

fn strings(items: &[&str]) -> Vec<String> {
    items.iter().map(|item| item.to_string()).collect()
}

fn accepted(stdout: &str) -> Result<InvocationOutcome, LaunchError> {
    Ok(InvocationOutcome { exit_succeeded: true, stdout: stdout.to_string(), stderr: String::new() })
}

fn rejected(stderr: &str) -> Result<InvocationOutcome, LaunchError> {
    Ok(InvocationOutcome { exit_succeeded: false, stdout: String::new(), stderr: stderr.to_string() })
}

fn not_started(reason: &str) -> Result<InvocationOutcome, LaunchError> {
    Err(LaunchError { reason: reason.to_string() })
}

fn due(run: &ImportRun) -> Option<String> {
    match run.next_command() {
        Some(ToolCommand::Add(identifier)) => Some(identifier),
        Some(_) => panic!("an import runs the add command only"),
        None => None,
    }
}

#[test]
fn an_empty_batch_succeeds_with_nothing_listed() {
    let result = import_mods(Vec::new(), &Vec::new());
    assert!(result.success);
    assert!(result.processed_mods.is_empty());
    assert!(result.failed_mods.is_empty());
    assert_eq!(result.message, "✅ Successfully imported 0 mods");
    let run = ImportRun::new(Vec::new());
    assert!(!run.has_pending());
    assert!(run.next_command().is_none());
    let result = run.finish();
    assert!(result.success);
    assert!(result.processed_mods.is_empty());
    assert!(result.failed_mods.is_empty());
}

#[test]
fn success_means_that_nothing_failed() {
    let batches: Vec<(Vec<String>, Vec<Result<InvocationOutcome, LaunchError>>)> = vec![
        (strings(&[]), vec![]),
        (strings(&["a"]), vec![accepted("")]),
        (strings(&["a"]), vec![rejected("no")]),
        (strings(&["a", "b"]), vec![accepted(""), not_started("gone")]),
        (strings(&["a", " ", "b"]), vec![rejected(""), accepted("")]),
    ];
    for (identifiers, runs) in batches {
        let result = import_mods(identifiers, &runs);
        assert_eq!(result.success, result.failed_mods.is_empty());
    }
    assert!(ImportResult::new(strings(&["a"]), strings(&[])).success);
    assert!(!ImportResult::new(strings(&["a"]), strings(&["b"])).success);
}

#[test]
fn every_identifier_that_is_not_blank_is_listed_once() {
    let identifiers = strings(&["a", " ", "", "b", "\t\n", "c", "d"]);
    let runs = vec![accepted(""), rejected("no"), not_started("gone"), accepted("Added: Dee")];
    let result = import_mods(identifiers, &runs);
    assert_eq!(result.processed_mods.len() + result.failed_mods.len(), 4);
    assert_eq!(result.processed_mods, strings(&["a", "Dee"]));
    assert_eq!(result.failed_mods, strings(&["b", "c"]));
}

#[test]
fn blank_identifiers_are_listed_nowhere() {
    let identifiers = strings(&["", "  ", "a", "\t", "b", "\u{a0}", "\r\n"]);
    let runs = vec![accepted(""), rejected("")];
    let result = import_mods(identifiers.clone(), &runs);
    for identifier in identifiers {
        if identifier.trim().is_empty() {
            assert!(!result.processed_mods.contains(&identifier));
            assert!(!result.failed_mods.contains(&identifier));
        }
    }
    assert_eq!(result.processed_mods, strings(&["a"]));
    assert_eq!(result.failed_mods, strings(&["b"]));
}

#[test]
fn a_batch_of_blank_identifiers_runs_nothing() {
    let run = ImportRun::new(strings(&["", "   ", "\n"]));
    assert!(!run.has_pending());
    assert!(run.next_command().is_none());
    let result = run.finish();
    assert!(result.success);
    assert!(result.processed_mods.is_empty());
    assert!(result.failed_mods.is_empty());
    assert_eq!(result.message, "✅ Successfully imported 0 mods");
}

#[test]
fn the_add_command_is_due_for_each_identifier_in_order() {
    let mut run = ImportRun::new(strings(&[" ", "first", "", "second", "third", " "]));
    assert!(run.has_pending());
    assert_eq!(due(&run), Some("first".to_string()));
    assert_eq!(due(&run), Some("first".to_string()));
    match run.next_command() {
        Some(command) => assert_eq!(command.args(), vec!["add", "first"]),
        None => panic!("a command is due"),
    }
    run = run.record(&accepted("Successfully added First Mod"));
    assert_eq!(due(&run), Some("second".to_string()));
    run = run.record(&rejected("not found"));
    assert_eq!(due(&run), Some("third".to_string()));
    run = run.record(&not_started("No such file or directory"));
    assert_eq!(due(&run), None);
    assert!(!run.has_pending());
    let result = run.finish();
    assert!(!result.success);
    assert_eq!(result.processed_mods, strings(&["First Mod"]));
    assert_eq!(result.failed_mods, strings(&["second", "third"]));
    assert_eq!(result.message, "⚠️ Imported 1 mods, 2 failed");
}

#[test]
fn an_identifier_keeps_its_whitespace() {
    let run = ImportRun::new(strings(&["  padded  "]));
    assert_eq!(due(&run), Some("  padded  ".to_string()));
    let result = run.record(&rejected("")).finish();
    assert_eq!(result.failed_mods, strings(&["  padded  "]));
}

#[test]
fn an_accepted_mod_is_listed_under_the_name_that_the_tool_reported() {
    let result = import_mods(
        strings(&["AANobbMI", "gvQqBUqZ", "P7dR8mSH"]),
        &vec![
            accepted("Successfully added Sodium"),
            accepted("Lithium has already been added"),
            accepted("Downloading 12 bytes\n- Fabric API (0.92)"),
        ],
    );
    assert!(result.success);
    assert_eq!(result.processed_mods, strings(&["Sodium", "Lithium", "Fabric API"]));
    assert!(result.failed_mods.is_empty());
    assert_eq!(result.message, "✅ Successfully imported 3 mods");
}

#[test]
fn an_accepted_mod_is_listed_under_its_identifier_where_the_tool_reported_no_name() {
    let result = import_mods(
        strings(&["AANobbMI", "gvQqBUqZ"]),
        &vec![accepted(""), accepted("Downloading 4 bytes\nok")],
    );
    assert_eq!(result.processed_mods, strings(&["AANobbMI", "gvQqBUqZ"]));
}

#[test]
fn the_output_of_a_rejected_run_names_nothing() {
    let run = Ok(InvocationOutcome {
        exit_succeeded: false,
        stdout: "Successfully added Sodium".to_string(),
        stderr: String::new(),
    });
    let result = import_mods(strings(&["AANobbMI"]), &vec![run]);
    assert!(result.processed_mods.is_empty());
    assert_eq!(result.failed_mods, strings(&["AANobbMI"]));
}

#[test]
fn a_failure_does_not_end_the_batch() {
    let result = import_mods(
        strings(&["a", "b", "c"]),
        &vec![not_started("gone"), rejected("no"), accepted("")],
    );
    assert!(!result.success);
    assert_eq!(result.processed_mods, strings(&["c"]));
    assert_eq!(result.failed_mods, strings(&["a", "b"]));
    assert_eq!(result.message, "⚠️ Imported 1 mods, 2 failed");
}

#[test]
fn a_run_with_nothing_due_changes_nothing() {
    let run = ImportRun::new(strings(&["a"])).record(&accepted("")).record(&rejected("late"));
    assert!(!run.has_pending());
    let result = run.finish();
    assert_eq!(result.processed_mods, strings(&["a"]));
    assert!(result.failed_mods.is_empty());
    let result = import_mods(strings(&[]), &vec![accepted("Successfully added X")]);
    assert!(result.processed_mods.is_empty());
    assert!(result.failed_mods.is_empty());
}

#[test]
fn identifiers_without_a_run_are_left_out() {
    let run = ImportRun::new(strings(&["a", "b", "c"])).record(&accepted(""));
    assert!(run.has_pending());
    let result = run.finish();
    assert!(result.success);
    assert_eq!(result.processed_mods, strings(&["a"]));
    assert!(result.failed_mods.is_empty());
}

#[test]
fn the_summary_counts_both_lists() {
    assert_eq!(
        ImportResult::new(strings(&[]), strings(&[])).message,
        "✅ Successfully imported 0 mods"
    );
    assert_eq!(
        ImportResult::new(strings(&["a"]), strings(&[])).message,
        "✅ Successfully imported 1 mods"
    );
    assert_eq!(
        ImportResult::new(strings(&[]), strings(&["x"])).message,
        "⚠️ Imported 0 mods, 1 failed"
    );
    let many: Vec<String> = (0..12).map(|n| n.to_string()).collect();
    let result = ImportResult::new(many.clone(), many.clone());
    assert_eq!(result.message, "⚠️ Imported 12 mods, 12 failed");
    assert_eq!(result.processed_mods, many);
    assert_eq!(result.failed_mods, many);
}

#[test]
fn the_status_line_shows_the_latest_run() {
    assert_eq!(invocation_status("sodium", &accepted("Successfully added Sodium\n")), "Successfully added Sodium\n");
    assert_eq!(
        invocation_status("sodium", &rejected("not found")),
        "Command failed for mod 'sodium': not found"
    );
    assert_eq!(
        invocation_status("sodium", &not_started("program not found")),
        "Failed to execute command for mod 'sodium': program not found"
    );
}

#[test]
fn a_reported_name_of_whitespace_alone_is_listed_empty() {
    let result = import_mods(strings(&["x"]), &vec![accepted("Successfully added  ")]);
    assert!(result.success);
    assert_eq!(result.processed_mods, strings(&[""]));
    assert!(result.failed_mods.is_empty());
}
