//! What an upgrade run of the tool amounted to, told from what it printed.

use vstd::prelude::*;
use crate::text::{chars_of, contains, is_blank, span_is_blank, text_contains};
use crate::tool::{InvocationOutcome, LaunchError};

verus! {

/// The result of asking the tool to upgrade the installed mods.
#[derive(Clone, Debug)]
pub struct UpgradeResult {
    pub success: bool,
    /// One of the fixed summaries of this module.
    pub message: String,
    /// What the tool printed, standard output before standard error.
    pub output: String,
}

/// `text` in lower case, as `str::to_lowercase` gives it.
pub uninterp spec fn lowercase_of(text: Seq<char>) -> Seq<char>;

/// Calls `str::to_lowercase`. The contract names the result after the text it
/// was made from; what the lower case of a text is stays with the standard
/// library.
#[verifier::external_body]
fn lowercase(text: &str) -> (lower: String)
    ensures
        lower@ == lowercase_of(text@),
{
    text.to_lowercase()
}

/// Standard output and standard error as one text: both with a line feed
/// between them where both hold something, else the one that does.
pub open spec fn combined_output(stdout: Seq<char>, stderr: Seq<char>) -> Seq<char> {
    if stderr.len() > 0 && stdout.len() > 0 {
        stdout + seq!['\n'] + stderr
    } else if stderr.len() > 0 {
        stderr
    } else {
        stdout
    }
}

/// The summary of an upgrade that ended badly.
pub open spec fn failure_message() -> Seq<char> {
    "❌ Upgrade failed - check the output below"@
}

/// The tool said that nothing was out of date.
pub open spec fn already_up_to_date_message() -> Seq<char> {
    "✅ All mods are already up to date!"@
}

/// The tool downloaded mods.
pub open spec fn downloaded_message() -> Seq<char> {
    "🚀 Successfully downloaded and installed mod updates!"@
}

/// The tool went through the mod files and found them up to date.
pub open spec fn confirmed_up_to_date_message() -> Seq<char> {
    "✅ All mods checked and confirmed up to date!"@
}

/// The tool went through the mod files.
pub open spec fn processed_message() -> Seq<char> {
    "🚀 Successfully processed and updated mods!"@
}

/// The tool looked for versions and no more.
pub open spec fn versions_checked_message() -> Seq<char> {
    "🔍 Successfully checked mod versions!"@
}

/// The tool found no mods.
pub open spec fn no_mods_message() -> Seq<char> {
    "ℹ️ No mods found to upgrade - add some mods first!"@
}

/// The tool printed nothing.
pub open spec fn completed_quietly_message() -> Seq<char> {
    "✅ Upgrade completed successfully!"@
}

/// The tool printed something that no rule knows.
pub open spec fn completed_message() -> Seq<char> {
    "🚀 Upgrade process completed!"@
}

/// The summary of an upgrade that ended well, chosen by the first rule that
/// applies. `lower` is the tool's output in lower case, `output` the output as
/// it was printed.
pub open spec fn success_message(lower: Seq<char>, output: Seq<char>) -> Seq<char> {
    if contains(lower, "all up to date!"@) {
        already_up_to_date_message()
    } else if contains(lower, "downloading"@) && contains(lower, "mod"@) {
        downloaded_message()
    } else if contains(lower, "✓"@) && (contains(lower, ".jar"@) || contains(lower, "fabric"@)
        || contains(lower, "forge"@)) {
        if contains(lower, "all up to date"@) {
            confirmed_up_to_date_message()
        } else {
            processed_message()
        }
    } else if contains(lower, "determining"@) && contains(lower, "versions"@) {
        versions_checked_message()
    } else if contains(lower, "no mods"@) || (contains(lower, "no"@) && contains(lower, "mod"@)) {
        no_mods_message()
    } else if is_blank(output) {
        completed_quietly_message()
    } else {
        completed_message()
    }
}

/// The summary of an upgrade, given how the tool ended and what it printed.
pub open spec fn upgrade_summary(exit_succeeded: bool, output: Seq<char>) -> Seq<char> {
    if exit_succeeded {
        success_message(lowercase_of(output), output)
    } else {
        failure_message()
    }
}

impl UpgradeResult {
    /// The message is the summary that the flag and the output call for.
    pub open spec fn consistent(&self) -> bool {
        self.message@ == upgrade_summary(self.success, self.output@)
    }
}

/// Standard output and standard error as one text.
pub fn combine_output(stdout: &str, stderr: &str) -> (output: String)
    ensures
        output@ == combined_output(stdout@, stderr@),
{
    if !stderr.is_empty() && !stdout.is_empty() {
        proof {
            reveal_strlit("\n");
        }
        let mut output = stdout.to_string();
        output.append("\n");
        output.append(stderr);
        assert(output@ =~= stdout@ + seq!['\n'] + stderr@);
        output
    } else if !stderr.is_empty() {
        stderr.to_string()
    } else {
        stdout.to_string()
    }
}

/// The summary of an upgrade that ended well. `output_lower` is the tool's
/// output in lower case, `combined_output` the output as it was printed.
pub fn upgrade_message(output_lower: &str, combined_output: &str) -> (message: String)
    ensures
        message@ == success_message(output_lower@, combined_output@),
{
    let lower = chars_of(output_lower);
    if text_contains(&lower, "all up to date!") {
        "✅ All mods are already up to date!".to_string()
    } else if text_contains(&lower, "downloading") && text_contains(&lower, "mod") {
        "🚀 Successfully downloaded and installed mod updates!".to_string()
    } else if text_contains(&lower, "✓") && (text_contains(&lower, ".jar") || text_contains(
        &lower,
        "fabric",
    ) || text_contains(&lower, "forge")) {
        if text_contains(&lower, "all up to date") {
            "✅ All mods checked and confirmed up to date!".to_string()
        } else {
            "🚀 Successfully processed and updated mods!".to_string()
        }
    } else if text_contains(&lower, "determining") && text_contains(&lower, "versions") {
        "🔍 Successfully checked mod versions!".to_string()
    } else if text_contains(&lower, "no mods") || (text_contains(&lower, "no") && text_contains(
        &lower,
        "mod",
    )) {
        "ℹ️ No mods found to upgrade - add some mods first!".to_string()
    } else {
        let output = chars_of(combined_output);
        assert(output@.subrange(0, output.len() as int) =~= output@);
        if span_is_blank(&output, 0, output.len()) {
            "✅ Upgrade completed successfully!".to_string()
        } else {
            "🚀 Upgrade process completed!".to_string()
        }
    }
}

/// Tells what an upgrade run amounted to. A run that ended badly gives the
/// failure summary; one that ended well gives the summary that its output
/// calls for. Either way the result carries the whole output.
pub fn classify_upgrade(exit_succeeded: bool, stdout: &str, stderr: &str) -> (result:
    UpgradeResult)
    ensures
        result.success == exit_succeeded,
        result.output@ == combined_output(stdout@, stderr@),
        result.consistent(),
{
    let output = combine_output(stdout, stderr);
    if exit_succeeded {
        let lower = lowercase(output.as_str());
        let message = upgrade_message(lower.as_str(), output.as_str());
        UpgradeResult { success: true, message, output }
    } else {
        UpgradeResult {
            success: false,
            message: "❌ Upgrade failed - check the output below".to_string(),
            output,
        }
    }
}

/// What is reported when the tool could not be started for an upgrade.
pub open spec fn upgrade_launch_failure(reason: Seq<char>) -> Seq<char> {
    "Failed to execute ferium upgrade: "@ + reason
}

/// The result of an upgrade, given what the run of the tool's upgrade command
/// came to. Only a tool that could not be started is an error.
pub fn upgrade_mods(run: &Result<InvocationOutcome, LaunchError>) -> (result: Result<
    UpgradeResult,
    String,
>)
    ensures
        match *run {
            Ok(outcome) => result matches Ok(upgrade) && {
                &&& upgrade.success == outcome.exit_succeeded
                &&& upgrade.output@ == combined_output(outcome.stdout@, outcome.stderr@)
                &&& upgrade.consistent()
            },
            Err(error) => result matches Err(message) && message@ == upgrade_launch_failure(
                error.reason@,
            ),
        },
{
    match run {
        Ok(outcome) => Ok(
            classify_upgrade(
                outcome.exit_succeeded,
                outcome.stdout.as_str(),
                outcome.stderr.as_str(),
            ),
        ),
        Err(error) => {
            let mut message = "Failed to execute ferium upgrade: ".to_string();
            message.append(error.reason.as_str());
            Err(message)
        },
    }
}

} // verus!
