//! Importing a batch of mods: one run of the tool's add command for each
//! identifier that is not blank, in the order given, each run told apart as
//! accepted or rejected, and the whole summed up at the end.
//!
//! The library does not start the tool. An `ImportRun` says which command is
//! due next and takes what the run of it came to; the caller runs the tool.

use vstd::prelude::*;
use crate::decimal::{decimal, decimal_string};
use crate::names::{added_name, extract_mod_name_from_output, first_capture};
use crate::text::{is_blank, is_blank_text};
use crate::tool::{InvocationOutcome, LaunchError, ToolCommand};

verus! {

/// The result of importing a batch of mods.
#[derive(Clone, Debug)]
pub struct ImportResult {
    /// No identifier was rejected.
    pub success: bool,
    pub message: String,
    /// The mods that the tool accepted, under the names it reported.
    pub processed_mods: Vec<String>,
    /// The identifiers that the tool rejected or could not be started for.
    pub failed_mods: Vec<String>,
}

/// The summary of a batch in which every identifier was accepted.
pub open spec fn all_imported_message(processed: nat) -> Seq<char> {
    "✅ Successfully imported "@ + decimal(processed) + " mods"@
}

/// The summary of a batch in which some identifier was rejected.
pub open spec fn some_failed_message(processed: nat, failed: nat) -> Seq<char> {
    "⚠️ Imported "@ + decimal(processed) + " mods, "@ + decimal(failed) + " failed"@
}

/// The summary of a batch, given how many mods were accepted and rejected.
pub open spec fn import_message(processed: nat, failed: nat) -> Seq<char> {
    if failed == 0 {
        all_imported_message(processed)
    } else {
        some_failed_message(processed, failed)
    }
}

impl ImportResult {
    /// The flag and the message say what the two lists hold.
    pub open spec fn consistent(&self) -> bool {
        &&& self.success == (self.failed_mods@.len() == 0)
        &&& self.message@ == import_message(self.processed_mods@.len(), self.failed_mods@.len())
    }

    /// The result that stands for the two lists.
    pub fn new(processed_mods: Vec<String>, failed_mods: Vec<String>) -> (result: ImportResult)
        ensures
            result.consistent(),
            result.success == (failed_mods@.len() == 0),
            result.processed_mods == processed_mods,
            result.failed_mods == failed_mods,
    {
        let success = failed_mods.len() == 0;
        let message = if success {
            let mut message = "✅ Successfully imported ".to_string();
            message.append(decimal_string(processed_mods.len()).as_str());
            message.append(" mods");
            message
        } else {
            let mut message = "⚠️ Imported ".to_string();
            message.append(decimal_string(processed_mods.len()).as_str());
            message.append(" mods, ");
            message.append(decimal_string(failed_mods.len()).as_str());
            message.append(" failed");
            message
        };
        ImportResult { success, message, processed_mods, failed_mods }
    }
}

/// The identifiers of `identifiers` that are not blank, in order.
pub open spec fn non_blank(identifiers: Seq<Seq<char>>) -> Seq<Seq<char>>
    decreases identifiers.len(),
{
    if identifiers.len() == 0 {
        Seq::empty()
    } else if is_blank(identifiers[0]) {
        non_blank(identifiers.drop_first())
    } else {
        seq![identifiers[0]] + non_blank(identifiers.drop_first())
    }
}

/// How far an import has come.
pub struct ImportProgress {
    /// The identifiers that the tool has yet to be run for, in order.
    pub pending: Seq<Seq<char>>,
    /// The names of the mods accepted so far.
    pub processed: Seq<Seq<char>>,
    /// The identifiers rejected so far.
    pub failed: Seq<Seq<char>>,
}

/// The name that the tool reported in the standard output of an add command.
pub open spec fn recovered_name(stdout: Seq<char>) -> Option<Seq<char>> {
    added_name(first_capture(stdout, 0), stdout)
}

/// The name under which an accepted mod is listed: the one that the tool
/// reported, or the identifier it was asked for where it reported none.
pub open spec fn accepted_name(identifier: Seq<char>, stdout: Seq<char>) -> Seq<char> {
    match recovered_name(stdout) {
        Some(name) => name,
        None => identifier,
    }
}

/// The run shows that the tool accepted the mod: it started and ended well.
pub open spec fn is_accepted(run: Result<InvocationOutcome, LaunchError>) -> bool {
    run matches Ok(outcome) && outcome.exit_succeeded
}

/// An import before the tool has run: every identifier that is not blank is
/// pending.
pub open spec fn start(identifiers: Seq<Seq<char>>) -> ImportProgress {
    ImportProgress {
        pending: non_blank(identifiers),
        processed: Seq::empty(),
        failed: Seq::empty(),
    }
}

/// The import after the run for the first pending identifier. With nothing
/// pending a run changes nothing.
pub open spec fn advance(
    progress: ImportProgress,
    run: Result<InvocationOutcome, LaunchError>,
) -> ImportProgress {
    if progress.pending.len() == 0 {
        progress
    } else {
        let identifier = progress.pending[0];
        match run {
            Ok(outcome) if outcome.exit_succeeded => ImportProgress {
                pending: progress.pending.drop_first(),
                processed: progress.processed.push(accepted_name(identifier, outcome.stdout@)),
                failed: progress.failed,
            },
            _ => ImportProgress {
                pending: progress.pending.drop_first(),
                processed: progress.processed,
                failed: progress.failed.push(identifier),
            },
        }
    }
}

/// The import of `identifiers` after the runs `runs`, the first run for the
/// first identifier that is not blank, and so on.
pub open spec fn replay(
    identifiers: Seq<Seq<char>>,
    runs: Seq<Result<InvocationOutcome, LaunchError>>,
) -> ImportProgress
    decreases runs.len(),
{
    if runs.len() == 0 {
        start(identifiers)
    } else {
        advance(replay(identifiers, runs.drop_last()), runs.last())
    }
}

/// What an add command that was run for `identifier` leaves in a status line
/// that shows the latest run only.
pub open spec fn status_line(
    identifier: Seq<char>,
    run: Result<InvocationOutcome, LaunchError>,
) -> Seq<char> {
    match run {
        Ok(outcome) => if outcome.exit_succeeded {
            outcome.stdout@
        } else {
            "Command failed for mod '"@ + identifier + "': "@ + outcome.stderr@
        },
        Err(error) => "Failed to execute command for mod '"@ + identifier + "': "@
            + error.reason@,
    }
}

/// The status line for the run of an add command.
pub fn invocation_status(identifier: &str, run: &Result<InvocationOutcome, LaunchError>) -> (status:
    String)
    ensures
        status@ == status_line(identifier@, *run),
{
    match run {
        Ok(outcome) => {
            if outcome.exit_succeeded {
                outcome.stdout.clone()
            } else {
                let mut status = "Command failed for mod '".to_string();
                status.append(identifier);
                status.append("': ");
                status.append(outcome.stderr.as_str());
                status
            }
        },
        Err(error) => {
            let mut status = "Failed to execute command for mod '".to_string();
            status.append(identifier);
            status.append("': ");
            status.append(error.reason.as_str());
            status
        },
    }
}

/// Blank identifiers at the front count for nothing.
proof fn lemma_non_blank_skips(identifiers: Seq<Seq<char>>, from: int, to: int)
    requires
        0 <= from <= to <= identifiers.len(),
        forall|k: int| from <= k < to ==> is_blank(#[trigger] identifiers[k]),
    ensures
        non_blank(identifiers.skip(from)) == non_blank(identifiers.skip(to)),
    decreases to - from,
{
    if from < to {
        assert(identifiers.skip(from)[0] == identifiers[from]);
        assert(identifiers.skip(from).drop_first() =~= identifiers.skip(from + 1));
        lemma_non_blank_skips(identifiers, from + 1, to);
    }
}

/// The identifiers that are not blank, counted over a batch and one more.
proof fn lemma_non_blank_push(identifiers: Seq<Seq<char>>, last: Seq<char>)
    ensures
        non_blank(identifiers.push(last)) == if is_blank(last) {
            non_blank(identifiers)
        } else {
            non_blank(identifiers).push(last)
        },
    decreases identifiers.len(),
{
    let all = identifiers.push(last);
    if identifiers.len() == 0 {
        assert(all.drop_first() =~= Seq::<Seq<char>>::empty());
        assert(non_blank(all.drop_first()) =~= Seq::<Seq<char>>::empty());
        assert(seq![last] + Seq::<Seq<char>>::empty() =~= Seq::<Seq<char>>::empty().push(last));
    } else {
        assert(all.drop_first() =~= identifiers.drop_first().push(last));
        lemma_non_blank_push(identifiers.drop_first(), last);
        if !is_blank(identifiers[0]) {
            if !is_blank(last) {
                assert(seq![identifiers[0]] + non_blank(identifiers.drop_first()).push(last)
                    =~= (seq![identifiers[0]] + non_blank(identifiers.drop_first())).push(last));
            }
        }
    }
}

/// An import under way: the batch, and what became of the identifiers that
/// the tool has been run for.
pub struct ImportRun {
    identifiers: Vec<String>,
    /// The index of the identifier that the tool is to be run for next.
    cursor: usize,
    processed: Vec<String>,
    failed: Vec<String>,
}

impl View for ImportRun {
    type V = ImportProgress;

    closed spec fn view(&self) -> ImportProgress {
        ImportProgress {
            pending: non_blank(self.identifiers.deep_view().skip(self.cursor as int)),
            processed: self.processed.deep_view(),
            failed: self.failed.deep_view(),
        }
    }
}

/// The first index from `from` on at which an identifier that is not blank
/// stands, or the length of the batch.
fn next_non_blank(identifiers: &Vec<String>, from: usize) -> (at: usize)
    requires
        from <= identifiers.len(),
    ensures
        from <= at <= identifiers.len(),
        at < identifiers.len() ==> !is_blank(identifiers[at as int]@),
        non_blank(identifiers.deep_view().skip(at as int)) == non_blank(
            identifiers.deep_view().skip(from as int),
        ),
        non_blank(identifiers.deep_view().take(at as int)) == non_blank(
            identifiers.deep_view().take(from as int),
        ),
{
    let mut at: usize = from;
    let ghost batch = identifiers.deep_view();
    while at < identifiers.len()
        invariant
            from <= at <= identifiers.len(),
            batch == identifiers.deep_view(),
            forall|k: int| from <= k < at ==> is_blank(#[trigger] batch[k]),
            non_blank(batch.take(at as int)) == non_blank(batch.take(from as int)),
        ensures
            from <= at <= identifiers.len(),
            forall|k: int| from <= k < at ==> is_blank(#[trigger] batch[k]),
            at < identifiers.len() ==> !is_blank(batch[at as int]),
            non_blank(batch.take(at as int)) == non_blank(batch.take(from as int)),
        decreases identifiers.len() - at,
    {
        if !is_blank_text(identifiers[at].as_str()) {
            break ;
        }
        proof {
            assert(batch.take(at + 1) =~= batch.take(at as int).push(batch[at as int]));
            lemma_non_blank_push(batch.take(at as int), batch[at as int]);
        }
        at += 1;
    }
    proof {
        lemma_non_blank_skips(batch, from as int, at as int);
    }
    at
}

impl ImportRun {
    #[verifier::type_invariant]
    spec fn well_formed(&self) -> bool {
        let batch = self.identifiers.deep_view();
        &&& self.cursor <= self.identifiers.len()
        &&& self.cursor < self.identifiers.len() ==> !is_blank(batch[self.cursor as int])
        &&& self.processed.len() + self.failed.len() == non_blank(
            batch.take(self.cursor as int),
        ).len()
    }

    /// The identifiers that the import was started with.
    pub closed spec fn batch(&self) -> Seq<Seq<char>> {
        self.identifiers.deep_view()
    }

    /// Starts the import of `identifiers`. Nothing has run yet.
    pub fn new(identifiers: Vec<String>) -> (run: ImportRun)
        ensures
            run@ == start(identifiers.deep_view()),
            run.batch() == identifiers.deep_view(),
    {
        let cursor = next_non_blank(&identifiers, 0);
        proof {
            let batch = identifiers.deep_view();
            assert(batch.skip(0) =~= batch);
            assert(batch.take(0) =~= Seq::<Seq<char>>::empty());
        }
        let processed: Vec<String> = Vec::new();
        let failed: Vec<String> = Vec::new();
        assert(processed.deep_view() =~= Seq::<Seq<char>>::empty());
        assert(failed.deep_view() =~= Seq::<Seq<char>>::empty());
        ImportRun { identifiers, cursor, processed, failed }
    }

    /// The command that is due next: the add command for the first pending
    /// identifier, or `None` when the tool has been run for all of them.
    pub fn next_command(&self) -> (command: Option<ToolCommand>)
        ensures
            match command {
                Some(ToolCommand::Add(identifier)) => self@.pending.len() > 0 && identifier@
                    == self@.pending[0],
                Some(_) => false,
                None => self@.pending.len() == 0,
            },
    {
        proof {
            use_type_invariant(self);
            self.lemma_pending();
        }
        if self.cursor < self.identifiers.len() {
            Some(ToolCommand::Add(self.identifiers[self.cursor].clone()))
        } else {
            None
        }
    }

    /// Whether the tool has yet to be run for some identifier.
    pub fn has_pending(&self) -> (pending: bool)
        ensures
            pending == (self@.pending.len() > 0),
    {
        proof {
            use_type_invariant(self);
            self.lemma_pending();
        }
        self.cursor < self.identifiers.len()
    }

    /// What is pending, read off the cursor.
    proof fn lemma_pending(&self)
        requires
            self.cursor <= self.identifiers.len(),
            self.cursor < self.identifiers.len() ==> !is_blank(
                self.identifiers.deep_view()[self.cursor as int],
            ),
        ensures
            self.cursor == self.identifiers.len() ==> self@.pending.len() == 0,
            self.cursor < self.identifiers.len() ==> self@.pending.len() > 0 && self@.pending[0]
                == self.identifiers[self.cursor as int]@ && self@.pending.drop_first()
                == non_blank(self.identifiers.deep_view().skip(self.cursor + 1)),
    {
        let batch = self.identifiers.deep_view();
        let rest = batch.skip(self.cursor as int);
        if self.cursor < self.identifiers.len() {
            assert(rest[0] == batch[self.cursor as int]);
            assert(rest.drop_first() =~= batch.skip(self.cursor + 1));
            assert((seq![rest[0]] + non_blank(rest.drop_first())).drop_first() =~= non_blank(
                rest.drop_first(),
            ));
        }
    }

    /// Takes what the run of the command that was due came to: the mod is
    /// listed as accepted, under the name that the tool reported or else under
    /// its identifier, or the identifier is listed as rejected. With no
    /// command due, nothing changes.
    pub fn record(self, run: &Result<InvocationOutcome, LaunchError>) -> (next: ImportRun)
        ensures
            next@ == advance(self@, *run),
            next.batch() == self.batch(),
    {
        proof {
            use_type_invariant(&self);
            self.lemma_pending();
        }
        let ghost before = self@;
        let ImportRun { identifiers, cursor, mut processed, mut failed } = self;
        if cursor >= identifiers.len() {
            return ImportRun { identifiers, cursor, processed, failed };
        }
        let ghost batch = identifiers.deep_view();
        let ghost old_processed = processed.deep_view();
        let ghost old_failed = failed.deep_view();
        let identifier = identifiers[cursor].clone();
        let accepted = match run {
            Ok(outcome) => outcome.exit_succeeded,
            Err(_) => false,
        };
        match run {
            Ok(outcome) if accepted => {
                let name = match extract_mod_name_from_output(outcome.stdout.as_str()) {
                    Some(name) => name,
                    None => identifier,
                };
                processed.push(name);
                assert(processed.deep_view() =~= old_processed.push(
                    accepted_name(batch[cursor as int], outcome.stdout@),
                ));
                assert(failed.deep_view() =~= old_failed);
            },
            _ => {
                failed.push(identifier);
                assert(failed.deep_view() =~= old_failed.push(batch[cursor as int]));
                assert(processed.deep_view() =~= old_processed);
            },
        }
        proof {
            assert(batch.take(cursor + 1) =~= batch.take(cursor as int).push(batch[cursor as int]));
            lemma_non_blank_push(batch.take(cursor as int), batch[cursor as int]);
        }
        let following = next_non_blank(&identifiers, cursor + 1);
        ImportRun { identifiers, cursor: following, processed, failed }
    }

    /// Sums the import up. Each identifier of the batch that is not blank is
    /// pending, accepted or rejected; a result taken when nothing is pending
    /// accounts for all of them.
    pub fn finish(self) -> (result: ImportResult)
        ensures
            result.consistent(),
            result.success == (self@.failed.len() == 0),
            result.processed_mods.deep_view() == self@.processed,
            result.failed_mods.deep_view() == self@.failed,
            result.processed_mods.len() + result.failed_mods.len() + self@.pending.len()
                == non_blank(self.batch()).len(),
    {
        proof {
            use_type_invariant(&self);
            self.lemma_accounted();
        }
        let ImportRun { identifiers, cursor, processed, failed } = self;
        ImportResult::new(processed, failed)
    }

    /// Every identifier that is not blank is accounted for.
    proof fn lemma_accounted(&self)
        requires
            self.cursor <= self.identifiers.len(),
            self.processed.len() + self.failed.len() == non_blank(
                self.identifiers.deep_view().take(self.cursor as int),
            ).len(),
        ensures
            self.processed.len() + self.failed.len() + self@.pending.len() == non_blank(
                self.batch(),
            ).len(),
    {
        lemma_non_blank_split(self.identifiers.deep_view(), self.cursor as int);
    }
}

/// Counting before and after an index counts all.
proof fn lemma_non_blank_split(identifiers: Seq<Seq<char>>, at: int)
    requires
        0 <= at <= identifiers.len(),
    ensures
        non_blank(identifiers) == non_blank(identifiers.take(at)) + non_blank(
            identifiers.skip(at),
        ),
    decreases identifiers.len() - at,
{
    if at == identifiers.len() {
        assert(identifiers.take(at) =~= identifiers);
        assert(identifiers.skip(at) =~= Seq::<Seq<char>>::empty());
        assert(non_blank(identifiers) + Seq::<Seq<char>>::empty() =~= non_blank(identifiers));
    } else {
        lemma_non_blank_split(identifiers, at + 1);
        assert(identifiers.take(at + 1) =~= identifiers.take(at).push(identifiers[at]));
        lemma_non_blank_push(identifiers.take(at), identifiers[at]);
        let rest = identifiers.skip(at);
        assert(rest[0] == identifiers[at]);
        assert(rest.drop_first() =~= identifiers.skip(at + 1));
        if !is_blank(identifiers[at]) {
            assert(non_blank(identifiers.take(at)).push(identifiers[at]) + non_blank(
                identifiers.skip(at + 1),
            ) =~= non_blank(identifiers.take(at)) + (seq![identifiers[at]] + non_blank(
                identifiers.skip(at + 1),
            )));
        }
    }
}

/// The result of importing `mod_list`, given what the runs of the tool's add
/// command came to: the first run for the first identifier that is not blank,
/// and so on. Runs beyond the last identifier count for nothing; identifiers
/// beyond the last run are left out of the result.
pub fn import_mods(
    mod_list: Vec<String>,
    runs: &Vec<Result<InvocationOutcome, LaunchError>>,
) -> (result: ImportResult)
    ensures
        result.consistent(),
        result.processed_mods.deep_view() == replay(mod_list.deep_view(), runs@).processed,
        result.failed_mods.deep_view() == replay(mod_list.deep_view(), runs@).failed,
        runs.len() >= non_blank(mod_list.deep_view()).len() ==> result.processed_mods.len()
            + result.failed_mods.len() == non_blank(mod_list.deep_view()).len(),
{
    let ghost identifiers = mod_list.deep_view();
    proof {
        lemma_every_identifier_counted(identifiers, runs@);
    }
    let mut state = ImportRun::new(mod_list);
    let mut i: usize = 0;
    assert(runs@.take(0) =~= Seq::<Result<InvocationOutcome, LaunchError>>::empty());
    while i < runs.len()
        invariant
            i <= runs.len(),
            state@ == replay(identifiers, runs@.take(i as int)),
        decreases runs.len() - i,
    {
        proof {
            let upto = runs@.take(i + 1);
            assert(upto.drop_last() =~= runs@.take(i as int));
            assert(upto.last() == runs@[i as int]);
        }
        state = state.record(&runs[i]);
        i += 1;
    }
    assert(runs@.take(runs.len() as int) =~= runs@);
    state.finish()
}

/// The identifiers that are kept are those of the batch that are not blank.
pub proof fn lemma_non_blank_members(identifiers: Seq<Seq<char>>)
    ensures
        non_blank(identifiers).len() <= identifiers.len(),
        forall|j: int|
            0 <= j < non_blank(identifiers).len() ==> !is_blank(
                #[trigger] non_blank(identifiers)[j],
            ) && identifiers.contains(non_blank(identifiers)[j]),
    decreases identifiers.len(),
{
    if identifiers.len() > 0 {
        let rest = identifiers.drop_first();
        lemma_non_blank_members(rest);
        let kept = non_blank(identifiers);
        assert forall|j: int| 0 <= j < kept.len() implies !is_blank(#[trigger] kept[j])
            && identifiers.contains(kept[j]) by {
            if !is_blank(identifiers[0]) && j == 0 {
                assert(kept[0] == identifiers[0]);
            } else {
                let k = if is_blank(identifiers[0]) {
                    j
                } else {
                    j - 1
                };
                assert(kept[j] == non_blank(rest)[k]);
                let at = choose|at: int| 0 <= at < rest.len() && rest[at] == non_blank(rest)[k];
                assert(identifiers[at + 1] == kept[j]);
            }
        }
    }
}

/// One run settles one identifier: after `runs`, as many identifiers are
/// listed as accepted or rejected as there were runs, until every identifier
/// of the batch that is not blank is listed. From then on the two lists hold
/// as many entries as the batch holds identifiers that are not blank.
pub proof fn lemma_every_identifier_counted(
    identifiers: Seq<Seq<char>>,
    runs: Seq<Result<InvocationOutcome, LaunchError>>,
)
    ensures
        ({
            let progress = replay(identifiers, runs);
            let count = non_blank(identifiers).len();
            let settled = if runs.len() <= count {
                runs.len()
            } else {
                count
            };
            &&& progress.processed.len() + progress.failed.len() == settled
            &&& progress.pending == non_blank(identifiers).skip(settled as int)
            &&& runs.len() >= count ==> progress.pending.len() == 0 && progress.processed.len()
                + progress.failed.len() == count
        }),
    decreases runs.len(),
{
    let kept = non_blank(identifiers);
    if runs.len() == 0 {
        assert(kept.skip(0) =~= kept);
    } else {
        lemma_every_identifier_counted(identifiers, runs.drop_last());
        let before = replay(identifiers, runs.drop_last());
        let settled = before.processed.len() + before.failed.len();
        if before.pending.len() > 0 {
            assert(kept.skip(settled as int).drop_first() =~= kept.skip(settled as int + 1));
        }
    }
}

/// `name` is an identifier of the batch that is not blank, or a name that
/// the tool reported in one of the runs.
pub open spec fn is_listable(
    identifiers: Seq<Seq<char>>,
    runs: Seq<Result<InvocationOutcome, LaunchError>>,
    name: Seq<char>,
) -> bool {
    ||| !is_blank(name) && identifiers.contains(name)
    ||| exists|k: int|
        0 <= k < runs.len() && is_accepted(#[trigger] runs[k]) && recovered_name(
            runs[k]->Ok_0.stdout@,
        ) == Some(name)
}

/// A blank identifier is never listed. What is listed as rejected is an
/// identifier of the batch that is not blank, and so is what is still
/// pending; what is listed as accepted is such an identifier or else a name
/// that the tool reported.
pub proof fn lemma_blank_identifiers_left_out(
    identifiers: Seq<Seq<char>>,
    runs: Seq<Result<InvocationOutcome, LaunchError>>,
)
    ensures
        ({
            let progress = replay(identifiers, runs);
            &&& forall|j: int|
                0 <= j < progress.failed.len() ==> !is_blank(#[trigger] progress.failed[j])
                    && identifiers.contains(progress.failed[j])
            &&& forall|j: int|
                0 <= j < progress.pending.len() ==> !is_blank(#[trigger] progress.pending[j])
                    && identifiers.contains(progress.pending[j])
            &&& forall|j: int|
                0 <= j < progress.processed.len() ==> is_listable(
                    identifiers,
                    runs,
                    #[trigger] progress.processed[j],
                )
        }),
    decreases runs.len(),
{
    let progress = replay(identifiers, runs);
    if runs.len() == 0 {
        lemma_non_blank_members(identifiers);
    } else {
        let earlier = runs.drop_last();
        let before = replay(identifiers, earlier);
        lemma_blank_identifiers_left_out(identifiers, earlier);
        assert forall|j: int| 0 <= j < progress.pending.len() implies !is_blank(
            #[trigger] progress.pending[j],
        ) && identifiers.contains(progress.pending[j]) by {
            if before.pending.len() > 0 {
                assert(progress.pending[j] == before.pending[j + 1]);
            }
        }
        assert forall|j: int| 0 <= j < progress.failed.len() implies !is_blank(
            #[trigger] progress.failed[j],
        ) && identifiers.contains(progress.failed[j]) by {
            if j < before.failed.len() {
                assert(progress.failed[j] == before.failed[j]);
            } else {
                assert(progress.failed[j] == before.pending[0]);
            }
        }
        assert forall|j: int| 0 <= j < progress.processed.len() implies is_listable(
            identifiers,
            runs,
            #[trigger] progress.processed[j],
        ) by {
            let name = progress.processed[j];
            if j < before.processed.len() {
                assert(name == before.processed[j]);
                assert(is_listable(identifiers, earlier, name));
                if !(!is_blank(name) && identifiers.contains(name)) {
                    let k = choose|k: int|
                        0 <= k < earlier.len() && is_accepted(#[trigger] earlier[k])
                            && recovered_name(earlier[k]->Ok_0.stdout@) == Some(name);
                    assert(runs[k] == earlier[k]);
                }
            } else {
                let last = runs.len() - 1;
                assert(is_accepted(runs[last]));
                let stdout = runs[last]->Ok_0.stdout@;
                assert(name == accepted_name(before.pending[0], stdout));
                if recovered_name(stdout) is None {
                    assert(name == before.pending[0]);
                }
            }
        }
    }
}

} // verus!
