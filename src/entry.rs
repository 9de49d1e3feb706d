//! Mirroring one entry: the steps it takes, and how their outcomes decide
//! what happens next.
use vstd::prelude::*;
use crate::config::{create_info, header_text, SyncConfiguration, SyncEntryModel};
use crate::location::{joined_path, parent_of, resolve_target};

verus! {

/// One piece of outside work that mirroring an entry needs.
#[derive(Clone, Debug, PartialEq, Eq)]
pub enum Step {
    /// Create this directory and any missing ancestors.
    CreateDirectories(String),
    /// Request the remote file at this address.
    Fetch(String),
    /// Create this local file, or truncate it if it exists.
    CreateFile(String),
    /// Write this text to the created file.
    WriteHeader(String),
    /// Copy the fetched body to the created file, after what it holds.
    CopyBody,
}

/// A step as plain values.
pub enum StepModel {
    CreateDirectories(Seq<char>),
    Fetch(Seq<char>),
    CreateFile(Seq<char>),
    WriteHeader(Seq<char>),
    CopyBody,
}

impl View for Step {
    type V = StepModel;

    open spec fn view(&self) -> StepModel {
        match self {
            Step::CreateDirectories(d) => StepModel::CreateDirectories(d@),
            Step::Fetch(u) => StepModel::Fetch(u@),
            Step::CreateFile(p) => StepModel::CreateFile(p@),
            Step::WriteHeader(t) => StepModel::WriteHeader(t@),
            Step::CopyBody => StepModel::CopyBody,
        }
    }
}

/// Why one entry could not be mirrored. None of these stops the batch.
#[derive(PartialEq, Eq, Structural, Clone, Copy, Debug)]
pub enum EntryError {
    /// The resolved local path has no parent directory.
    InvalidPath,
    /// The parent directories could not be created.
    CreateDirectories,
    /// The remote file could not be obtained.
    RemoteUnavailable,
    /// The local file could not be created or opened.
    CreateFile,
    /// The header could not be written.
    WriteHeader,
    /// The body could not be copied to the local file.
    CopyBody,
}

/// The message of each entry error.
pub open spec fn entry_error_text(e: EntryError) -> Seq<char> {
    match e {
        EntryError::InvalidPath => "Invalid path"@,
        EntryError::CreateDirectories => "Couldn't create parent directories"@,
        EntryError::RemoteUnavailable => "Couldn't access remote location"@,
        EntryError::CreateFile => "Couldn't create or open file"@,
        EntryError::WriteHeader => "Couldn't write to file"@,
        EntryError::CopyBody => "Couldn't download file"@,
    }
}

impl EntryError {
    /// The message reported for this error.
    pub fn message(&self) -> (r: &'static str)
        ensures
            r@ == entry_error_text(*self),
    {
        match self {
            EntryError::InvalidPath => "Invalid path",
            EntryError::CreateDirectories => "Couldn't create parent directories",
            EntryError::RemoteUnavailable => "Couldn't access remote location",
            EntryError::CreateFile => "Couldn't create or open file",
            EntryError::WriteHeader => "Couldn't write to file",
            EntryError::CopyBody => "Couldn't download file",
        }
    }
}

/// The error that a failure of `s` stands for.
pub open spec fn spec_failure_of(s: StepModel) -> EntryError {
    match s {
        StepModel::CreateDirectories(_) => EntryError::CreateDirectories,
        StepModel::Fetch(_) => EntryError::RemoteUnavailable,
        StepModel::CreateFile(_) => EntryError::CreateFile,
        StepModel::WriteHeader(_) => EntryError::WriteHeader,
        StepModel::CopyBody => EntryError::CopyBody,
    }
}

/// The error reported when `step` fails.
pub fn failure_of(step: &Step) -> (r: EntryError)
    ensures
        r == spec_failure_of(step@),
{
    match step {
        Step::CreateDirectories(_) => EntryError::CreateDirectories,
        Step::Fetch(_) => EntryError::RemoteUnavailable,
        Step::CreateFile(_) => EntryError::CreateFile,
        Step::WriteHeader(_) => EntryError::WriteHeader,
        Step::CopyBody => EntryError::CopyBody,
    }
}

/// The steps that mirror entry `e` to local file `path` inside directory `dir`:
/// create the directory, fetch, create the file, write the header unless it
/// is suppressed, copy the body.
pub open spec fn planned_steps(e: SyncEntryModel, path: Seq<char>, dir: Seq<char>) -> Seq<StepModel> {
    seq![
        StepModel::CreateDirectories(dir),
        StepModel::Fetch(e.remote),
        StepModel::CreateFile(path),
    ] + if e.suppress_comments {
        Seq::<StepModel>::empty()
    } else {
        seq![StepModel::WriteHeader(header_text(e.comment_prefix, e.remote))]
    } + seq![StepModel::CopyBody]
}

/// The steps that mirror `entry` to `path`, given the parent directory of
/// `path` if it has one; without one the entry is rejected before any step.
pub fn plan_steps(entry: &SyncConfiguration, path: &String, dir: &Option<String>) -> (r: Result<
    Vec<Step>,
    EntryError,
>)
    ensures
        match dir {
            None => r == Err::<Vec<Step>, EntryError>(EntryError::InvalidPath),
            Some(d) => r is Ok && r->Ok_0@.map_values(|s: Step| s@) == planned_steps(
                entry@,
                path@,
                d@,
            ),
        },
{
    let d = match dir {
        None => {
            return Err(EntryError::InvalidPath);
        },
        Some(d) => d,
    };
    let mut steps: Vec<Step> = Vec::new();
    steps.push(Step::CreateDirectories(d.clone()));
    steps.push(Step::Fetch(entry.remote.clone()));
    steps.push(Step::CreateFile(path.clone()));
    if !entry.suppress_comments {
        steps.push(Step::WriteHeader(create_info(entry)));
    }
    steps.push(Step::CopyBody);
    assert(steps@.map_values(|s: Step| s@) =~= planned_steps(entry@, path@, d@));
    Ok(steps)
}

/// The text of the local file after `s`, where `text` stood before it and
/// `body` is what the remote served.
pub open spec fn apply_step(text: Seq<char>, s: StepModel, body: Seq<char>) -> Seq<char> {
    match s {
        StepModel::CreateFile(_) => Seq::empty(),
        StepModel::WriteHeader(t) => text + t,
        StepModel::CopyBody => text + body,
        _ => text,
    }
}

/// The text of the local file once all of `steps` have succeeded.
pub open spec fn file_text(steps: Seq<StepModel>, body: Seq<char>) -> Seq<char>
    decreases steps.len(),
{
    if steps.len() == 0 {
        Seq::empty()
    } else {
        apply_step(file_text(steps.drop_last(), body), steps.last(), body)
    }
}

/// A mirrored file holds the header followed by the remote content, or the
/// remote content alone where headers are suppressed.
pub proof fn lemma_mirrored_text(e: SyncEntryModel, path: Seq<char>, dir: Seq<char>, body: Seq<char>)
    ensures
        file_text(planned_steps(e, path, dir), body) == if e.suppress_comments {
            body
        } else {
            header_text(e.comment_prefix, e.remote) + body
        },
{
    let steps = planned_steps(e, path, dir);
    let s3 = seq![
        StepModel::CreateDirectories(dir),
        StepModel::Fetch(e.remote),
        StepModel::CreateFile(path),
    ];
    reveal_with_fuel(file_text, 2);
    assert(s3.drop_last().drop_last() =~= seq![StepModel::CreateDirectories(dir)]);
    assert(s3.drop_last().drop_last().drop_last() =~= Seq::<StepModel>::empty());
    assert(file_text(s3.drop_last().drop_last(), body) == Seq::<char>::empty());
    assert(file_text(s3.drop_last(), body) == Seq::<char>::empty());
    assert(file_text(s3, body) == Seq::<char>::empty());
    if e.suppress_comments {
        assert(steps.drop_last() =~= s3);
        assert(Seq::<char>::empty() + body =~= body);
    } else {
        let h = header_text(e.comment_prefix, e.remote);
        assert(steps.drop_last().drop_last() =~= s3);
        assert(steps.drop_last().last() == StepModel::WriteHeader(h));
        assert(Seq::<char>::empty() + h =~= h);
    }
}

/// The progress of mirroring one entry, as plain values.
pub struct EntryTaskModel {
    pub steps: Seq<StepModel>,
    pub next: nat,
    pub outcome: Option<Result<(), EntryError>>,
}

/// Mirroring one entry: the planned steps, how many have succeeded, and the
/// outcome once there is one. The caller performs `current` and reports
/// whether it succeeded, until an outcome is set.
pub struct EntryTask {
    steps: Vec<Step>,
    next: usize,
    outcome: Option<Result<(), EntryError>>,
}

impl View for EntryTask {
    type V = EntryTaskModel;

    closed spec fn view(&self) -> EntryTaskModel {
        EntryTaskModel {
            steps: self.steps@.map_values(|s: Step| s@),
            next: self.next as nat,
            outcome: self.outcome,
        }
    }
}

/// No step runs past the plan, and a task without an outcome has a step to do.
pub open spec fn task_wf(m: EntryTaskModel) -> bool {
    &&& m.next <= m.steps.len()
    &&& m.outcome is None ==> m.next < m.steps.len()
}

/// The task after its current step succeeded (`succeeded`) or failed: a
/// failure ends it with that step's error; the last success ends it with `Ok`.
pub open spec fn advance(m: EntryTaskModel, succeeded: bool) -> EntryTaskModel {
    if succeeded {
        EntryTaskModel {
            steps: m.steps,
            next: m.next + 1,
            outcome: if m.next + 1 == m.steps.len() {
                Some(Ok(()))
            } else {
                None
            },
        }
    } else {
        EntryTaskModel {
            steps: m.steps,
            next: m.next,
            outcome: Some(Err(spec_failure_of(m.steps[m.next as int]))),
        }
    }
}

/// The task after its steps had these outcomes, in order.
pub open spec fn replay_task(m: EntryTaskModel, results: Seq<bool>) -> EntryTaskModel
    decreases results.len(),
{
    if results.len() == 0 {
        m
    } else {
        advance(replay_task(m, results.drop_last()), results.last())
    }
}

proof fn lemma_successes(m: EntryTaskModel, results: Seq<bool>)
    requires
        task_wf(m),
        m.outcome is None,
        m.next + results.len() <= m.steps.len(),
        forall|i: int| 0 <= i < results.len() ==> #[trigger] results[i],
    ensures
        replay_task(m, results).steps == m.steps,
        replay_task(m, results).next == m.next + results.len(),
        replay_task(m, results).outcome == if m.next + results.len() == m.steps.len() {
            Some(Ok::<(), EntryError>(()))
        } else {
            None
        },
    decreases results.len(),
{
    if results.len() > 0 {
        let prefix = results.drop_last();
        assert forall|i: int| 0 <= i < prefix.len() implies #[trigger] prefix[i] by {
            assert(prefix[i] == results[i]);
        }
        lemma_successes(m, prefix);
        assert(results.last() == results[results.len() - 1]);
    }
}

/// A task whose steps all succeed ends with `Ok` once the last one has; a
/// task whose steps succeed up to one that fails ends there, with the error
/// of the failed step, and asks for no later step.
pub proof fn lemma_entry_outcome(m: EntryTaskModel, results: Seq<bool>)
    requires
        task_wf(m),
        m.outcome is None,
        m.next == 0,
        0 < results.len() <= m.steps.len(),
        forall|i: int| 0 <= i < results.len() - 1 ==> #[trigger] results[i],
    ensures
        results.last() && results.len() == m.steps.len() ==> replay_task(m, results).outcome
            == Some(Ok::<(), EntryError>(())),
        !results.last() ==> replay_task(m, results).outcome == Some(
            Err::<(), EntryError>(spec_failure_of(m.steps[results.len() - 1])),
        ) && replay_task(m, results).next == results.len() - 1,
{
    let prefix = results.drop_last();
    assert forall|i: int| 0 <= i < prefix.len() implies #[trigger] prefix[i] by {
        assert(prefix[i] == results[i]);
    }
    lemma_successes(m, prefix);
}

impl EntryTask {
    /// Starts mirroring `entry` to `path` in directory `dir`. Without a
    /// directory the task is over before any step, with `InvalidPath`.
    pub fn new(entry: &SyncConfiguration, path: &String, dir: &Option<String>) -> (r: EntryTask)
        ensures
            task_wf(r@),
            r@.next == 0,
            match dir {
                None => r@.steps.len() == 0 && r@.outcome == Some(
                    Err::<(), EntryError>(EntryError::InvalidPath),
                ),
                Some(d) => r@.steps == planned_steps(entry@, path@, d@) && r@.outcome is None,
            },
    {
        match plan_steps(entry, path, dir) {
            Ok(steps) => EntryTask { steps, next: 0, outcome: None },
            Err(e) => {
                let r = EntryTask { steps: Vec::new(), next: 0, outcome: Some(Err(e)) };
                assert(r@.steps =~= Seq::<StepModel>::empty());
                r
            },
        }
    }

    /// Starts mirroring `entry`, whose path is taken relative to `base`.
    pub fn for_entry(entry: &SyncConfiguration, base: &str) -> (r: EntryTask)
        ensures
            task_wf(r@),
            r@.next == 0,
            r@.outcome is Some ==> r@.steps.len() == 0 && r@.outcome == Some(
                Err::<(), EntryError>(EntryError::InvalidPath),
            ),
            r@.outcome is Some <==> parent_of(joined_path(base@, entry.file@)) is None,
            r@.outcome is None ==> r@.steps == planned_steps(
                entry@,
                joined_path(base@, entry.file@),
                parent_of(joined_path(base@, entry.file@))->0,
            ),
    {
        let target = resolve_target(base, entry.file.as_str());
        EntryTask::new(entry, &target.path, &target.dir)
    }

    /// The step to perform now, or none once the task has an outcome.
    pub fn current(&self) -> (r: Option<&Step>)
        requires
            task_wf(self@),
        ensures
            match r {
                Some(s) => self@.outcome is None && s@ == self@.steps[self@.next as int],
                None => self@.outcome is Some,
            },
    {
        assert(self@.steps.len() == self.steps@.len());
        if self.outcome.is_none() {
            Some(&self.steps[self.next])
        } else {
            None
        }
    }

    /// Records whether the current step succeeded.
    pub fn report(&mut self, succeeded: bool)
        requires
            task_wf(old(self)@),
            old(self)@.outcome is None,
        ensures
            final(self)@ == advance(old(self)@, succeeded),
            task_wf(final(self)@),
    {
        assert(self@.steps.len() == self.steps@.len());
        let n: usize = self.steps.len();
        if succeeded {
            self.next = self.next + 1;
            if self.next == n {
                self.outcome = Some(Ok(()));
            }
        } else {
            let e = failure_of(&self.steps[self.next]);
            self.outcome = Some(Err(e));
        }
    }

    /// How mirroring ended, once it has.
    pub fn outcome(&self) -> (r: Option<Result<(), EntryError>>)
        ensures
            r == self@.outcome,
    {
        self.outcome
    }
}

} // verus!
