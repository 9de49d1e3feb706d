//! A batch: every entry of a configuration is attempted once, in file order,
//! whatever became of the ones before it.
use vstd::prelude::*;
use crate::config::{ConfigError, ConfigFile, ConfigModel, decode_config, parse_config, SyncConfiguration, SyncEntryModel};
use crate::entry::{entry_error_text, EntryError};
use crate::json::JsonValue;

verus! {

/// The progress of a batch, as plain values.
pub struct RunModel {
    pub entries: Seq<SyncEntryModel>,
    /// Entries attempted so far.
    pub next: nat,
    /// Attempts that failed so far.
    pub failed: nat,
}

/// A batch in progress. The caller mirrors `next_entry` and records how it
/// went, until no entry is left.
pub struct SyncRun {
    entries: Vec<SyncConfiguration>,
    next: usize,
    failed: usize,
}

impl View for SyncRun {
    type V = RunModel;

    closed spec fn view(&self) -> RunModel {
        RunModel {
            entries: self.entries@.map_values(|e: SyncConfiguration| e@),
            next: self.next as nat,
            failed: self.failed as nat,
        }
    }
}

/// No more entries attempted than listed, and no more failures than attempts.
pub open spec fn run_wf(m: RunModel) -> bool {
    &&& m.next <= m.entries.len()
    &&& m.failed <= m.next
}

/// A batch over the entries of `c`, before any attempt.
pub open spec fn start_model(c: ConfigModel) -> RunModel {
    RunModel { entries: c.entries, next: 0, failed: 0 }
}

/// The batch after one more attempt, which `succeeded` or not.
pub open spec fn record_model(m: RunModel, succeeded: bool) -> RunModel {
    RunModel {
        entries: m.entries,
        next: m.next + 1,
        failed: if succeeded {
            m.failed
        } else {
            m.failed + 1
        },
    }
}

/// The batch after attempts with these outcomes, in order.
pub open spec fn replay(m: RunModel, outcomes: Seq<bool>) -> RunModel
    decreases outcomes.len(),
{
    if outcomes.len() == 0 {
        m
    } else {
        record_model(replay(m, outcomes.drop_last()), outcomes.last())
    }
}

/// How many of these outcomes are failures.
pub open spec fn count_failures(outcomes: Seq<bool>) -> nat
    decreases outcomes.len(),
{
    if outcomes.len() == 0 {
        0
    } else {
        count_failures(outcomes.drop_last()) + if outcomes.last() {
            0nat
        } else {
            1nat
        }
    }
}

impl SyncRun {
    /// A batch over the entries of `config`.
    pub fn new(config: ConfigFile) -> (r: SyncRun)
        ensures
            r@ == start_model(config@),
            run_wf(r@),
    {
        SyncRun { entries: config.sync_files, next: 0, failed: 0 }
    }

    /// The entry to attempt now, or none once every entry has been attempted.
    pub fn next_entry(&self) -> (r: Option<&SyncConfiguration>)
        requires
            run_wf(self@),
        ensures
            match r {
                Some(e) => self@.next < self@.entries.len() && e@ == self@.entries[self@.next as int],
                None => self@.next == self@.entries.len(),
            },
    {
        assert(self@.entries.len() == self.entries@.len());
        if self.next < self.entries.len() {
            Some(&self.entries[self.next])
        } else {
            None
        }
    }

    /// Records how the current entry went. A failure is counted and the
    /// batch moves on all the same.
    pub fn record(&mut self, outcome: &Result<(), EntryError>)
        requires
            run_wf(old(self)@),
            old(self)@.next < old(self)@.entries.len(),
        ensures
            final(self)@ == record_model(old(self)@, outcome is Ok),
            run_wf(final(self)@),
    {
        assert(self@.entries.len() == self.entries@.len());
        let n: usize = self.entries.len();
        assert(self.next < n);
        self.next = self.next + 1;
        if outcome.is_err() {
            self.failed = self.failed + 1;
        }
    }

    /// Entries attempted so far.
    pub fn attempted(&self) -> (r: usize)
        ensures
            r == self@.next,
    {
        self.next
    }

    /// Attempts that failed so far.
    pub fn failed(&self) -> (r: usize)
        ensures
            r == self@.failed,
    {
        self.failed
    }

    /// Whether every entry has been attempted.
    pub fn is_finished(&self) -> (r: bool)
        requires
            run_wf(self@),
        ensures
            r == (self@.next == self@.entries.len()),
    {
        assert(self@.entries.len() == self.entries@.len());
        self.next == self.entries.len()
    }
}

/// Starts a batch from a configuration document; a document that is not a
/// configuration ends the run before any entry is attempted.
pub fn start_run(doc: &JsonValue) -> (r: Result<SyncRun, ConfigError>)
    ensures
        match r {
            Ok(run) => decode_config(*doc) is Some && run@ == start_model(decode_config(*doc)->0)
                && run_wf(run@),
            Err(e) => decode_config(*doc) is None && e == ConfigError::Malformed,
        },
{
    match parse_config(doc) {
        Ok(config) => Ok(SyncRun::new(config)),
        Err(e) => Err(e),
    }
}

/// Every entry is attempted once, however many attempts fail: after one
/// outcome per entry the batch has attempted all of them, and counted each
/// failure.
pub proof fn lemma_every_entry_attempted(c: ConfigModel, outcomes: Seq<bool>)
    requires
        outcomes.len() == c.entries.len(),
    ensures
        replay(start_model(c), outcomes).next == c.entries.len(),
        replay(start_model(c), outcomes).failed == count_failures(outcomes),
        replay(start_model(c), outcomes).entries == c.entries,
{
    lemma_replay_counts(start_model(c), outcomes);
}

proof fn lemma_replay_counts(m: RunModel, outcomes: Seq<bool>)
    ensures
        replay(m, outcomes).next == m.next + outcomes.len(),
        replay(m, outcomes).failed == m.failed + count_failures(outcomes),
        replay(m, outcomes).entries == m.entries,
    decreases outcomes.len(),
{
    if outcomes.len() > 0 {
        lemma_replay_counts(m, outcomes.drop_last());
    }
}

/// The line that reports the version of a loaded configuration.
pub fn version_message(config: &ConfigFile) -> (r: String)
    ensures
        r@ == "Config file version: "@ + config.version@,
{
    let mut r = String::from_str("Config file version: ");
    r.append(config.version.as_str());
    r
}

/// The line logged before an entry is attempted.
pub fn download_message(entry: &SyncConfiguration) -> (r: String)
    ensures
        r@ == "Downloading "@ + entry.file@ + " from "@ + entry.remote@,
{
    let mut r = String::from_str("Downloading ");
    r.append(entry.file.as_str());
    r.append(" from ");
    r.append(entry.remote.as_str());
    r
}

/// The line logged when an entry fails.
pub fn failure_message(e: EntryError) -> (r: String)
    ensures
        r@ == "Failed to download file: "@ + entry_error_text(e),
{
    let mut r = String::from_str("Failed to download file: ");
    r.append(e.message());
    r
}

/// The line reported when the configuration cannot be loaded.
pub fn config_failure_message(e: ConfigError) -> (r: String)
    ensures
        r@ == "Error: "@ + crate::config::config_error_text(e),
{
    let mut r = String::from_str("Error: ");
    r.append(e.message());
    r
}

} // verus!
