//! The retention cleaner and the decisions of its cron-driven schedule.
//!
//! A cleanup run examines a directory listing entry by entry: it reads the
//! entry's last-modified time, deletes the entry when its age in whole days
//! strictly exceeds the configured maximum, and fails fast on the first
//! filesystem anomaly. The run's behaviour over the answers the filesystem
//! gives is the spec function [`run_model`]; the step-driven [`CleanRun`]
//! makes every decision of a live run, while the host only performs the
//! filesystem actions and reports each answer.

use vstd::prelude::*;
use vstd::string::StringExecFns;

use crate::errors::RemoveFilesError;

verus! {

/// The cron expression used when the caller gives none: daily at midnight.
pub const DEFAULT_CRON_EXPRESSION: &'static str = "0 0 0 * * * *";

/// Whole days contained in `delta` seconds, truncated toward zero.
pub open spec fn whole_days(delta: int) -> int {
    if delta >= 0 {
        delta / 86400
    } else {
        -((-delta) / 86400)
    }
}

/// The age in whole days, at `now_secs`, of a file last modified at
/// `modified_secs` (both in unix seconds). "Now" is captured once per run,
/// so one run applies one consistent cutoff.
pub open spec fn age_in_days(now_secs: int, modified_secs: int) -> int {
    whole_days(now_secs - modified_secs)
}

/// An entry is expired when its age strictly exceeds `days`.
pub open spec fn expired(now_secs: int, modified_secs: int, days: int) -> bool {
    age_in_days(now_secs, modified_secs) > days
}

/// Decides whether a file last modified at `modified_secs` is strictly older
/// than `days` whole days at `now_secs`.
pub fn is_expired(now_secs: i64, modified_secs: i64, days: i64) -> (r: bool)
    ensures
        r == expired(now_secs as int, modified_secs as int, days as int),
{
    let delta: i128 = now_secs as i128 - modified_secs as i128;
    let age: i128 = if delta >= 0 {
        ((delta as u128) / 86400) as i128
    } else {
        -((((-delta) as u128) / 86400) as i128)
    };
    age > days as i128
}

/// The outcome of one cleanup run: success, or a structured failure carrying
/// the offending path where applicable.
#[derive(Debug)]
pub enum CleanOutcome {
    Success,
    DirectoryUnreadable,
    MetadataUnavailable { path: String },
    DeleteFailed { path: String },
}

impl CleanOutcome {
    /// Whether the run succeeded.
    pub fn is_success(&self) -> (r: bool)
        ensures
            r == (self is Success),
    {
        match self {
            CleanOutcome::Success => true,
            _ => false,
        }
    }
}

/// The human-readable cause reported for each outcome.
pub open spec fn details_of(outcome: CleanOutcome) -> Seq<char> {
    match outcome {
        CleanOutcome::Success => Seq::<char>::empty(),
        CleanOutcome::DirectoryUnreadable => "An error occurred in reading the directory and the cleanup file failed"@,
        CleanOutcome::MetadataUnavailable { path } => "An error occurred in getting file modified time and the cleanup file failed"@,
        CleanOutcome::DeleteFailed { path } => "delete file failed, path: "@ + path@,
    }
}

/// Renders an outcome's human-readable cause.
pub fn outcome_details(outcome: &CleanOutcome) -> (r: String)
    ensures
        r@ == details_of(*outcome),
{
    match outcome {
        CleanOutcome::Success => String::new(),
        CleanOutcome::DirectoryUnreadable => "An error occurred in reading the directory and the cleanup file failed".to_owned(),
        CleanOutcome::MetadataUnavailable { path: _ } => "An error occurred in getting file modified time and the cleanup file failed".to_owned(),
        CleanOutcome::DeleteFailed { path } => "delete file failed, path: ".to_owned().concat(path.as_str()),
    }
}

/// What one directory entry answers during a cleanup run: its path, its
/// last-modified time where its metadata is readable (unix seconds), and
/// whether deleting it would succeed. A snapshot of such answers stands for
/// the directory in a model-level run.
#[derive(Clone, Debug)]
pub struct EntryProbe {
    pub path: String,
    pub modified_secs: Option<i64>,
    pub delete_ok: bool,
}

/// What a cleanup run owes over a directory: its outcome and the paths it
/// removes, in listing order.
pub struct RunSummary {
    pub outcome: CleanOutcome,
    pub removed: Seq<String>,
}

/// The behaviour of one cleanup run over a directory listing, entry by entry,
/// fail-fast: an unreadable last-modified time ends the run at once (entries
/// already removed stay removed), an expired entry whose deletion fails ends
/// the run leaving later entries unprocessed, and otherwise exactly the
/// expired entries are removed.
pub open spec fn run_model(entries: Seq<EntryProbe>, now_secs: int, days: int) -> RunSummary
    decreases entries.len(),
{
    if entries.len() == 0 {
        RunSummary { outcome: CleanOutcome::Success, removed: Seq::<String>::empty() }
    } else {
        let e = entries[0];
        if e.modified_secs is None {
            RunSummary {
                outcome: CleanOutcome::MetadataUnavailable { path: e.path },
                removed: Seq::<String>::empty(),
            }
        } else if expired(now_secs, e.modified_secs->0 as int, days) {
            if e.delete_ok {
                let rest = run_model(entries.drop_first(), now_secs, days);
                RunSummary { outcome: rest.outcome, removed: seq![e.path] + rest.removed }
            } else {
                RunSummary {
                    outcome: CleanOutcome::DeleteFailed { path: e.path },
                    removed: Seq::<String>::empty(),
                }
            }
        } else {
            run_model(entries.drop_first(), now_secs, days)
        }
    }
}

/// The behaviour of one cleanup run from the directory listing on: a
/// directory that cannot be listed fails with `DirectoryUnreadable` before
/// any deletion.
pub open spec fn clean_model(
    listing: Option<Seq<EntryProbe>>,
    now_secs: int,
    days: int,
) -> RunSummary {
    match listing {
        None => RunSummary {
            outcome: CleanOutcome::DirectoryUnreadable,
            removed: Seq::<String>::empty(),
        },
        Some(entries) => run_model(entries, now_secs, days),
    }
}

/// One retention-cleanup run, driven step by step. The host lists the
/// directory once, then, as long as the run is unfinished, reads the metadata
/// of the path the run names next and, where the run asks for it, deletes
/// that path — reporting each answer back. Every decision is made here.
pub struct CleanRun {
    pub days: i64,
    pub now_secs: i64,
    pub entries: Vec<String>,
    pub idx: usize,
    pub removed: Vec<String>,
    pub pending_delete: bool,
    pub failure: Option<CleanOutcome>,
}

impl CleanRun {
    /// Internal consistency of a run's state.
    pub open spec fn wf(&self) -> bool {
        &&& self.idx <= self.entries@.len()
        &&& (self.pending_delete ==> self.idx < self.entries@.len() && self.failure is None)
    }

    /// The run is over: it failed, or every entry was examined.
    pub open spec fn finished(&self) -> bool {
        self.failure is Some || self.idx == self.entries@.len()
    }

    /// Starts a run over the directory listing, with the cutoff captured
    /// once: a directory that could not be listed fails the run at once,
    /// before any deletion.
    pub fn new(listing: Option<Vec<String>>, now_secs: i64, days: i64) -> (r: CleanRun)
        ensures
            r.wf(),
            r.days == days,
            r.now_secs == now_secs,
            r.removed@ == Seq::<String>::empty(),
            !r.pending_delete,
            r.idx == 0,
            match listing {
                None => r.failure == Some(CleanOutcome::DirectoryUnreadable) && r.entries@
                    == Seq::<String>::empty(),
                Some(l) => r.failure is None && r.entries == l,
            },
    {
        match listing {
            None => CleanRun {
                days,
                now_secs,
                entries: Vec::new(),
                idx: 0,
                removed: Vec::new(),
                pending_delete: false,
                failure: Some(CleanOutcome::DirectoryUnreadable),
            },
            Some(entries) => CleanRun {
                days,
                now_secs,
                entries,
                idx: 0,
                removed: Vec::new(),
                pending_delete: false,
                failure: None,
            },
        }
    }

    /// The path whose metadata the host should read next, or `None` when the
    /// run is finished.
    pub fn next_path(&self) -> (r: Option<&String>)
        requires
            self.wf(),
            !self.pending_delete,
        ensures
            match r {
                Some(p) => !self.finished() && p == &self.entries@[self.idx as int],
                None => self.finished(),
            },
    {
        if self.failure.is_some() {
            return None;
        }
        if self.idx < self.entries.len() {
            Some(&self.entries[self.idx])
        } else {
            None
        }
    }

    /// Whether the run is over.
    pub fn is_finished(&self) -> (r: bool)
        requires
            self.wf(),
        ensures
            r == self.finished(),
    {
        self.failure.is_some() || self.idx >= self.entries.len()
    }

    /// The host reports the current entry's last-modified time, or `None`
    /// where its metadata could not be read — which fails the whole run at
    /// once. Returns whether the host must now delete the entry: exactly when
    /// its age strictly exceeds `days`.
    pub fn on_metadata(&mut self, modified_secs: Option<i64>) -> (delete_now: bool)
        requires
            old(self).wf(),
            !old(self).pending_delete,
            !old(self).finished(),
        ensures
            final(self).wf(),
            final(self).days == old(self).days,
            final(self).now_secs == old(self).now_secs,
            final(self).entries == old(self).entries,
            final(self).removed == old(self).removed,
            match modified_secs {
                None => {
                    &&& delete_now == false
                    &&& final(self).failure == Some(
                        CleanOutcome::MetadataUnavailable {
                            path: old(self).entries@[old(self).idx as int],
                        },
                    )
                    &&& final(self).idx == old(self).idx
                    &&& !final(self).pending_delete
                },
                Some(m) => {
                    if expired(old(self).now_secs as int, m as int, old(self).days as int) {
                        &&& delete_now == true
                        &&& final(self).pending_delete
                        &&& final(self).idx == old(self).idx
                        &&& final(self).failure is None
                    } else {
                        &&& delete_now == false
                        &&& !final(self).pending_delete
                        &&& final(self).idx == old(self).idx + 1
                        &&& final(self).failure is None
                    }
                },
            },
    {
        match modified_secs {
            None => {
                let path = self.entries[self.idx].clone();
                self.failure = Some(CleanOutcome::MetadataUnavailable { path });
                false
            },
            Some(m) => {
                if is_expired(self.now_secs, m, self.days) {
                    self.pending_delete = true;
                    true
                } else {
                    let n: usize = self.entries.len();
                    proof {
                        assert(self.idx < n);
                    }
                    self.idx = self.idx + 1;
                    false
                }
            },
        }
    }

    /// The host reports whether the deletion the run asked for succeeded: a
    /// failed deletion fails the whole run, leaving later entries
    /// unprocessed.
    pub fn on_removed(&mut self, ok: bool)
        requires
            old(self).wf(),
            old(self).pending_delete,
        ensures
            final(self).wf(),
            final(self).days == old(self).days,
            final(self).now_secs == old(self).now_secs,
            final(self).entries == old(self).entries,
            !final(self).pending_delete,
            if ok {
                &&& final(self).removed@ == old(self).removed@.push(
                    old(self).entries@[old(self).idx as int],
                )
                &&& final(self).idx == old(self).idx + 1
                &&& final(self).failure is None
            } else {
                &&& final(self).removed == old(self).removed
                &&& final(self).failure == Some(
                    CleanOutcome::DeleteFailed { path: old(self).entries@[old(self).idx as int] },
                )
                &&& final(self).idx == old(self).idx
            },
    {
        let path = self.entries[self.idx].clone();
        if ok {
            let n: usize = self.entries.len();
            proof {
                assert(self.idx < n);
            }
            self.removed.push(path);
            self.idx = self.idx + 1;
            self.pending_delete = false;
        } else {
            self.failure = Some(CleanOutcome::DeleteFailed { path });
            self.pending_delete = false;
        }
    }

    /// The outcome of a finished run, with the paths it removed, in order.
    pub fn outcome(self) -> (r: (CleanOutcome, Vec<String>))
        requires
            self.wf(),
            self.finished(),
        ensures
            r.1 == self.removed,
            match self.failure {
                Some(f) => r.0 == f,
                None => r.0 == CleanOutcome::Success,
            },
    {
        match self.failure {
            Some(f) => (f, self.removed),
            None => (CleanOutcome::Success, self.removed),
        }
    }
}

/// Receives the failure of one cleanup run. Implemented by the application;
/// invoked synchronously from the scheduler's trigger context, once per
/// failed run, so it must not block indefinitely.
pub trait LogCleanerErrorHandler {
    fn handle_error(&self, error: RemoveFilesError);
}

/// The retention policy a schedule runs with: the directory to clean, the
/// maximum age in whole days, the cron expression (`None` means daily at
/// midnight), and the handler that failures are delivered to.
#[derive(Clone, Debug)]
pub struct LogCleaner<H: LogCleanerErrorHandler> {
    pub dir: String,
    pub days: i64,
    pub cron_expression: Option<String>,
    pub error_handler: H,
}

impl<H: LogCleanerErrorHandler> LogCleaner<H> {
    pub fn new(dir: String, days: i64, cron_expression: Option<String>, error_handler: H) -> (r: Self)
        ensures
            r.dir == dir,
            r.days == days,
            r.cron_expression == cron_expression,
            r.error_handler == error_handler,
    {
        Self { dir, days, cron_expression, error_handler }
    }

    /// The cron expression the schedule registers: the caller's, or the
    /// default (daily at midnight) where none was given.
    pub fn effective_cron_expression(&self) -> (r: String)
        ensures
            r@ == match self.cron_expression {
                Some(c) => c@,
                None => DEFAULT_CRON_EXPRESSION@,
            },
    {
        match &self.cron_expression {
            Some(c) => c.clone(),
            None => DEFAULT_CRON_EXPRESSION.to_owned(),
        }
    }

    /// One full cleanup run over a snapshot of the directory's answers,
    /// behaving exactly as [`clean_model`] says: every entry strictly older
    /// than `self.days` whole days at `now_secs` is removed, fail-fast.
    /// Returns the removed paths in order, or the first failure.
    pub fn cleanup_files_immediately(&self, snapshot: Option<Vec<EntryProbe>>, now_secs: i64) -> (r:
        Result<Vec<String>, RemoveFilesError>)
        ensures
            ({
                let model = clean_model(
                    match snapshot {
                        Some(s) => Some(s@),
                        None => None,
                    },
                    now_secs as int,
                    self.days as int,
                );
                match r {
                    Ok(removed) => model.outcome is Success && removed@ == model.removed,
                    Err(e) => !(model.outcome is Success) && e.details@ == details_of(
                        model.outcome,
                    ),
                }
            }),
    {
        let entries = match snapshot {
            None => {
                return Err(
                    RemoveFilesError {
                        details: outcome_details(&CleanOutcome::DirectoryUnreadable),
                    },
                );
            },
            Some(entries) => entries,
        };
        let ghost es = entries@;
        let ghost model = run_model(es, now_secs as int, self.days as int);

        let mut paths: Vec<String> = Vec::new();
        let mut i: usize = 0;
        while i < entries.len()
            invariant
                0 <= i <= entries.len(),
                paths@.len() == i,
                forall|j: int| 0 <= j < i ==> paths@[j] == es[j].path,
                es == entries@,
            decreases entries.len() - i,
        {
            paths.push(entries[i].path.clone());
            i = i + 1;
        }

        let mut run = CleanRun::new(Some(paths), now_secs, self.days);
        proof {
            assert(es.skip(0) =~= es);
            assert(model.removed =~= run.removed@ + run_model(
                es.skip(0),
                now_secs as int,
                self.days as int,
            ).removed);
        }
        while !run.is_finished()
            invariant
                run.wf(),
                !run.pending_delete,
                run.days == self.days,
                run.now_secs == now_secs,
                es == entries@,
                run.entries@.len() == es.len(),
                forall|j: int| 0 <= j < es.len() ==> run.entries@[j] == es[j].path,
                model == run_model(es, now_secs as int, self.days as int),
                match run.failure {
                    Some(f) => model.outcome == f && model.removed == run.removed@,
                    None => {
                        &&& model.outcome == run_model(
                            es.skip(run.idx as int),
                            now_secs as int,
                            self.days as int,
                        ).outcome
                        &&& model.removed == run.removed@ + run_model(
                            es.skip(run.idx as int),
                            now_secs as int,
                            self.days as int,
                        ).removed
                    },
                },
            decreases es.len() - run.idx + (if run.failure is Some {
                0int
            } else {
                1int
            }),
        {
            let i: usize = run.idx;
            let ghost rest = es.skip(i as int);
            proof {
                assert(rest.len() > 0);
                assert(rest[0] == es[i as int]);
                assert(rest.drop_first() =~= es.skip(i as int + 1));
            }
            let modified = entries[i].modified_secs;
            let del = run.on_metadata(modified);
            if del {
                run.on_removed(entries[i].delete_ok);
                proof {
                    if entries[i as int].delete_ok {
                        assert(model.removed =~= run.removed@ + run_model(
                            es.skip(i as int + 1),
                            now_secs as int,
                            self.days as int,
                        ).removed);
                    } else {
                        assert(model.removed =~= run.removed@);
                    }
                }
            } else {
                proof {
                    if modified is None {
                        assert(model.removed =~= run.removed@);
                    }
                }
            }
        }
        proof {
            if run.failure is None {
                assert(es.skip(run.idx as int) =~= Seq::<EntryProbe>::empty());
                assert(model.removed =~= run.removed@);
            }
        }
        let (outcome, removed) = run.outcome();
        match outcome {
            CleanOutcome::Success => Ok(removed),
            failed => Err(RemoveFilesError { details: outcome_details(&failed) }),
        }
    }
}

/// Whether the entry's age strictly exceeds `days` at `now_secs`.
pub open spec fn entry_expired(e: EntryProbe, now_secs: int, days: int) -> bool {
    expired(now_secs, e.modified_secs->0 as int, days)
}

/// The expired entries of a listing, as a predicate.
pub open spec fn expired_pred(now_secs: int, days: int) -> spec_fn(EntryProbe) -> bool {
    |e: EntryProbe| entry_expired(e, now_secs, days)
}

/// The entries a run leaves behind, as a predicate.
pub open spec fn surviving_pred(now_secs: int, days: int) -> spec_fn(EntryProbe) -> bool {
    |e: EntryProbe| !entry_expired(e, now_secs, days)
}

/// An entry's path.
pub open spec fn entry_path_fn() -> spec_fn(EntryProbe) -> String {
    |e: EntryProbe| e.path
}

/// Over a directory whose entries all have readable metadata and age at most
/// `days`, a cleanup run removes nothing and reports success.
pub proof fn lemma_clean_nothing_expired_is_noop(entries: Seq<EntryProbe>, now_secs: int, days: int)
    requires
        forall|i: int|
            0 <= i < entries.len() ==> (#[trigger] entries[i]).modified_secs is Some
                && !entry_expired(entries[i], now_secs, days),
    ensures
        run_model(entries, now_secs, days).outcome == CleanOutcome::Success,
        run_model(entries, now_secs, days).removed == Seq::<String>::empty(),
    decreases entries.len(),
{
    if entries.len() > 0 {
        let rest = entries.drop_first();
        assert forall|i: int|
            0 <= i < rest.len() implies (#[trigger] rest[i]).modified_secs is Some
            && !entry_expired(rest[i], now_secs, days) by {
            assert(rest[i] == entries[i + 1]);
        };
        lemma_clean_nothing_expired_is_noop(rest, now_secs, days);
        assert(!entry_expired(entries[0], now_secs, days));
    }
}

/// Over a directory whose entries all have readable metadata and whose
/// deletions succeed, a cleanup run reports success and removes exactly the
/// entries strictly older than `days`, in listing order — the others are
/// left untouched.
pub proof fn lemma_clean_removes_exactly_expired(entries: Seq<EntryProbe>, now_secs: int, days: int)
    requires
        forall|i: int|
            0 <= i < entries.len() ==> (#[trigger] entries[i]).modified_secs is Some
                && entries[i].delete_ok,
    ensures
        run_model(entries, now_secs, days).outcome == CleanOutcome::Success,
        run_model(entries, now_secs, days).removed == entries.filter(
            expired_pred(now_secs, days),
        ).map_values(entry_path_fn()),
    decreases entries.len(),
{
    let p = expired_pred(now_secs, days);
    if entries.len() == 0 {
        entries.lemma_filter_len(p);
        assert(entries.filter(p).map_values(entry_path_fn()) =~= Seq::<String>::empty());
    } else {
        let e0 = entries[0];
        let rest = entries.drop_first();
        assert forall|i: int|
            0 <= i < rest.len() implies (#[trigger] rest[i]).modified_secs is Some
            && rest[i].delete_ok by {
            assert(rest[i] == entries[i + 1]);
        };
        lemma_clean_removes_exactly_expired(rest, now_secs, days);
        assert(entries =~= seq![e0] + rest);
        rest.lemma_filter_prepend(e0, p);
        if p(e0) {
            assert(entries.filter(p) == seq![e0] + rest.filter(p));
            assert(entries.filter(p).map_values(entry_path_fn()) =~= seq![e0.path] + rest.filter(
                p,
            ).map_values(entry_path_fn()));
        } else {
            assert(Seq::<EntryProbe>::empty() + rest.filter(p) =~= rest.filter(p));
            assert(entries.filter(p) == rest.filter(p));
        }
    }
}

/// Cleanup of a directory that cannot be listed fails with
/// `DirectoryUnreadable` and removes nothing.
pub proof fn lemma_clean_unreadable_directory(now_secs: int, days: int)
    ensures
        clean_model(None, now_secs, days).outcome == CleanOutcome::DirectoryUnreadable,
        clean_model(None, now_secs, days).removed == Seq::<String>::empty(),
{
}

/// Cleanup is idempotent: a second run over what a successful run leaves
/// behind — the entries not strictly older than `days` — removes nothing and
/// still reports success.
pub proof fn lemma_clean_idempotent(entries: Seq<EntryProbe>, now_secs: int, days: int)
    requires
        forall|i: int| 0 <= i < entries.len() ==> (#[trigger] entries[i]).modified_secs is Some,
    ensures
        run_model(entries.filter(surviving_pred(now_secs, days)), now_secs, days).outcome
            == CleanOutcome::Success,
        run_model(entries.filter(surviving_pred(now_secs, days)), now_secs, days).removed == Seq::<
            String,
        >::empty(),
{
    let p = surviving_pred(now_secs, days);
    let survivors = entries.filter(p);
    assert forall|i: int|
        0 <= i < survivors.len() implies (#[trigger] survivors[i]).modified_secs is Some
        && !entry_expired(survivors[i], now_secs, days) by {
        entries.lemma_filter_pred(p, i);
        assert(survivors.contains(survivors[i]));
        entries.lemma_filter_contains_rev(p, survivors[i]);
        let j = choose|j: int| 0 <= j < entries.len() && entries[j] == survivors[i];
        assert(entries[j].modified_secs is Some);
    };
    lemma_clean_nothing_expired_is_noop(survivors, now_secs, days);
}

/// Hands a failed run's error to the caller-supplied handler and reports
/// whether it did: the handler is invoked exactly once per failed run, never
/// on success, and the failure is never propagated to the caller.
pub fn dispatch_outcome<H: LogCleanerErrorHandler>(
    result: Result<Vec<String>, RemoveFilesError>,
    handler: &H,
) -> (notified: bool)
    ensures
        notified == (result is Err),
{
    match result {
        Ok(_) => false,
        Err(e) => {
            handler.handle_error(e);
            true
        },
    }
}

} // verus!

