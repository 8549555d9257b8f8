//! One sync attempt, from the first status record to the outcome.
//!
//! An attempt alternates between decisions and work that lies outside this
//! crate: writing a status record durably, collecting the snapshot, sending
//! it. The decisions are [`SyncExecutor::step`]: it takes what happened and
//! answers with what to do next. Whoever drives the executor performs the
//! action and reports back. [`run_once`] drives it against the in-memory
//! [`SyncStatusStore`].
//!
//! An attempt writes an `InProgress` record before any other work and a
//! `Completed` or `Failed` record at its end. If the process dies in between,
//! the `InProgress` record stays the latest one.

use vstd::prelude::*;
use vstd::string::StringExecFns;
use crate::db::models::{SyncStatus, SyncStatusType, SyncStatusView};
use crate::sync::error::{SyncError, SyncErrorView};
use crate::sync::store::{is_latest, lemma_append_becomes_latest, stored_as, SyncStatusStore};
use crate::time::Timestamp;

verus! {

/// How far an attempt has come.
#[derive(Clone, Copy, Debug, PartialEq, Eq, Structural)]
pub enum Phase {
    /// Not started.
    Idle,
    /// Waiting for the `InProgress` record to be written.
    RecordingStart,
    /// Waiting for the snapshot to be collected.
    Collecting,
    /// Waiting for the remote endpoint to take the snapshot.
    Transferring,
    /// Waiting for the `Completed` or `Failed` record to be written.
    RecordingOutcome,
    /// Finished.
    Done,
}

/// How an attempt ended.
#[derive(Debug)]
pub enum Outcome {
    /// The attempt succeeded. `transferred` is false where no remote
    /// endpoint is configured and nothing was sent.
    Completed { transferred: bool },
    /// The attempt failed. The error tells where: a collection or transfer
    /// failure is on record as a `Failed` status and will be retried at the
    /// next scheduled run; a store-write failure means the log does not tell
    /// how the attempt ended.
    Failed(SyncError),
}

/// An [`Outcome`] with its message as characters.
pub enum OutcomeView {
    /// Success.
    Completed { transferred: bool },
    /// Failure.
    Failed(SyncErrorView),
}

impl View for Outcome {
    type V = OutcomeView;

    open spec fn view(&self) -> OutcomeView {
        match self {
            Outcome::Completed { transferred } => OutcomeView::Completed {
                transferred: *transferred,
            },
            Outcome::Failed(error) => OutcomeView::Failed(error@),
        }
    }
}

impl Clone for Outcome {
    fn clone(&self) -> (o: Self)
        ensures
            o == *self,
    {
        match self {
            Outcome::Completed { transferred } => Outcome::Completed { transferred: *transferred },
            Outcome::Failed(error) => Outcome::Failed(error.clone()),
        }
    }
}

impl OutcomeView {
    /// Whether the attempt could not be recorded.
    pub open spec fn is_store_write_failure(self) -> bool {
        self matches OutcomeView::Failed(e) && e is StoreWrite
    }
}

impl Outcome {
    /// Whether the attempt succeeded.
    pub fn is_success(&self) -> (r: bool)
        ensures
            r == (self@ is Completed),
    {
        match self {
            Outcome::Completed { .. } => true,
            _ => false,
        }
    }
}

/// What happened since the last action.
#[derive(Debug)]
pub enum Event {
    /// An attempt is asked for.
    Begin,
    /// The work the last action asked for was done.
    Succeeded,
    /// The work the last action asked for failed, for the reason given.
    Failed(String),
}

/// An [`Event`] with its message as characters.
pub enum EventView {
    /// An attempt is asked for.
    Begin,
    /// The work was done.
    Succeeded,
    /// The work failed.
    Failed(Seq<char>),
}

impl View for Event {
    type V = EventView;

    open spec fn view(&self) -> EventView {
        match self {
            Event::Begin => EventView::Begin,
            Event::Succeeded => EventView::Succeeded,
            Event::Failed(reason) => EventView::Failed(reason@),
        }
    }
}

/// What the driver is to do next.
#[derive(Debug)]
pub enum Action {
    /// Append this record to the status log, then report whether the write
    /// succeeded.
    Append(SyncStatus),
    /// Collect the snapshot without changing the record store, then report.
    Collect,
    /// Send the snapshot to the remote endpoint, then report.
    Transfer,
    /// The attempt is over; this is its outcome.
    Finish(Outcome),
    /// The event does not fit the phase the attempt is in; nothing changed.
    Rejected,
}

/// An [`Action`] with its messages as characters.
pub enum ActionView {
    /// Append a record.
    Append(SyncStatusView),
    /// Collect the snapshot.
    Collect,
    /// Send the snapshot.
    Transfer,
    /// Finish with an outcome.
    Finish(OutcomeView),
    /// Event refused.
    Rejected,
}

impl View for Action {
    type V = ActionView;

    open spec fn view(&self) -> ActionView {
        match self {
            Action::Append(record) => ActionView::Append(record@),
            Action::Collect => ActionView::Collect,
            Action::Transfer => ActionView::Transfer,
            Action::Finish(outcome) => ActionView::Finish(outcome@),
            Action::Rejected => ActionView::Rejected,
        }
    }
}

/// The state of an attempt.
pub struct ExecutorView {
    /// How far the attempt has come.
    pub phase: Phase,
    /// Whether a remote endpoint is configured.
    pub remote_configured: bool,
    /// When the attempt began; meaningful once it has.
    pub started_at: Timestamp,
    /// How the attempt ended or is about to end; present from the moment
    /// this is decided.
    pub outcome: Option<OutcomeView>,
}

/// The message recorded for a failure: the reason reported, or a stock
/// phrase where none was given, so that a `Failed` record always says
/// something.
pub open spec fn failure_reason(reported: Seq<char>) -> Seq<char> {
    if reported.len() == 0 {
        "unknown error"@
    } else {
        reported
    }
}

/// The record that opens an attempt begun at `at`.
pub open spec fn in_progress_record(at: Timestamp) -> SyncStatusView {
    SyncStatusView {
        id: 0,
        last_sync_at: Some(at),
        sync_status: SyncStatusType::InProgress,
        error_message: None,
        created_at: at,
    }
}

/// The record that closes a successful attempt at `at`.
pub open spec fn completed_record(at: Timestamp) -> SyncStatusView {
    SyncStatusView {
        id: 0,
        last_sync_at: Some(at),
        sync_status: SyncStatusType::Completed,
        error_message: None,
        created_at: at,
    }
}

/// The record that closes, at `at`, a failed attempt begun at `started_at`.
/// Its sync time is still the time the attempt began.
pub open spec fn failed_record(started_at: Timestamp, reason: Seq<char>, at: Timestamp) -> SyncStatusView {
    SyncStatusView {
        id: 0,
        last_sync_at: Some(started_at),
        sync_status: SyncStatusType::Failed,
        error_message: Some(reason),
        created_at: at,
    }
}

/// The decisions of an attempt: from the state `pre` and what happened at
/// `now` to the next state and the next action.
pub open spec fn next(pre: ExecutorView, event: EventView, now: Timestamp) -> (
    ExecutorView,
    ActionView,
) {
    match (pre.phase, event) {
        (Phase::Idle, EventView::Begin) => (
            ExecutorView { phase: Phase::RecordingStart, started_at: now, ..pre },
            ActionView::Append(in_progress_record(now)),
        ),
        (Phase::RecordingStart, EventView::Succeeded) => if pre.remote_configured {
            (ExecutorView { phase: Phase::Collecting, ..pre }, ActionView::Collect)
        } else {
            (
                ExecutorView {
                    phase: Phase::RecordingOutcome,
                    outcome: Some(OutcomeView::Completed { transferred: false }),
                    ..pre
                },
                ActionView::Append(completed_record(now)),
            )
        },
        (Phase::Collecting, EventView::Succeeded) => (
            ExecutorView { phase: Phase::Transferring, ..pre },
            ActionView::Transfer,
        ),
        (Phase::Transferring, EventView::Succeeded) => (
            ExecutorView {
                phase: Phase::RecordingOutcome,
                outcome: Some(OutcomeView::Completed { transferred: true }),
                ..pre
            },
            ActionView::Append(completed_record(now)),
        ),
        (Phase::Collecting, EventView::Failed(reason)) => (
            ExecutorView {
                phase: Phase::RecordingOutcome,
                outcome: Some(
                    OutcomeView::Failed(SyncErrorView::Collection(failure_reason(reason))),
                ),
                ..pre
            },
            ActionView::Append(failed_record(pre.started_at, failure_reason(reason), now)),
        ),
        (Phase::Transferring, EventView::Failed(reason)) => (
            ExecutorView {
                phase: Phase::RecordingOutcome,
                outcome: Some(OutcomeView::Failed(SyncErrorView::Transfer(failure_reason(reason)))),
                ..pre
            },
            ActionView::Append(failed_record(pre.started_at, failure_reason(reason), now)),
        ),
        (Phase::RecordingOutcome, EventView::Succeeded) => match pre.outcome {
            Some(outcome) => (ExecutorView { phase: Phase::Done, ..pre }, ActionView::Finish(outcome)),
            None => (pre, ActionView::Rejected),
        },
        (Phase::RecordingStart, EventView::Failed(reason)) | (
            Phase::RecordingOutcome,
            EventView::Failed(reason),
        ) => (
            ExecutorView {
                phase: Phase::Done,
                outcome: Some(OutcomeView::Failed(SyncErrorView::StoreWrite(reason))),
                ..pre
            },
            ActionView::Finish(OutcomeView::Failed(SyncErrorView::StoreWrite(reason))),
        ),
        _ => (pre, ActionView::Rejected),
    }
}

impl ExecutorView {
    /// What holds of every state an attempt passes through: how the attempt
    /// ends is settled exactly from the moment its closing record is asked
    /// for.
    pub open spec fn wf(self) -> bool {
        self.outcome is Some <==> self.phase == Phase::RecordingOutcome || self.phase
            == Phase::Done
    }
}

/// An attempt that has not started is in order, and every step leaves an
/// attempt that is in order in order.
pub proof fn lemma_steps_keep_order(pre: ExecutorView, event: EventView, now: Timestamp)
    ensures
        pre.phase == Phase::Idle && pre.outcome is None ==> pre.wf(),
        pre.wf() ==> next(pre, event, now).0.wf(),
        pre.wf() && pre.phase == Phase::RecordingOutcome && event is Succeeded ==> next(
            pre,
            event,
            now,
        ).1 is Finish,
{
}

/// How far along a phase is: every event that is taken in moves the
/// attempt to a later phase.
pub open spec fn phase_rank(phase: Phase) -> nat {
    match phase {
        Phase::Idle => 0,
        Phase::RecordingStart => 1,
        Phase::Collecting => 2,
        Phase::Transferring => 3,
        Phase::RecordingOutcome => 4,
        Phase::Done => 5,
    }
}

/// An event is either refused, and then nothing changes, or it moves the
/// attempt forward. So an attempt takes in five events at most, and one
/// that is done stays done.
pub proof fn lemma_steps_advance(pre: ExecutorView, event: EventView, now: Timestamp)
    ensures
        next(pre, event, now).1 is Rejected ==> next(pre, event, now).0 == pre,
        !(next(pre, event, now).1 is Rejected) ==> phase_rank(next(pre, event, now).0.phase)
            > phase_rank(pre.phase),
        pre.phase == Phase::Done ==> next(pre, event, now).1 is Rejected,
        next(pre, event, now).1 is Finish <==> next(pre, event, now).0.phase == Phase::Done
            && pre.phase != Phase::Done,
{
}

/// Every record an attempt asks to be written is of one of three shapes:
/// the record that opens the attempt, a `Completed` record without a
/// message, or a `Failed` record with a message that is not empty. All three
/// carry a sync time.
pub proof fn lemma_records_are_well_formed(pre: ExecutorView, event: EventView, now: Timestamp)
    ensures
        match next(pre, event, now).1 {
            ActionView::Append(record) => {
                &&& record.last_sync_at is Some
                &&& record.created_at == now
                &&& record.sync_status != SyncStatusType::Pending
                &&& record.sync_status == SyncStatusType::Failed <==> record.error_message is Some
                &&& match record.error_message {
                    Some(message) => message.len() > 0,
                    None => true,
                }
            },
            _ => true,
        },
{
    reveal_strlit("unknown error");
}

/// The record that closes an attempt is asked for only after the record
/// that opened it was written: never before the attempt began, and never
/// while the first write is still to be confirmed.
pub proof fn lemma_closing_follows_opening(pre: ExecutorView, event: EventView, now: Timestamp)
    ensures
        match next(pre, event, now).1 {
            ActionView::Append(record) => record.sync_status.spec_is_terminal() ==> {
                &&& pre.phase != Phase::Idle
                &&& pre.phase == Phase::RecordingStart ==> event is Succeeded
                &&& record.last_sync_at == Some(pre.started_at) || record.last_sync_at == Some(now)
            },
            _ => true,
        },
{
}

/// The decisions of one sync attempt.
#[derive(Debug)]
pub struct SyncExecutor {
    phase: Phase,
    remote_configured: bool,
    started_at: Timestamp,
    outcome: Option<Outcome>,
}

impl View for SyncExecutor {
    type V = ExecutorView;

    closed spec fn view(&self) -> ExecutorView {
        ExecutorView {
            phase: self.phase,
            remote_configured: self.remote_configured,
            started_at: self.started_at,
            outcome: match self.outcome {
                Some(o) => Some(o@),
                None => None,
            },
        }
    }
}

/// The text of a failure as it is recorded: `reported`, or the stock phrase
/// where `reported` is empty.
pub fn recorded_reason(reported: String) -> (reason: String)
    ensures
        reason@ == failure_reason(reported@),
        reason@.len() > 0,
{
    proof {
        reveal_strlit("unknown error");
    }
    if reported.as_str().unicode_len() == 0 {
        String::from_str("unknown error")
    } else {
        reported
    }
}

impl SyncExecutor {
    /// An attempt that has not started. `remote_configured` says whether
    /// there is a remote endpoint to send the snapshot to.
    pub fn new(remote_configured: bool) -> (e: SyncExecutor)
        ensures
            e@.phase == Phase::Idle,
            e@.remote_configured == remote_configured,
            e@.outcome is None,
    {
        SyncExecutor {
            phase: Phase::Idle,
            remote_configured,
            started_at: Timestamp { secs: 0, nanos: 0 },
            outcome: None,
        }
    }

    /// How far the attempt has come.
    pub fn phase(&self) -> (p: Phase)
        ensures
            p == self@.phase,
    {
        self.phase
    }

    /// Whether the attempt is over.
    pub fn is_done(&self) -> (r: bool)
        ensures
            r == (self@.phase == Phase::Done),
    {
        self.phase == Phase::Done
    }

    /// How the attempt ended, once that is decided.
    pub fn outcome(&self) -> (o: Option<Outcome>)
        ensures
            match o {
                Some(outcome) => self@.outcome == Some(outcome@),
                None => self@.outcome is None,
            },
    {
        match &self.outcome {
            Some(outcome) => Some(outcome.clone()),
            None => None,
        }
    }

    /// Takes in what happened at `now` and decides what to do next.
    ///
    /// The state afterwards and the action returned are those of [`next`].
    /// An event that does not fit the current phase is answered with
    /// [`Action::Rejected`] and changes nothing.
    pub fn step(&mut self, event: Event, now: Timestamp) -> (action: Action)
        ensures
            (final(self)@, action@) == next(old(self)@, event@, now),
    {
        match (self.phase, event) {
            (Phase::Idle, Event::Begin) => {
                self.phase = Phase::RecordingStart;
                self.started_at = now;
                Action::Append(
                    SyncStatus {
                        id: 0,
                        last_sync_at: Some(now),
                        sync_status: SyncStatusType::InProgress,
                        error_message: None,
                        created_at: now,
                    },
                )
            },
            (Phase::RecordingStart, Event::Succeeded) => {
                if self.remote_configured {
                    self.phase = Phase::Collecting;
                    Action::Collect
                } else {
                    self.conclude(Outcome::Completed { transferred: false }, now)
                }
            },
            (Phase::Collecting, Event::Succeeded) => {
                self.phase = Phase::Transferring;
                Action::Transfer
            },
            (Phase::Transferring, Event::Succeeded) => {
                self.conclude(Outcome::Completed { transferred: true }, now)
            },
            (Phase::Collecting, Event::Failed(reason)) => {
                self.conclude(
                    Outcome::Failed(SyncError::Collection(recorded_reason(reason))),
                    now,
                )
            },
            (Phase::Transferring, Event::Failed(reason)) => {
                self.conclude(Outcome::Failed(SyncError::Transfer(recorded_reason(reason))), now)
            },
            (Phase::RecordingOutcome, Event::Succeeded) => {
                match &self.outcome {
                    Some(outcome) => {
                        let decided = outcome.clone();
                        self.phase = Phase::Done;
                        Action::Finish(decided)
                    },
                    None => Action::Rejected,
                }
            },
            (Phase::RecordingStart, Event::Failed(reason)) => self.give_up(reason),
            (Phase::RecordingOutcome, Event::Failed(reason)) => self.give_up(reason),
            _ => Action::Rejected,
        }
    }

    /// Takes in, at `now`, that the work the last action asked for did not
    /// come back in time. This is the failure "sync timed out": while
    /// collecting or sending it ends the attempt with a `Failed` record, and
    /// the attempt neither hangs nor is retried before the next scheduled
    /// run.
    pub fn time_out(&mut self, now: Timestamp) -> (action: Action)
        ensures
            (final(self)@, action@) == next(
                old(self)@,
                EventView::Failed("sync timed out"@),
                now,
            ),
    {
        self.step(Event::Failed(String::from_str("sync timed out")), now)
    }

    /// Settles the outcome and asks for the record that closes the attempt.
    fn conclude(&mut self, outcome: Outcome, now: Timestamp) -> (action: Action)
        ensures
            final(self)@ == (ExecutorView {
                phase: Phase::RecordingOutcome,
                outcome: Some(outcome@),
                ..old(self)@
            }),
            action@ == ActionView::Append(
                match outcome@ {
                    OutcomeView::Failed(error) => failed_record(
                        old(self)@.started_at,
                        error.text(),
                        now,
                    ),
                    _ => completed_record(now),
                },
            ),
    {
        let record = match &outcome {
            Outcome::Failed(error) => SyncStatus {
                id: 0,
                last_sync_at: Some(self.started_at),
                sync_status: SyncStatusType::Failed,
                error_message: Some(error.message()),
                created_at: now,
            },
            _ => SyncStatus {
                id: 0,
                last_sync_at: Some(now),
                sync_status: SyncStatusType::Completed,
                error_message: None,
                created_at: now,
            },
        };
        self.phase = Phase::RecordingOutcome;
        self.outcome = Some(outcome);
        Action::Append(record)
    }

    /// Ends the attempt because a status record could not be written.
    fn give_up(&mut self, reason: String) -> (action: Action)
        ensures
            final(self)@ == (ExecutorView {
                phase: Phase::Done,
                outcome: Some(OutcomeView::Failed(SyncErrorView::StoreWrite(reason@))),
                ..old(self)@
            }),
            action@ == ActionView::Finish(OutcomeView::Failed(SyncErrorView::StoreWrite(reason@))),
    {
        self.phase = Phase::Done;
        self.outcome = Some(Outcome::Failed(SyncError::StoreWrite(reason.clone())));
        Action::Finish(Outcome::Failed(SyncError::StoreWrite(reason)))
    }
}

/// What the world outside the log reported in the course of one attempt.
#[derive(Debug)]
pub struct AttemptReport {
    /// Whether the snapshot could be collected, and if not, why not. It is
    /// consulted only where a remote endpoint is configured.
    pub collected: Result<(), String>,
    /// Whether the remote endpoint took the snapshot, and if not, why not. It
    /// is consulted only where the snapshot was collected.
    pub transferred: Result<(), String>,
    /// When the work ended and the closing record is written.
    pub finished_at: Timestamp,
}

/// The event that reports `result`.
pub open spec fn event_of(result: Result<(), String>) -> EventView {
    match result {
        Ok(_) => EventView::Succeeded,
        Err(reason) => EventView::Failed(reason@),
    }
}

/// How an attempt ends when every status record can be written: with
/// success where nothing is to be sent or everything went well, and with the
/// first failure otherwise.
pub open spec fn attempt_outcome(remote_configured: bool, report: AttemptReport) -> OutcomeView {
    if !remote_configured {
        OutcomeView::Completed { transferred: false }
    } else {
        match report.collected {
            Err(reason) => OutcomeView::Failed(SyncErrorView::Collection(failure_reason(reason@))),
            Ok(_) => match report.transferred {
                Err(reason) => OutcomeView::Failed(
                    SyncErrorView::Transfer(failure_reason(reason@)),
                ),
                Ok(_) => OutcomeView::Completed { transferred: true },
            },
        }
    }
}

/// The record that closes the attempt described by `report`.
pub open spec fn closing_record(
    remote_configured: bool,
    started_at: Timestamp,
    report: AttemptReport,
) -> SyncStatusView {
    match attempt_outcome(remote_configured, report) {
        OutcomeView::Failed(error) => failed_record(started_at, error.text(), report.finished_at),
        _ => completed_record(report.finished_at),
    }
}

/// `record` under the identifier `id`.
pub open spec fn with_id(record: SyncStatusView, id: int) -> SyncStatusView {
    SyncStatusView { id, ..record }
}

/// The event that reports `result`.
fn event_from(result: &Result<(), String>) -> (event: Event)
    ensures
        event@ == event_of(*result),
{
    match result {
        Ok(_) => Event::Succeeded,
        Err(reason) => Event::Failed(reason.clone()),
    }
}

/// Carries out `action` against the in-memory log and the report of the
/// outside work, and says what came of it.
fn perform(store: &mut SyncStatusStore, action: Action, report: &AttemptReport) -> (event: Event)
    requires
        old(store).wf(),
        action is Append || action is Collect || action is Transfer,
    ensures
        final(store).wf(),
        final(store).spec_limit() == old(store).spec_limit(),
        match action {
            Action::Append(record) => if old(store)@.len() < old(store).spec_limit() {
                &&& event@ == EventView::Succeeded
                &&& final(store)@ == old(store)@.push(
                    stored_as(record, (old(store)@.len() + 1) as i32),
                )
            } else {
                &&& event@ == EventView::Failed("sync status log is full"@)
                &&& final(store)@ == old(store)@
            },
            Action::Collect => final(store)@ == old(store)@ && event@ == event_of(report.collected),
            _ => final(store)@ == old(store)@ && event@ == event_of(report.transferred),
        },
{
    match action {
        Action::Append(record) => match store.append(record) {
            Ok(_) => Event::Succeeded,
            Err(e) => Event::Failed(e.message()),
        },
        Action::Collect => event_from(&report.collected),
        _ => event_from(&report.transferred),
    }
}

/// Runs one sync attempt against the in-memory log.
///
/// The attempt begins at `started_at`; `report` says how the work outside
/// the log went and when it ended. Where the log has room for two more
/// records, the attempt appends exactly two: first the `InProgress` record,
/// then the record that closes the attempt, and the outcome is that of
/// [`attempt_outcome`]. Where the log has room for fewer, the outcome is a
/// store-write failure, and the `InProgress` record was added if there was
/// room for it. No record already in the log is touched.
///
/// If no record in the log is younger than `started_at` and the attempt does
/// not end before it began, the closing record is the latest record
/// afterwards.
pub fn run_once(
    store: &mut SyncStatusStore,
    remote_configured: bool,
    started_at: Timestamp,
    report: &AttemptReport,
) -> (outcome: Outcome)
    requires
        old(store).wf(),
    ensures
        final(store).wf(),
        final(store).spec_limit() == old(store).spec_limit(),
        final(store)@.subrange(0, old(store)@.len() as int) == old(store)@,
        ({
            let n = old(store)@.len() as int;
            let room = old(store).spec_limit() - n;
            let log = final(store)@;
            let full = OutcomeView::Failed(SyncErrorView::StoreWrite("sync status log is full"@));
            &&& room >= 2 ==> {
                &&& log.len() == n + 2
                &&& log[n]@ == with_id(in_progress_record(started_at), n + 1)
                &&& log[n + 1]@ == with_id(
                    closing_record(remote_configured, started_at, *report),
                    n + 2,
                )
                &&& outcome@ == attempt_outcome(remote_configured, *report)
            }
            &&& room == 1 ==> {
                &&& log.len() == n + 1
                &&& log[n]@ == with_id(in_progress_record(started_at), n + 1)
                &&& outcome@ == full
            }
            &&& room == 0 ==> log.len() == n && outcome@ == full
        }),
        ({
            &&& old(store)@.len() + 2 <= old(store).spec_limit()
            &&& started_at.as_nanos() <= report.finished_at.as_nanos()
            &&& forall|j: int|
                0 <= j < old(store)@.len() ==> (#[trigger] old(store)@[j]).created_at.as_nanos()
                    <= started_at.as_nanos()
        }) ==> is_latest(final(store)@, final(store)@[old(store)@.len() as int + 1]),
{
    let ghost before = store@;
    let mut executor = SyncExecutor::new(remote_configured);
    let opening = executor.step(Event::Begin, started_at);
    let written = perform(store, opening, report);
    let ghost opened = store@;
    let after_opening = executor.step(written, report.finished_at);
    let after_collecting = match after_opening {
        Action::Collect => {
            let collected = perform(store, Action::Collect, report);
            executor.step(collected, report.finished_at)
        },
        other => other,
    };
    let after_transfer = match after_collecting {
        Action::Transfer => {
            let transferred = perform(store, Action::Transfer, report);
            executor.step(transferred, report.finished_at)
        },
        other => other,
    };
    let closing = match after_transfer {
        Action::Append(record) => {
            let recorded = perform(store, Action::Append(record), report);
            executor.step(recorded, report.finished_at)
        },
        other => other,
    };
    proof {
        assert(store@.subrange(0, before.len() as int) =~= before);
        if before.len() + 2 <= store.spec_limit() {
            let n = before.len() as int;
            assert(opened == before.push(opened[n]));
            assert(store@ == opened.push(store@[n + 1]));
            if started_at.as_nanos() <= report.finished_at.as_nanos() && (forall|j: int|
                0 <= j < before.len() ==> (#[trigger] before[j]).created_at.as_nanos()
                    <= started_at.as_nanos()) {
                assert forall|j: int| 0 <= j < opened.len() implies (
                #[trigger] opened[j]).created_at.as_nanos()
                    <= store@[n + 1].created_at.as_nanos() by {
                    if j < n {
                        assert(opened[j] == before[j]);
                    }
                }
                lemma_append_becomes_latest(opened, store@[n + 1]);
            }
        }
    }
    match closing {
        Action::Finish(outcome) => outcome,
        _ => vstd::pervasive::unreached(),
    }
}

} // verus!
