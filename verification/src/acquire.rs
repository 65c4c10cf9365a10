//! The backup-acquisition state machine: decide whether an existing manual
//! backup is usable, trigger creation otherwise, and poll with a bounded
//! timeout until a fresh one appears.
//!
//! The machine is pure: every transition is a function of the current state,
//! the observed event and the clock reading that came with it. The driver
//! around the library performs the returned action (an HTTP call, a sleep, a
//! clock read) and feeds the outcome back in as the next event.

use vstd::prelude::*;

use crate::backup::{is_recent_spec, latest_manual, latest_manual_spec, Backup};
use crate::errors::{AcqError, ApiError};

verus! {

/// Whole wait for a triggered backup to appear, in seconds.
pub const ACQUIRE_TIMEOUT_SECS: u64 = 60;

/// Pause between two polls of the backup listing, in seconds.
pub const POLL_INTERVAL_SECS: u64 = 5;

/// Where the acquisition stands.
#[derive(Debug, PartialEq, Eq)]
pub enum AcqState {
    /// Looking at the current listing: is a fresh manual backup already
    /// there?
    Checking,
    /// A backup creation request is on its way.
    Triggering,
    /// Waiting, until `deadline` (seconds of UTC unix time), for a fresh
    /// manual backup to appear in the listing.
    Polling { deadline: i64 },
    /// Terminal: a fresh manual backup was resolved.
    Done { backup: Backup },
    /// Terminal: the acquisition failed.
    Failed { err: AcqError },
}

/// What the driver observed and hands to the machine, together with the
/// clock reading taken at that moment.
#[derive(Debug)]
pub enum AcqEvent {
    /// A listing call succeeded and returned these records.
    Listed { backups: Vec<Backup> },
    /// A listing call failed.
    ListFailed { err: ApiError },
    /// The trigger call succeeded; the server is now producing a backup.
    Triggered,
    /// The trigger call failed.
    TriggerFailed { err: ApiError },
    /// The driver woke from a sleep, or read the clock when asked to.
    Woke,
}

/// What the driver must do next.
#[derive(Clone, Copy, Debug, PartialEq, Eq, Structural)]
pub enum AcqAction {
    /// Call the listing endpoint and report `Listed` or `ListFailed`.
    List,
    /// Call the trigger endpoint and report `Triggered` or `TriggerFailed`.
    Trigger,
    /// Read the clock and report `Woke`.
    ReadClock,
    /// Sleep for `secs` seconds, then report `Woke`.
    Sleep { secs: u64 },
    /// The machine is in a terminal state; stop driving it.
    Stop,
}

/// The polling deadline: `now` plus the whole timeout, capped at the largest
/// representable time.
pub open spec fn deadline_spec(now: int) -> int {
    if now + ACQUIRE_TIMEOUT_SECS > i64::MAX {
        i64::MAX as int
    } else {
        now + ACQUIRE_TIMEOUT_SECS
    }
}

/// One transition of the acquisition machine. An event that the current
/// state does not expect leaves the state as it is and stops the driver.
pub open spec fn acq_step_spec(state: AcqState, event: AcqEvent, now: int, max_age_secs: int) -> (
    AcqState,
    AcqAction,
) {
    match (state, event) {
        (AcqState::Checking, AcqEvent::Listed { backups }) => {
            match latest_manual_spec(backups@) {
                Some(b) => if is_recent_spec(b.created_at as int, now, max_age_secs) {
                    (AcqState::Done { backup: b }, AcqAction::Stop)
                } else {
                    (AcqState::Triggering, AcqAction::Trigger)
                },
                None => (AcqState::Triggering, AcqAction::Trigger),
            }
        },
        (AcqState::Checking, AcqEvent::ListFailed { err }) => (
            AcqState::Failed { err: AcqError::Api { err } },
            AcqAction::Stop,
        ),
        (AcqState::Triggering, AcqEvent::Triggered) => (
            AcqState::Polling { deadline: deadline_spec(now) as i64 },
            AcqAction::ReadClock,
        ),
        (AcqState::Triggering, AcqEvent::TriggerFailed { err }) => (
            AcqState::Failed { err: AcqError::Api { err } },
            AcqAction::Stop,
        ),
        (AcqState::Polling { deadline }, AcqEvent::Woke) => {
            if now > deadline {
                (AcqState::Failed { err: AcqError::Timeout }, AcqAction::Stop)
            } else {
                (AcqState::Polling { deadline }, AcqAction::List)
            }
        },
        (AcqState::Polling { deadline }, AcqEvent::Listed { backups }) => {
            match latest_manual_spec(backups@) {
                Some(b) => if is_recent_spec(b.created_at as int, now, max_age_secs) {
                    (AcqState::Done { backup: b }, AcqAction::Stop)
                } else {
                    (
                        AcqState::Polling { deadline },
                        AcqAction::Sleep { secs: POLL_INTERVAL_SECS },
                    )
                },
                None => (
                    AcqState::Polling { deadline },
                    AcqAction::Sleep { secs: POLL_INTERVAL_SECS },
                ),
            }
        },
        (AcqState::Polling { deadline }, AcqEvent::ListFailed { err }) => (
            AcqState::Failed { err: AcqError::Api { err } },
            AcqAction::Stop,
        ),
        (s, _) => (s, AcqAction::Stop),
    }
}

/// The machine starts by checking the current listing.
pub fn acq_initial() -> (r: (AcqState, AcqAction))
    ensures
        r.0 == AcqState::Checking,
        r.1 == AcqAction::List,
{
    (AcqState::Checking, AcqAction::List)
}

/// One transition of the acquisition machine: from the current state, the
/// observed event and the clock reading `now` (seconds of UTC unix time) to
/// the next state and the action the driver must perform. `max_age_secs` is
/// the caller's freshness threshold.
pub fn acq_step(state: AcqState, event: AcqEvent, now: i64, max_age_secs: u64) -> (r: (
    AcqState,
    AcqAction,
))
    ensures
        r == acq_step_spec(state, event, now as int, max_age_secs as int),
{
    match (state, event) {
        (AcqState::Checking, AcqEvent::Listed { backups }) => {
            match latest_manual(&backups) {
                Some(b) => if b.is_recent(now, max_age_secs) {
                    (AcqState::Done { backup: b }, AcqAction::Stop)
                } else {
                    (AcqState::Triggering, AcqAction::Trigger)
                },
                None => (AcqState::Triggering, AcqAction::Trigger),
            }
        },
        (AcqState::Checking, AcqEvent::ListFailed { err }) => (
            AcqState::Failed { err: AcqError::Api { err } },
            AcqAction::Stop,
        ),
        (AcqState::Triggering, AcqEvent::Triggered) => {
            let deadline: i64 = if now > i64::MAX - ACQUIRE_TIMEOUT_SECS as i64 {
                i64::MAX
            } else {
                now + ACQUIRE_TIMEOUT_SECS as i64
            };
            (AcqState::Polling { deadline }, AcqAction::ReadClock)
        },
        (AcqState::Triggering, AcqEvent::TriggerFailed { err }) => (
            AcqState::Failed { err: AcqError::Api { err } },
            AcqAction::Stop,
        ),
        (AcqState::Polling { deadline }, AcqEvent::Woke) => {
            if now > deadline {
                (AcqState::Failed { err: AcqError::Timeout }, AcqAction::Stop)
            } else {
                (AcqState::Polling { deadline }, AcqAction::List)
            }
        },
        (AcqState::Polling { deadline }, AcqEvent::Listed { backups }) => {
            match latest_manual(&backups) {
                Some(b) => if b.is_recent(now, max_age_secs) {
                    (AcqState::Done { backup: b }, AcqAction::Stop)
                } else {
                    (
                        AcqState::Polling { deadline },
                        AcqAction::Sleep { secs: POLL_INTERVAL_SECS },
                    )
                },
                None => (
                    AcqState::Polling { deadline },
                    AcqAction::Sleep { secs: POLL_INTERVAL_SECS },
                ),
            }
        },
        (AcqState::Polling { deadline }, AcqEvent::ListFailed { err }) => (
            AcqState::Failed { err: AcqError::Api { err } },
            AcqAction::Stop,
        ),
        (s, _) => (s, AcqAction::Stop),
    }
}

/// When the listing already holds a fresh manual backup at the first check,
/// the machine resolves it at once and no trigger call is ever requested.
pub proof fn lemma_fresh_backup_skips_trigger(
    backups: Vec<Backup>,
    now: int,
    max_age_secs: int,
    b: Backup,
)
    requires
        latest_manual_spec(backups@) == Some(b),
        is_recent_spec(b.created_at as int, now, max_age_secs),
    ensures
        acq_step_spec(AcqState::Checking, AcqEvent::Listed { backups }, now, max_age_secs) == (
            AcqState::Done { backup: b },
            AcqAction::Stop,
        ),
{
}

/// When no manual backup is in the listing, or the freshest one is at or
/// beyond the threshold, the first check asks for exactly one trigger call
/// before any polling.
pub proof fn lemma_stale_backup_triggers(backups: Vec<Backup>, now: int, max_age_secs: int)
    requires
        latest_manual_spec(backups@) matches Some(b) ==> !is_recent_spec(
            b.created_at as int,
            now,
            max_age_secs,
        ),
    ensures
        acq_step_spec(AcqState::Checking, AcqEvent::Listed { backups }, now, max_age_secs) == (
            AcqState::Triggering,
            AcqAction::Trigger,
        ),
{
}

/// A trigger call is requested only out of the first check, and only when
/// that check found no fresh manual backup: over the whole run the machine
/// asks for at most one trigger.
pub proof fn lemma_trigger_only_from_stale_check(
    state: AcqState,
    event: AcqEvent,
    now: int,
    max_age_secs: int,
)
    ensures
        acq_step_spec(state, event, now, max_age_secs).1 == AcqAction::Trigger ==> state
            == AcqState::Checking && (event matches AcqEvent::Listed { backups } && (
        latest_manual_spec(backups@) matches Some(b) ==> !is_recent_spec(
            b.created_at as int,
            now,
            max_age_secs,
        ))),
{
}

/// As soon as any poll's listing holds a fresh manual backup, the machine
/// resolves it and polling ends, whatever earlier polls returned.
pub proof fn lemma_poll_succeeds_on_fresh(
    deadline: i64,
    backups: Vec<Backup>,
    now: int,
    max_age_secs: int,
    b: Backup,
)
    requires
        latest_manual_spec(backups@) == Some(b),
        is_recent_spec(b.created_at as int, now, max_age_secs),
    ensures
        acq_step_spec(
            AcqState::Polling { deadline },
            AcqEvent::Listed { backups },
            now,
            max_age_secs,
        ) == (AcqState::Done { backup: b }, AcqAction::Stop),
{
}

/// Once the clock passes the deadline the machine fails with a timeout and
/// asks for nothing further, however many polls came before; and no
/// transition ever extends a deadline.
pub proof fn lemma_timeout_at_deadline(
    state: AcqState,
    event: AcqEvent,
    now: int,
    max_age_secs: int,
)
    ensures
        (state matches AcqState::Polling { deadline } && event is Woke && now > deadline)
            ==> acq_step_spec(state, event, now, max_age_secs) == (
            AcqState::Failed { err: AcqError::Timeout },
            AcqAction::Stop,
        ),
        (state is Polling && acq_step_spec(state, event, now, max_age_secs).0 is Polling)
            ==> acq_step_spec(state, event, now, max_age_secs).0 == state,
{
}

} // verus!
