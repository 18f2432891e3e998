//! The polling schedule: when to ask the upstream service again, and what
//! to do with its answer.
//!
//! The poller owns the result of the last successful poll. It is the
//! baseline against which the next poll is compared, and it is replaced by
//! every successful poll and by nothing else.

use crate::changes::{
    baseline, detect_changes, detected, has_news, has_updates, law_same_state_brings_no_news,
    ChangeKind, ChangeSet, PollResult,
};
use crate::error::ApiError;
use crate::names::NameMap;
use vstd::prelude::*;

verus! {

/// The shortest wait between two polls, in milliseconds.
pub const MIN_WAIT_MILLIS: u64 = 10_000;

/// The longest wait between two polls, in milliseconds.
pub const MAX_WAIT_MILLIS: u64 = 86_400_000;

/// The wait after a poll that failed, in milliseconds.
pub const RETRY_MILLIS: u64 = 10_000;

/// The second of the day at which the night ends: six o'clock.
pub const NIGHT_END_SECOND: u32 = 21_600;

/// Whether the poller works or rests; the hour alone decides.
#[derive(Clone, Copy, Debug, PartialEq, Eq, Structural)]
pub enum PollerMode {
    Active,
    Quiescent,
}

/// The local time at which the poller asks what to do.
#[derive(Clone, Copy, Debug)]
pub struct Clock {
    /// Milliseconds since the Unix epoch.
    pub now_millis: i64,
    /// Seconds since the local midnight.
    pub second_of_day: u32,
}

/// The mode at a given second of the day.
pub open spec fn mode_at(second_of_day: u32) -> PollerMode {
    if second_of_day < NIGHT_END_SECOND {
        PollerMode::Quiescent
    } else {
        PollerMode::Active
    }
}

/// The time until `next_update`, kept within the shortest and the longest
/// wait.
pub open spec fn clamped_wait(next_update: int, now: int) -> int {
    let due = next_update - now;
    if due < MIN_WAIT_MILLIS as int {
        MIN_WAIT_MILLIS as int
    } else if due > MAX_WAIT_MILLIS as int {
        MAX_WAIT_MILLIS as int
    } else {
        due
    }
}

/// The time from `second_of_day` until the night ends, in milliseconds.
pub open spec fn night_wait(second_of_day: u32) -> int {
    (NIGHT_END_SECOND - second_of_day) * 1000
}

/// The wait before the next poll: at night until the night ends; by day
/// until the upstream's next update, clamped; with no poll behind it, none.
pub open spec fn wait_before_poll(previous: Option<PollResult>, clock: Clock) -> int {
    if mode_at(clock.second_of_day) == PollerMode::Quiescent {
        night_wait(clock.second_of_day)
    } else {
        match previous {
            Some(poll) => clamped_wait(poll.next_update as int, clock.now_millis as int),
            None => 0,
        }
    }
}

/// However far in the past or in the future the next update lies, the wait
/// for it is at least the shortest and at most the longest wait.
pub proof fn law_wait_is_clamped(next_update: int, now: int)
    ensures
        MIN_WAIT_MILLIS <= clamped_wait(next_update, now) <= MAX_WAIT_MILLIS,
        next_update <= now ==> clamped_wait(next_update, now) == MIN_WAIT_MILLIS,
        next_update - now > MAX_WAIT_MILLIS ==> clamped_wait(next_update, now) == MAX_WAIT_MILLIS,
        MIN_WAIT_MILLIS <= next_update - now <= MAX_WAIT_MILLIS ==> clamped_wait(next_update, now)
            == next_update - now,
{
}

/// By day and with a poll behind it, the poller waits at least the shortest
/// and at most the longest wait; at night it waits until the night ends,
/// which is more than nothing and no more than six hours.
pub proof fn law_poller_never_spins(previous: PollResult, clock: Clock)
    ensures
        mode_at(clock.second_of_day) == PollerMode::Active ==> MIN_WAIT_MILLIS <= wait_before_poll(
            Some(previous),
            clock,
        ) <= MAX_WAIT_MILLIS,
        mode_at(clock.second_of_day) == PollerMode::Quiescent ==> 0 < wait_before_poll(
            Some(previous),
            clock,
        ) <= NIGHT_END_SECOND * 1000,
{
}

/// The mode of the poller at `second_of_day`.
pub fn mode(second_of_day: u32) -> (mode: PollerMode)
    ensures
        mode == mode_at(second_of_day),
{
    if second_of_day < NIGHT_END_SECOND {
        PollerMode::Quiescent
    } else {
        PollerMode::Active
    }
}

/// The wait until `next_update`, in milliseconds: never less than ten
/// seconds and never more than a day.
pub fn wait(next_update: i64, now: i64) -> (millis: u64)
    ensures
        millis == clamped_wait(next_update as int, now as int),
        MIN_WAIT_MILLIS <= millis <= MAX_WAIT_MILLIS,
{
    let due: i128 = next_update as i128 - now as i128;
    if due < MIN_WAIT_MILLIS as i128 {
        MIN_WAIT_MILLIS
    } else if due > MAX_WAIT_MILLIS as i128 {
        MAX_WAIT_MILLIS
    } else {
        due as u64
    }
}

/// What one horizon asks for after a poll: the snapshot to fetch and the
/// classification of its groups.
#[derive(Debug)]
pub struct HorizonPlan {
    pub uid: String,
    pub changes: NameMap<ChangeKind>,
}

/// Whether a horizon has to be announced: it has a snapshot, and at least
/// one of its groups is new or updated.
pub open spec fn horizon_due(current: ChangeSet, previous: Option<&ChangeSet>) -> bool {
    current.uid is Some && has_news(detected(current.groups@, baseline(previous)))
}

/// A horizon that is polled twice in the same state is not announced the
/// second time: nobody is told the same change twice.
pub proof fn law_repeated_poll_announces_nothing(current: ChangeSet)
    ensures
        !horizon_due(current, Some(&current)),
{
    law_same_state_brings_no_news(current.groups@);
}

/// Decides whether the horizon `current` has to be announced.
///
/// A horizon without a snapshot identifier is never announced, nor one
/// whose groups are all unchanged.
pub fn plan_horizon(current: &ChangeSet, previous: Option<&ChangeSet>) -> (plan: Option<
    HorizonPlan,
>)
    ensures
        plan is Some <==> horizon_due(*current, previous),
        plan matches Some(p) ==> {
            &&& p.uid@ == current.uid->0@
            &&& p.changes@ == detected(current.groups@, baseline(previous))
            &&& p.changes.wf()
        },
{
    match &current.uid {
        None => None,
        Some(uid) => {
            let changes = detect_changes(&current.groups, previous);
            if has_updates(&changes) {
                Some(HorizonPlan { uid: uid.clone(), changes })
            } else {
                None
            }
        },
    }
}

/// The poller's memory after a poll: the poll itself where it succeeded,
/// and what it was before where the poll failed.
pub open spec fn after_poll(
    previous: Option<PollResult>,
    outcome: Result<PollResult, ApiError>,
) -> Option<PollResult> {
    match outcome {
        Ok(poll) => Some(poll),
        Err(_) => previous,
    }
}

/// The poller's memory after a run of polls.
pub open spec fn after_polls(
    previous: Option<PollResult>,
    outcomes: Seq<Result<PollResult, ApiError>>,
) -> Option<PollResult>
    decreases outcomes.len(),
{
    if outcomes.len() == 0 {
        previous
    } else {
        after_poll(after_polls(previous, outcomes.drop_last()), outcomes.last())
    }
}

/// The last poll of a run that succeeded.
pub open spec fn last_success(outcomes: Seq<Result<PollResult, ApiError>>) -> Option<PollResult>
    decreases outcomes.len(),
{
    if outcomes.len() == 0 {
        None
    } else {
        match outcomes.last() {
            Ok(poll) => Some(poll),
            Err(_) => last_success(outcomes.drop_last()),
        }
    }
}

/// Failed polls leave no trace: after any run of polls the poller
/// remembers the last one that succeeded, and what it remembered before
/// the run where none did.
pub proof fn law_baseline_is_last_success(
    previous: Option<PollResult>,
    outcomes: Seq<Result<PollResult, ApiError>>,
)
    ensures
        after_polls(previous, outcomes) == match last_success(outcomes) {
            Some(poll) => Some(poll),
            None => previous,
        },
    decreases outcomes.len(),
{
    if outcomes.len() > 0 {
        law_baseline_is_last_success(previous, outcomes.drop_last());
    }
}

/// What the caller has to do after a poll.
#[derive(Debug)]
pub enum PollAction {
    /// The poll failed: wait, then poll again.
    Retry { millis: u64 },
    /// The poll succeeded: announce the horizons that have a plan.
    Announce { today: Option<HorizonPlan>, next: Option<HorizonPlan> },
}

/// The polling loop's memory.
#[derive(Debug)]
pub struct Poller {
    previous: Option<PollResult>,
}

impl Poller {
    /// The last successful poll, if there was one.
    pub closed spec fn previous(&self) -> Option<PollResult> {
        self.previous
    }

    /// A poller that has not polled yet.
    pub fn new() -> (poller: Poller)
        ensures
            poller.previous() is None,
    {
        Poller { previous: None }
    }

    /// A poller that starts from the poll `first`.
    pub fn starting_with(first: PollResult) -> (poller: Poller)
        ensures
            poller.previous() == Some(first),
    {
        Poller { previous: Some(first) }
    }

    /// The last successful poll.
    pub fn last_poll(&self) -> (poll: Option<&PollResult>)
        ensures
            match poll {
                Some(p) => self.previous() == Some(*p),
                None => self.previous() is None,
            },
    {
        self.previous.as_ref()
    }

    /// How long to sleep before the next poll, in milliseconds.
    pub fn sleep_before_poll(&self, clock: Clock) -> (millis: u64)
        ensures
            millis == wait_before_poll(self.previous(), clock),
    {
        if clock.second_of_day < NIGHT_END_SECOND {
            let seconds: u32 = NIGHT_END_SECOND - clock.second_of_day;
            seconds as u64 * 1000
        } else {
            match &self.previous {
                Some(poll) => wait(poll.next_update, clock.now_millis),
                None => 0,
            }
        }
    }

    /// Takes the outcome of a poll.
    ///
    /// A failed poll leaves the poller as it was and asks for a retry after
    /// a short wait. A successful poll is compared with the one before it,
    /// horizon by horizon, and then takes its place, whatever becomes of
    /// the announcements.
    pub fn on_poll(&mut self, outcome: Result<PollResult, ApiError>) -> (action: PollAction)
        ensures
            final(self).previous() == after_poll(old(self).previous(), outcome),
            match outcome {
                Err(_) => action == (PollAction::Retry { millis: RETRY_MILLIS }),
                Ok(poll) => {
                    &&& action matches PollAction::Announce { today, next }
                    &&& announces(today, poll.today, previous_today(old(self).previous()))
                    &&& announces(next, poll.next, previous_next(old(self).previous()))
                },
            },
    {
        match outcome {
            Err(_) => PollAction::Retry { millis: RETRY_MILLIS },
            Ok(poll) => {
                let (today, next) = match &self.previous {
                    Some(before) => (
                        plan_horizon(&poll.today, Some(&before.today)),
                        plan_horizon(&poll.next, Some(&before.next)),
                    ),
                    None => (plan_horizon(&poll.today, None), plan_horizon(&poll.next, None)),
                };
                self.previous = Some(poll);
                PollAction::Announce { today, next }
            },
        }
    }
}

/// The markers for today of the poll before, if there was one.
pub open spec fn previous_today(previous: Option<PollResult>) -> Option<ChangeSet> {
    match previous {
        Some(poll) => Some(poll.today),
        None => None,
    }
}

/// The markers for the next day of the poll before, if there was one.
pub open spec fn previous_next(previous: Option<PollResult>) -> Option<ChangeSet> {
    match previous {
        Some(poll) => Some(poll.next),
        None => None,
    }
}

/// The group versions of an earlier set of markers.
pub open spec fn versions_of(previous: Option<ChangeSet>) -> Option<Map<Seq<char>, Seq<char>>> {
    match previous {
        Some(set) => Some(set.groups@),
        None => None,
    }
}

/// Whether `plan` is what the horizon `current` asks for against
/// `previous`: a plan exactly if the horizon has a snapshot and news, with
/// that snapshot's identifier and the classification of every group.
pub open spec fn announces(
    plan: Option<HorizonPlan>,
    current: ChangeSet,
    previous: Option<ChangeSet>,
) -> bool {
    let changes = detected(current.groups@, versions_of(previous));
    match plan {
        Some(p) => {
            &&& current.uid is Some
            &&& has_news(changes)
            &&& p.uid@ == current.uid->0@
            &&& p.changes@ == changes
        },
        None => current.uid is None || !has_news(changes),
    }
}

} // verus!
