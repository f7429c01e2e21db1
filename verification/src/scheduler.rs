//! The loop that keeps the mode in step with the sun.
//!
//! The loop has no end. Each round obtains the sun times through the daily
//! cache, applies the mode that the present instant calls for, and sleeps
//! until shortly after the next change of mode, but never longer than an
//! hour. When the sun times cannot be had, nothing is applied and the round
//! starts again after a short fixed pause.
//!
//! The library does none of the outside work. [`LoopState`] says which
//! [`Action`] is due; the caller carries it out and reports the result as an
//! [`Event`], together with the readings of calendar and clock at that
//! moment.

use vstd::prelude::*;

use crate::cache::{
    advanced,
    request_of,
    FetchError,
    FetchEvent,
    FetchProgress,
    FetchRequest,
    FetchState,
};
use crate::mode::ThemeMode;
use crate::sun_times::{mode_at, switch_at, SunTimes};
use crate::time::{CivilDate, Instant};

verus! {

/// Added to every sleep so that the loop wakes after the change of mode
/// rather than a moment before it: five seconds, in nanoseconds.
pub const WAKE_BUFFER_NANOS: u64 = 5_000_000_000;

/// The longest sleep: one hour, in nanoseconds.
pub const MAX_SLEEP_NANOS: u64 = 3_600_000_000_000;

/// The pause after a failed attempt to obtain the sun times: one minute, in
/// nanoseconds.
pub const BACKOFF_NANOS: u64 = 60_000_000_000;

/// How long to sleep at `now` when the mode next changes at `next`, in
/// nanoseconds: the time that is left, if any, plus the wake buffer, cut off
/// at the longest sleep.
pub open spec fn sleep_nanos(now: int, next: int) -> int {
    let left = if next > now {
        next - now
    } else {
        0
    };
    if left + WAKE_BUFFER_NANOS <= MAX_SLEEP_NANOS {
        left + WAKE_BUFFER_NANOS
    } else {
        MAX_SLEEP_NANOS as int
    }
}

/// A sleep is never shorter than the wake buffer and never longer than an
/// hour, however far away the next change is.
pub proof fn lemma_sleep_is_clamped(now: int, next: int)
    ensures
        WAKE_BUFFER_NANOS <= sleep_nanos(now, next) <= MAX_SLEEP_NANOS,
        sleep_nanos(now, next) <= 3_600 * 1_000_000_000,
{
}

/// A change that is due or overdue is waited for by the wake buffer alone; a
/// change that is near is waited for by what is left plus the buffer.
pub proof fn lemma_sleep_when_near(now: int, next: int)
    ensures
        next <= now ==> sleep_nanos(now, next) == WAKE_BUFFER_NANOS,
        now <= next && next - now + WAKE_BUFFER_NANOS <= MAX_SLEEP_NANOS ==> sleep_nanos(now, next)
            == next - now + WAKE_BUFFER_NANOS,
{
}

/// A length of sleep of at most one hour. Its view is the length in
/// nanoseconds.
#[derive(Clone, Copy, Debug)]
pub struct Pause {
    nanos: u64,
}

impl View for Pause {
    type V = int;

    closed spec fn view(&self) -> int {
        self.nanos as int
    }
}

impl Pause {
    /// What every pause in running code satisfies: it is at most an hour.
    #[verifier::type_invariant]
    pub closed spec fn well_formed(self) -> bool {
        self.nanos <= MAX_SLEEP_NANOS
    }

    /// The pause of `nanos` nanoseconds.
    pub closed spec fn lasting(nanos: int) -> Pause {
        Pause { nanos: nanos as u64 }
    }

    /// The sleep that is due at `now` when the mode next changes at `next`.
    pub fn until(now: &Instant, next: &Instant) -> (pause: Pause)
        ensures
            pause == Pause::lasting(sleep_nanos(now@, next@)),
            pause@ == sleep_nanos(now@, next@),
    {
        let gap: i128 = now.nanos_until(next);
        let left: i128 = if gap > 0 {
            gap
        } else {
            0
        };
        if left <= (MAX_SLEEP_NANOS - WAKE_BUFFER_NANOS) as i128 {
            Pause { nanos: left as u64 + WAKE_BUFFER_NANOS }
        } else {
            Pause { nanos: MAX_SLEEP_NANOS }
        }
    }

    /// The pause after a failed attempt to obtain the sun times.
    pub fn backoff() -> (pause: Pause)
        ensures
            pause == Pause::lasting(BACKOFF_NANOS as int),
            pause@ == BACKOFF_NANOS,
    {
        Pause { nanos: BACKOFF_NANOS }
    }

    /// The length in nanoseconds.
    pub fn as_nanos(&self) -> (nanos: u64)
        ensures
            nanos == self@,
            nanos <= MAX_SLEEP_NANOS,
    {
        proof {
            use_type_invariant(self);
        }
        self.nanos
    }

    /// The whole seconds of the length.
    pub fn as_secs(&self) -> (secs: u64)
        ensures
            secs == self@ / 1_000_000_000,
            secs <= 3_600,
    {
        proof {
            use_type_invariant(self);
        }
        self.nanos / 1_000_000_000
    }

    /// The nanoseconds beyond the whole seconds of the length.
    pub fn subsec_nanos(&self) -> (nanos: u32)
        ensures
            nanos == self@ % 1_000_000_000,
    {
        (self.nanos % 1_000_000_000) as u32
    }
}

/// The view of a pause of a given length is that length, as long as it is
/// one that a pause can have.
pub broadcast proof fn lemma_view_lasting(nanos: int)
    requires
        0 <= nanos <= u64::MAX,
    ensures
        #[trigger] Pause::lasting(nanos)@ == nanos,
{
}

/// The three stages of a round.
#[derive(Clone, Copy, Debug, PartialEq, Eq, Structural)]
pub enum Phase {
    /// Obtaining the sun times, or waiting to try again.
    Fetching,
    /// Handing the mode to whatever makes it take effect.
    Applying,
    /// Waiting for the next change of mode.
    Sleeping,
}

/// Where the loop stands.
#[derive(Clone, Copy, Debug)]
pub enum LoopState {
    /// A lookup of the sun times is under way.
    Fetching(FetchState),
    /// The lookup failed for the given reason; the loop pauses before it
    /// tries again.
    BackingOff(FetchError),
    /// The sun times are known and `mode` is to be applied.
    Applying { sun_times: SunTimes, mode: ThemeMode },
    /// `mode` has been handed on, and the loop sleeps for `pause`.
    Sleeping { mode: ThemeMode, pause: Pause },
}

/// The outside work that the loop is waiting for.
#[derive(Clone, Copy, Debug)]
pub enum Action {
    /// Work for the daily cache.
    Fetch(FetchRequest),
    /// Make this mode take effect.
    Apply(ThemeMode),
    /// Sleep for this long.
    Sleep(Pause),
}

/// The result of the work that was asked for.
#[derive(Clone, Debug)]
pub enum Event {
    /// Work for the daily cache was done.
    Fetch(FetchEvent),
    /// The mode was handed on; `true` if it took effect.
    Applied(bool),
    /// The sleep is over.
    Woke,
}

/// The stage that a state belongs to.
pub open spec fn phase_of(state: LoopState) -> Phase {
    match state {
        LoopState::Fetching(_) => Phase::Fetching,
        LoopState::BackingOff(_) => Phase::Fetching,
        LoopState::Applying { .. } => Phase::Applying,
        LoopState::Sleeping { .. } => Phase::Sleeping,
    }
}

/// The work that is due in a state. Every state has some: the loop never
/// comes to rest.
pub open spec fn action_of(state: LoopState) -> Action {
    match state {
        LoopState::Fetching(fetch) => Action::Fetch(request_of(fetch)),
        LoopState::BackingOff(_) => Action::Sleep(Pause::lasting(BACKOFF_NANOS as int)),
        LoopState::Applying { mode, .. } => Action::Apply(mode),
        LoopState::Sleeping { pause, .. } => Action::Sleep(pause),
    }
}

/// The state after `event`, when the calendar shows `today` and the clock
/// `now`.
///
/// A finished lookup leads to applying the mode that `now` calls for, a
/// failed one to backing off. Whether or not the mode took effect, the loop
/// then sleeps, for [`sleep_nanos`] from `now` to the next change of mode.
/// Waking from either kind of sleep starts a new lookup. An event that does
/// not answer the work that is due changes nothing.
pub open spec fn stepped(
    state: LoopState,
    event: Event,
    today: CivilDate,
    now: Instant,
) -> LoopState {
    match (state, event) {
        (LoopState::Fetching(fetch), Event::Fetch(e)) => match advanced(fetch, e, today, now) {
            FetchProgress::Pending(next) => LoopState::Fetching(next),
            FetchProgress::Done(Ok(sun_times)) => LoopState::Applying {
                sun_times,
                mode: mode_at(now@, sun_times@.sunrise, sun_times@.sunset),
            },
            FetchProgress::Done(Err(e)) => LoopState::BackingOff(e),
        },
        (LoopState::BackingOff(_), Event::Woke) => LoopState::Fetching(FetchState::Loading),
        (LoopState::Applying { sun_times, mode }, Event::Applied(_)) => LoopState::Sleeping {
            mode,
            pause: Pause::lasting(
                sleep_nanos(now@, switch_at(now@, sun_times@.sunrise, sun_times@.sunset).0),
            ),
        },
        (LoopState::Sleeping { .. }, Event::Woke) => LoopState::Fetching(FetchState::Loading),
        _ => state,
    }
}

impl LoopState {
    /// The state in which the loop begins: about to look up the sun times.
    pub fn start() -> (state: LoopState)
        ensures
            state == LoopState::Fetching(FetchState::Loading),
    {
        LoopState::Fetching(FetchState::Loading)
    }

    /// The stage of the round.
    pub fn phase(&self) -> (phase: Phase)
        ensures
            phase == phase_of(*self),
    {
        match self {
            LoopState::Fetching(_) => Phase::Fetching,
            LoopState::BackingOff(_) => Phase::Fetching,
            LoopState::Applying { .. } => Phase::Applying,
            LoopState::Sleeping { .. } => Phase::Sleeping,
        }
    }

    /// The outside work that is due.
    pub fn action(&self) -> (action: Action)
        ensures
            action == action_of(*self),
    {
        match self {
            LoopState::Fetching(fetch) => Action::Fetch(fetch.request()),
            LoopState::BackingOff(_) => Action::Sleep(Pause::backoff()),
            LoopState::Applying { mode, .. } => Action::Apply(*mode),
            LoopState::Sleeping { pause, .. } => Action::Sleep(*pause),
        }
    }

    /// Takes in the result of the work that was due.
    ///
    /// `today` and `now` are the calendar day and the instant at which the
    /// event is taken in.
    pub fn step(self, event: &Event, today: CivilDate, now: Instant) -> (next: LoopState)
        ensures
            next == stepped(self, *event, today, now),
    {
        match self {
            LoopState::Fetching(fetch) => match event {
                Event::Fetch(e) => match fetch.advance(e, today, now) {
                    FetchProgress::Pending(next) => LoopState::Fetching(next),
                    FetchProgress::Done(Ok(sun_times)) => LoopState::Applying {
                        sun_times,
                        mode: sun_times.current_mode(&now),
                    },
                    FetchProgress::Done(Err(e)) => LoopState::BackingOff(e),
                },
                _ => self,
            },
            LoopState::BackingOff(_) => match event {
                Event::Woke => LoopState::Fetching(FetchState::Loading),
                _ => self,
            },
            LoopState::Applying { sun_times, mode } => match event {
                Event::Applied(_) => {
                    let next = sun_times.next_switch(&now);
                    LoopState::Sleeping { mode, pause: Pause::until(&now, &next.instant) }
                },
                _ => self,
            },
            LoopState::Sleeping { .. } => match event {
                Event::Woke => LoopState::Fetching(FetchState::Loading),
                _ => self,
            },
        }
    }
}

/// A mode is only ever put up for applying at the end of a lookup that
/// yielded sun times, and it is the mode that those sun times call for at
/// that instant. A lookup that fails leads to backing off instead.
pub proof fn lemma_apply_only_after_success(
    state: LoopState,
    event: Event,
    today: CivilDate,
    now: Instant,
)
    requires
        !(state is Applying),
    ensures
        stepped(state, event, today, now) matches LoopState::Applying { sun_times, mode } ==> {
            &&& state matches LoopState::Fetching(fetch)
            &&& event matches Event::Fetch(e)
            &&& advanced(fetch, e, today, now) == FetchProgress::Done(Ok(sun_times))
            &&& mode == mode_at(now@, sun_times@.sunrise, sun_times@.sunset)
        },
        state matches LoopState::Fetching(fetch) ==> (event matches Event::Fetch(e) ==> (advanced(
            fetch,
            e,
            today,
            now,
        ) matches FetchProgress::Done(Err(cause)) ==> stepped(state, event, today, now)
            == LoopState::BackingOff(cause))),
{
}

/// Once the mode has been handed on, the loop sleeps for [`sleep_nanos`] from
/// `now` to the next change of mode: at least the wake buffer and at most an
/// hour, however far away that change is.
pub proof fn lemma_loop_sleep_is_clamped(
    sun_times: SunTimes,
    mode: ThemeMode,
    took_effect: bool,
    today: CivilDate,
    now: Instant,
)
    ensures
        stepped(
            LoopState::Applying { sun_times, mode },
            Event::Applied(took_effect),
            today,
            now,
        ) matches LoopState::Sleeping { mode: kept, pause } && kept == mode && pause@
            == sleep_nanos(now@, switch_at(now@, sun_times@.sunrise, sun_times@.sunset).0)
            && WAKE_BUFFER_NANOS <= pause@ <= MAX_SLEEP_NANOS,
{
    broadcast use lemma_view_lasting;

    lemma_sleep_is_clamped(now@, switch_at(now@, sun_times@.sunrise, sun_times@.sunset).0);
}

/// After a failed lookup the loop sleeps for exactly one minute, whatever
/// the reason of the failure.
pub proof fn lemma_backoff_is_a_minute(cause: FetchError)
    ensures
        action_of(LoopState::BackingOff(cause)) matches Action::Sleep(pause) && pause@ == 60
            * 1_000_000_000,
{
    broadcast use lemma_view_lasting;

}

/// The round goes on for ever: waking from a sleep of either kind starts the
/// next lookup, and once the mode has been handed on the loop sleeps whether
/// or not the mode took effect.
pub proof fn lemma_round_goes_on(
    state: LoopState,
    today: CivilDate,
    now: Instant,
    took_effect: bool,
)
    ensures
        (state is Sleeping || state is BackingOff) ==> stepped(state, Event::Woke, today, now)
            == LoopState::Fetching(FetchState::Loading),
        state is Applying ==> stepped(state, Event::Applied(took_effect), today, now) is Sleeping,
        state is Applying ==> stepped(state, Event::Applied(true), today, now) == stepped(
            state,
            Event::Applied(false),
            today,
            now,
        ),
{
}

} // verus!
