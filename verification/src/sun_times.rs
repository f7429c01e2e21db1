//! Sunrise and sunset of one day, and the mode they call for.
//!
//! The day is light from sunrise, inclusive, to sunset, exclusive, and dark
//! otherwise. The rules are stated once over plain integers (nanoseconds from
//! the epoch), and the functions on [`SunTimes`] are proved to follow them.

use vstd::prelude::*;

use crate::mode::ThemeMode;
use crate::time::{nanos_per_day, representable, CivilDate, Instant};

verus! {

/// Whether it is day at `now`: the half-open span from `sunrise` to `sunset`.
pub open spec fn daytime_at(now: int, sunrise: int, sunset: int) -> bool {
    sunrise <= now < sunset
}

/// The mode that `now` calls for.
pub open spec fn mode_at(now: int, sunrise: int, sunset: int) -> ThemeMode {
    if daytime_at(now, sunrise, sunset) {
        ThemeMode::Light
    } else {
        ThemeMode::Dark
    }
}

/// The next change of mode after `now`: the instant and the mode that begins
/// then.
///
/// Once the sun has set, the next sunrise is taken to be today's sunrise
/// moved on by exactly 24 hours.
pub open spec fn switch_at(now: int, sunrise: int, sunset: int) -> (int, ThemeMode) {
    if now < sunrise {
        (sunrise, ThemeMode::Light)
    } else if now < sunset {
        (sunset, ThemeMode::Dark)
    } else {
        (sunrise + nanos_per_day(), ThemeMode::Light)
    }
}

/// What a pair of instants must satisfy to be the sunrise and sunset of a
/// day: sunrise comes first, and the sunrise of the day after can still be
/// held by an [`Instant`].
pub open spec fn valid_sun_times(sunrise: int, sunset: int) -> bool {
    sunrise < sunset && representable(sunrise + nanos_per_day())
}

/// Before sunrise it is dark, and the next change is to light at sunrise.
pub proof fn lemma_before_sunrise(now: int, sunrise: int, sunset: int)
    requires
        now < sunrise < sunset,
    ensures
        mode_at(now, sunrise, sunset) == ThemeMode::Dark,
        switch_at(now, sunrise, sunset) == (sunrise, ThemeMode::Light),
{
}

/// From sunrise until sunset it is light, and the next change is to dark at
/// sunset.
pub proof fn lemma_during_day(now: int, sunrise: int, sunset: int)
    requires
        sunrise <= now < sunset,
    ensures
        mode_at(now, sunrise, sunset) == ThemeMode::Light,
        switch_at(now, sunrise, sunset) == (sunset, ThemeMode::Dark),
{
}

/// From sunset on it is dark, and the next change is to light, 24 hours after
/// today's sunrise.
pub proof fn lemma_after_sunset(now: int, sunrise: int, sunset: int)
    requires
        sunrise < sunset,
        now >= sunset,
    ensures
        mode_at(now, sunrise, sunset) == ThemeMode::Dark,
        switch_at(now, sunrise, sunset) == (sunrise + nanos_per_day(), ThemeMode::Light),
{
}

/// The instant of sunrise is already light, the instant of sunset already
/// dark.
pub proof fn lemma_boundaries(sunrise: int, sunset: int)
    requires
        sunrise < sunset,
    ensures
        mode_at(sunrise, sunrise, sunset) == ThemeMode::Light,
        mode_at(sunset, sunrise, sunset) == ThemeMode::Dark,
{
}

/// The next change always lies ahead of a `now` that is less than a day past
/// sunrise, and always begins the mode that `now` does not have.
pub proof fn lemma_switch_is_ahead(now: int, sunrise: int, sunset: int)
    requires
        sunrise < sunset,
    ensures
        switch_at(now, sunrise, sunset).1 == mode_at(now, sunrise, sunset).spec_opposite(),
        now < sunrise + nanos_per_day() ==> switch_at(now, sunrise, sunset).0 > now,
{
}

/// The instant at which the mode next changes, and the mode it changes to.
#[derive(Clone, Copy, Debug)]
pub struct Transition {
    pub instant: Instant,
    pub mode: ThemeMode,
}

impl View for Transition {
    type V = (int, ThemeMode);

    open spec fn view(&self) -> (int, ThemeMode) {
        (self.instant@, self.mode)
    }
}

/// What a [`SunTimes`] stands for: sunrise and sunset in nanoseconds from the
/// epoch, and the day they belong to.
pub ghost struct SunTimesView {
    pub sunrise: int,
    pub sunset: int,
    pub date: CivilDate,
}

/// Sunrise and sunset of one calendar day at one place.
///
/// Sunrise is always before sunset. The two are absolute instants; `date` is
/// the local calendar day they were obtained for.
#[derive(Clone, Copy, Debug)]
pub struct SunTimes {
    sunrise: Instant,
    sunset: Instant,
    date: CivilDate,
    /// Sunrise moved on by 24 hours, worked out once.
    sunrise_after: Instant,
}

impl View for SunTimes {
    type V = SunTimesView;

    closed spec fn view(&self) -> SunTimesView {
        SunTimesView { sunrise: self.sunrise@, sunset: self.sunset@, date: self.date }
    }
}

impl SunTimes {
    /// What every value in running code satisfies: its instants are well
    /// formed and [`valid_sun_times`] holds of them.
    #[verifier::type_invariant]
    pub closed spec fn well_formed(self) -> bool {
        &&& self.sunrise.well_formed()
        &&& self.sunset.well_formed()
        &&& valid_sun_times(self.sunrise@, self.sunset@)
        &&& self.sunrise_after == self.sunrise.day_later()
        &&& self.sunrise_after@ == self.sunrise@ + nanos_per_day()
    }

    /// The value that holds exactly these three parts.
    pub closed spec fn of(sunrise: Instant, sunset: Instant, date: CivilDate) -> SunTimes {
        SunTimes { sunrise, sunset, date, sunrise_after: sunrise.day_later() }
    }

    /// The sun times of `date`, or nothing when `sunrise` and `sunset` are
    /// not [`valid_sun_times`].
    pub fn new(sunrise: Instant, sunset: Instant, date: CivilDate) -> (r: Option<SunTimes>)
        ensures
            r == if valid_sun_times(sunrise@, sunset@) {
                Some(SunTimes::of(sunrise, sunset, date))
            } else {
                None
            },
            r matches Some(st) ==> st@ == (SunTimesView {
                sunrise: sunrise@,
                sunset: sunset@,
                date,
            }),
    {
        proof {
            use_type_invariant(&sunrise);
            use_type_invariant(&sunset);
        }
        if !sunrise.is_before(&sunset) {
            return None;
        }
        match sunrise.next_day() {
            Some(sunrise_after) => Some(SunTimes { sunrise, sunset, date, sunrise_after }),
            None => None,
        }
    }

    /// The instant of sunrise.
    pub fn sunrise(&self) -> (i: Instant)
        ensures
            i@ == self@.sunrise,
    {
        self.sunrise
    }

    /// The instant of sunset.
    pub fn sunset(&self) -> (i: Instant)
        ensures
            i@ == self@.sunset,
    {
        self.sunset
    }

    /// The calendar day that the times describe.
    pub fn date(&self) -> (d: CivilDate)
        ensures
            d == self@.date,
    {
        self.date
    }

    /// Whether both values describe the same day with the same times.
    pub fn is_same(&self, other: &SunTimes) -> (b: bool)
        ensures
            b == (self@ == other@),
    {
        self.sunrise.is_same(&other.sunrise) && self.sunset.is_same(&other.sunset) && self.date
            == other.date
    }

    /// Whether the sun is up at `now`.
    pub fn is_daytime(&self, now: &Instant) -> (b: bool)
        ensures
            b == daytime_at(now@, self@.sunrise, self@.sunset),
    {
        !now.is_before(&self.sunrise) && now.is_before(&self.sunset)
    }

    /// The mode that `now` calls for.
    pub fn current_mode(&self, now: &Instant) -> (m: ThemeMode)
        ensures
            m == mode_at(now@, self@.sunrise, self@.sunset),
    {
        if self.is_daytime(now) {
            ThemeMode::Light
        } else {
            ThemeMode::Dark
        }
    }

    /// The next change of mode after `now`.
    pub fn next_switch(&self, now: &Instant) -> (t: Transition)
        ensures
            t@ == switch_at(now@, self@.sunrise, self@.sunset),
    {
        proof {
            use_type_invariant(self);
        }
        if now.is_before(&self.sunrise) {
            Transition { instant: self.sunrise, mode: ThemeMode::Light }
        } else if now.is_before(&self.sunset) {
            Transition { instant: self.sunset, mode: ThemeMode::Dark }
        } else {
            Transition { instant: self.sunrise_after, mode: ThemeMode::Light }
        }
    }
}

/// The view of an assembled value shows the parts it was assembled from.
pub broadcast proof fn lemma_view_of(sunrise: Instant, sunset: Instant, date: CivilDate)
    ensures
        #[trigger] SunTimes::of(sunrise, sunset, date)@ == (SunTimesView {
            sunrise: sunrise@,
            sunset: sunset@,
            date,
        }),
{
}

/// The times of a well-formed value are [`valid_sun_times`].
pub proof fn lemma_sun_times_valid(st: SunTimes)
    requires
        st.well_formed(),
    ensures
        valid_sun_times(st@.sunrise, st@.sunset),
{
}

} // verus!
