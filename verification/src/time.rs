//! Simulation clock, default calendar, and natural light.

use vstd::prelude::*;

verus! {

/// One 20 Hz simulation step.
#[derive(Clone, Copy, Debug, Default, PartialEq, Eq, Structural, PartialOrd, Ord)]
pub struct SimTick(pub u64);

impl SimTick {
    pub const HZ: u64 = 20;

    pub fn next(self) -> (r: Self)
        requires
            self.0 < u64::MAX,
        ensures
            r.0 == self.0 + 1,
    {
        SimTick(self.0 + 1)
    }
}

pub const SEASON_LENGTH_DAYS: u64 = 91;
pub const DAYS_PER_YEAR: u64 = 364;
pub const SECONDS_PER_DAY: u64 = 86_400;
pub const DEFAULT_START_DAY_OF_SPRING: u16 = 61;
pub const DEFAULT_START_HOUR: u8 = 8;
pub const LUNAR_MONTH_SECONDS: u64 = 2_551_442;

#[derive(Clone, Copy, Debug, PartialEq, Eq, Structural)]
pub enum Season {
    Spring,
    Summer,
    Autumn,
    Winter,
}

#[derive(Clone, Copy, Debug, PartialEq, Eq, Structural)]
pub struct CalendarSnapshot {
    pub year: u64,
    pub season: Season,
    pub day_of_season: u16,
    pub hour: u8,
    pub minute: u8,
    pub second: u8,
}

/// Seconds from the calendar epoch to the default scenario start
/// (Spring day 61, 08:00).
pub open spec fn start_seconds() -> nat {
    ((DEFAULT_START_DAY_OF_SPRING as nat - 1) * SECONDS_PER_DAY as nat
        + DEFAULT_START_HOUR as nat * 3600) as nat
}

/// Whole calendar seconds elapsed at `tick`; sub-second ticks do not count.
pub open spec fn calendar_seconds(tick: SimTick) -> nat {
    start_seconds() + tick.0 as nat / SimTick::HZ as nat
}

pub open spec fn season_of_index(index: nat) -> Season {
    if index == 0 {
        Season::Spring
    } else if index == 1 {
        Season::Summer
    } else if index == 2 {
        Season::Autumn
    } else {
        Season::Winter
    }
}

pub open spec fn calendar_at(tick: SimTick) -> CalendarSnapshot {
    let total = calendar_seconds(tick);
    let days = total / SECONDS_PER_DAY as nat;
    let second_of_day = total % SECONDS_PER_DAY as nat;
    let day_of_year = days % DAYS_PER_YEAR as nat;
    CalendarSnapshot {
        year: (days / DAYS_PER_YEAR as nat + 1) as u64,
        season: season_of_index(day_of_year / SEASON_LENGTH_DAYS as nat),
        day_of_season: (day_of_year % SEASON_LENGTH_DAYS as nat + 1) as u16,
        hour: (second_of_day / 3600) as u8,
        minute: (second_of_day % 3600 / 60) as u8,
        second: (second_of_day % 60) as u8,
    }
}

/// The season follows the day of the year, counted from the calendar epoch
/// (the default start is spring day 61, 08:00) in 364-day years of four
/// 91-day seasons: spring, summer, autumn, then winter.
pub proof fn law_calendar_season_follows_the_day_of_the_year(tick: SimTick)
    ensures
        ({
            let seconds = 5_212_800 + tick.0 as int / 20;
            let day = (seconds / 86_400) % 364;
            let c = calendar_at(tick);
            &&& day < 91 ==> c.season == Season::Spring && c.day_of_season == day + 1
            &&& 91 <= day < 182 ==> c.season == Season::Summer && c.day_of_season == day - 90
            &&& 182 <= day < 273 ==> c.season == Season::Autumn && c.day_of_season == day - 181
            &&& 273 <= day ==> c.season == Season::Winter && c.day_of_season == day - 272
            &&& c.year == seconds / 86_400 / 364 + 1
            &&& c.hour == seconds % 86_400 / 3600
        }),
{
}

/// The season after `s`; winter is followed by spring.
pub open spec fn next_season(s: Season) -> Season {
    match s {
        Season::Spring => Season::Summer,
        Season::Summer => Season::Autumn,
        Season::Autumn => Season::Winter,
        Season::Winter => Season::Spring,
    }
}

proof fn lemma_day_step(days: int)
    requires
        days >= 0,
    ensures
        season_of_index((((days + 91) % 364) / 91) as nat) == next_season(season_of_index(((days % 364) / 91) as nat)),
        ((days + 91) % 364) % 91 == (days % 364) % 91,
        (days + 91) / 364 == days / 364 + if (days % 364) / 91 == 3 { 1int } else { 0int },
{
    let d = days % 364;
    let q = days / 364;
    assert(days == q * 364 + d && 0 <= d < 364 && q >= 0) by (nonlinear_arith)
        requires days >= 0, d == days % 364, q == days / 364;
    if d + 91 < 364 {
        assert((days + 91) % 364 == d + 91 && (days + 91) / 364 == q) by (nonlinear_arith)
            requires days == q * 364 + d, 0 <= d, d + 91 < 364, q >= 0;
    } else {
        assert((days + 91) % 364 == d + 91 - 364 && (days + 91) / 364 == q + 1) by (nonlinear_arith)
            requires days == q * 364 + d, d < 364, d + 91 >= 364, q >= 0;
    }
}

proof fn lemma_seconds_step(t: int)
    requires
        t >= 0,
    ensures
        (5_212_800 + (t + 157_248_000) / 20) / 86_400 == (5_212_800 + t / 20) / 86_400 + 91,
        (5_212_800 + (t + 157_248_000) / 20) % 86_400 == (5_212_800 + t / 20) % 86_400,
{
    let seconds = 5_212_800 + t / 20;
    assert((t + 157_248_000) / 20 == t / 20 + 7_862_400);
    assert((seconds + 91 * 86_400) / 86_400 == seconds / 86_400 + 91 && (seconds + 91 * 86_400) % 86_400 == seconds
        % 86_400) by (nonlinear_arith)
        requires seconds >= 0;
}

/// Ninety-one days later it is the same day of the next season, at the same
/// time of day; the year turns only when winter gives way to spring.
pub proof fn law_calendar_one_season_later(tick: SimTick)
    requires
        tick.0 + 20 * 86_400 * 91 <= u64::MAX,
    ensures
        ({
            let now = calendar_at(tick);
            let later = calendar_at(SimTick((tick.0 + 20 * 86_400 * 91) as u64));
            &&& later.season == next_season(now.season)
            &&& later.day_of_season == now.day_of_season
            &&& later.hour == now.hour && later.minute == now.minute && later.second == now.second
            &&& later.year == if now.season == Season::Winter { now.year + 1 } else { now.year as int }
        }),
{
    let t = tick.0 as int;
    let later_tick = SimTick((tick.0 + 20 * 86_400 * 91) as u64);
    assert(later_tick.0 == t + 157_248_000);
    lemma_seconds_step(t);
    assert(calendar_seconds(tick) == 5_212_800 + t / 20);
    assert(calendar_seconds(later_tick) == 5_212_800 + (t + 157_248_000) / 20);
    let days = calendar_seconds(tick) / 86_400;
    assert(calendar_seconds(later_tick) / 86_400 == days + 91);
    lemma_day_step(days as int);
}

fn start_seconds_exec() -> (r: u64)
    ensures
        r == start_seconds(),
{
    (DEFAULT_START_DAY_OF_SPRING as u64 - 1) * SECONDS_PER_DAY + DEFAULT_START_HOUR as u64 * 3600
}

impl CalendarSnapshot {
    /// Converts the 20 Hz clock to the default 91-day-season calendar.
    pub fn at_tick(tick: SimTick) -> (r: Self)
        ensures
            r == calendar_at(tick),
            1 <= r.day_of_season <= 91,
            r.hour < 24,
            r.minute < 60,
            r.second < 60,
    {
        let total_seconds = start_seconds_exec() + tick.0 / SimTick::HZ;
        let total_days = total_seconds / SECONDS_PER_DAY;
        let second_of_day = total_seconds % SECONDS_PER_DAY;
        let day_of_year = total_days % DAYS_PER_YEAR;
        let season_index = day_of_year / SEASON_LENGTH_DAYS;
        let season = if season_index == 0 {
            Season::Spring
        } else if season_index == 1 {
            Season::Summer
        } else if season_index == 2 {
            Season::Autumn
        } else {
            Season::Winter
        };
        CalendarSnapshot {
            year: total_days / DAYS_PER_YEAR + 1,
            season,
            day_of_season: (day_of_year % SEASON_LENGTH_DAYS + 1) as u16,
            hour: (second_of_day / 3600) as u8,
            minute: (second_of_day % 3600 / 60) as u8,
            second: (second_of_day % 60) as u8,
        }
    }
}

#[derive(Clone, Copy, Debug, PartialEq, Eq, Structural)]
pub enum SkyPhase {
    Night,
    CivilTwilight,
    Day,
}

#[derive(Clone, Copy, Debug, PartialEq, Eq, Structural)]
pub struct NaturalLightSnapshot {
    pub phase: SkyPhase,
    pub moon_phase: u8,
    pub sight_radius: u16,
}

/// Day-of-year `[civil_dawn, sunrise, sunset, civil_dusk]` seconds, if the
/// table holds that day.
pub fn solar_boundaries_seconds(table: &[[u32; 4]], day_of_year: u16) -> (r: Option<[u32; 4]>)
    ensures
        day_of_year < table@.len() ==> r == Some(table@[day_of_year as int]),
        day_of_year >= table@.len() ==> r is None,
{
    if (day_of_year as usize) < table.len() {
        Some(table[day_of_year as usize])
    } else {
        None
    }
}

pub open spec fn sky_phase_at(second_of_day: nat, boundaries: [u32; 4]) -> SkyPhase {
    if second_of_day < boundaries[0] || second_of_day > boundaries[3] {
        SkyPhase::Night
    } else if second_of_day < boundaries[1] || second_of_day > boundaries[2] {
        SkyPhase::CivilTwilight
    } else {
        SkyPhase::Day
    }
}

/// Eighth of the synodic month nearest the midday closest to `total_seconds`.
pub open spec fn moon_phase_at(total_seconds: nat) -> nat {
    let nearest_midday = (total_seconds + SECONDS_PER_DAY as nat / 2) / SECONDS_PER_DAY as nat;
    let numerator = nearest_midday * SECONDS_PER_DAY as nat * 8;
    ((numerator + LUNAR_MONTH_SECONDS as nat / 2) / LUNAR_MONTH_SECONDS as nat) % 8
}

pub open spec fn night_sight_radius(folded_moon: nat) -> u16 {
    if folded_moon <= 1 {
        2
    } else if folded_moon == 2 {
        3
    } else if folded_moon == 3 {
        11
    } else {
        12
    }
}

pub open spec fn natural_light_at(tick: SimTick, table: Seq<[u32; 4]>) -> NaturalLightSnapshot {
    let total = calendar_seconds(tick);
    let day_of_year = (total / SECONDS_PER_DAY as nat) % DAYS_PER_YEAR as nat;
    let second_of_day = total % SECONDS_PER_DAY as nat;
    let phase = sky_phase_at(second_of_day, table[day_of_year as int]);
    let moon = moon_phase_at(total);
    let folded = if moon <= 8 - moon { moon } else { (8 - moon) as nat };
    NaturalLightSnapshot {
        phase,
        moon_phase: moon as u8,
        sight_radius: match phase {
            SkyPhase::Day => 60,
            SkyPhase::CivilTwilight => 8,
            SkyPhase::Night => night_sight_radius(folded),
        },
    }
}

impl NaturalLightSnapshot {
    /// Sky phase, moon phase, and daylight-capped sight radius at `tick`, read
    /// from the per-day solar boundary table of the pinned location.
    pub fn at_tick(tick: SimTick, table: &[[u32; 4]]) -> (r: Self)
        requires
            table@.len() == DAYS_PER_YEAR,
        ensures
            r == natural_light_at(tick, table@),
    {
        let total_seconds = start_seconds_exec() + tick.0 / SimTick::HZ;
        let day_of_year = (total_seconds / SECONDS_PER_DAY % DAYS_PER_YEAR) as usize;
        let second_of_day = (total_seconds % SECONDS_PER_DAY) as u32;
        let boundaries = table[day_of_year];
        let phase = if second_of_day < boundaries[0] || second_of_day > boundaries[3] {
            SkyPhase::Night
        } else if second_of_day < boundaries[1] || second_of_day > boundaries[2] {
            SkyPhase::CivilTwilight
        } else {
            SkyPhase::Day
        };
        let nearest_midday = ((total_seconds + SECONDS_PER_DAY / 2) / SECONDS_PER_DAY) as u128;
        assert(nearest_midday <= 0x1_0000_0000_0000_0000u128);
        let phase_numerator = nearest_midday * (SECONDS_PER_DAY as u128) * 8;
        let rounded_phase = (phase_numerator + (LUNAR_MONTH_SECONDS / 2) as u128)
            / (LUNAR_MONTH_SECONDS as u128);
        let moon_phase = (rounded_phase % 8) as u8;
        let folded_moon = if moon_phase <= 8 - moon_phase { moon_phase } else { 8 - moon_phase };
        let sight_radius: u16 = match phase {
            SkyPhase::Day => 60,
            SkyPhase::CivilTwilight => 8,
            SkyPhase::Night => {
                if folded_moon <= 1 {
                    2
                } else if folded_moon == 2 {
                    3
                } else if folded_moon == 3 {
                    11
                } else {
                    12
                }
            },
        };
        NaturalLightSnapshot { phase, moon_phase, sight_radius }
    }
}

} // verus!
