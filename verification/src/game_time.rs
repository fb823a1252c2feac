//! The in-game clock: days, hours and minutes, and how far it is to a day.
use vstd::prelude::*;
use crate::text::{decimal, digit_char, push_char, push_decimal};

verus! {

/// Minutes in one in-game day.
pub open spec fn minutes_per_day() -> int {
    1440
}

/// Game ticks per in-game minute: the clock moves one minute every four ticks.
pub open spec fn ticks_per_minute() -> int {
    4
}

/// The in-game clock.
#[derive(Clone, Copy, Debug, PartialEq, Eq, Structural)]
pub struct GameTime {
    pub day: u64,
    pub hour: u8,
    pub minute: u8,
}

impl GameTime {
    /// A clock reading is a time of day: minutes below 60, hours below 24.
    pub open spec fn wf(self) -> bool {
        self.minute < 60 && self.hour < 24
    }

    /// Minutes since the start of day 0.
    pub open spec fn total_minutes(self) -> int {
        self.day * minutes_per_day() + self.hour * 60 + self.minute
    }

    /// Whether advancing the minutes by `step` stays within the field types.
    pub open spec fn can_advance(self, step: int) -> bool {
        &&& self.minute + step <= u8::MAX
        &&& self.minute + step >= 60 ==> {
            &&& self.hour + 1 <= u8::MAX
            &&& self.hour + 1 >= 24 ==> self.day + 1 <= u64::MAX
        }
    }

    /// The clock after adding `step` minutes: a reading of 60 or more minutes
    /// rolls over to minute 0 of the next hour (dropping any excess), and an
    /// hour of 24 or more rolls over to hour 0 of the next day.
    pub open spec fn advanced(self, step: int) -> GameTime {
        if self.minute + step >= 60 {
            if self.hour + 1 >= 24 {
                GameTime { day: (self.day + 1) as u64, hour: 0, minute: 0 }
            } else {
                GameTime { day: self.day, hour: (self.hour + 1) as u8, minute: 0 }
            }
        } else {
            GameTime { day: self.day, hour: self.hour, minute: (self.minute + step) as u8 }
        }
    }

    /// Day 0, 00:00.
    pub fn new() -> (t: Self)
        ensures
            t.day == 0,
            t.hour == 0,
            t.minute == 0,
    {
        GameTime { day: 0, hour: 0, minute: 0 }
    }

    fn advance(&mut self, step: u8)
        requires
            old(self).can_advance(step as int),
        ensures
            *final(self) == old(self).advanced(step as int),
    {
        self.minute = self.minute + step;
        if self.minute >= 60 {
            self.minute = 0;
            self.hour = self.hour + 1;
            if self.hour >= 24 {
                self.hour = 0;
                self.day = self.day + 1;
            }
        }
    }

    /// Moves the clock on by one minute.
    pub fn increment(&mut self)
        requires
            old(self).can_advance(1),
        ensures
            *final(self) == old(self).advanced(1),
    {
        self.advance(1);
    }

    /// Moves the clock on by fifteen minutes; a sum of 60 or more minutes
    /// lands on the start of the next hour.
    pub fn increment_15(&mut self)
        requires
            old(self).can_advance(15),
        ensures
            *final(self) == old(self).advanced(15),
    {
        self.advance(15);
    }

    /// Moves the clock on by one day.
    pub fn increment_day(&mut self)
        requires
            old(self).day < u64::MAX,
        ensures
            final(self).day == old(self).day + 1,
            final(self).hour == old(self).hour,
            final(self).minute == old(self).minute,
    {
        self.day = self.day + 1;
    }

    /// The count that `minutes_to_midnight` computes: the minutes left in the
    /// current hour plus sixty for every hour left in the day, the current
    /// hour included.
    pub open spec fn spec_minutes_to_midnight(self) -> int {
        (60 - self.minute) + (24 - self.hour) * 60
    }

    /// Whether the minute count fits the eight-bit arithmetic it is computed in.
    pub open spec fn minutes_to_midnight_fits(self) -> bool {
        &&& self.minute <= 60
        &&& self.hour <= 24
        &&& (24 - self.hour) * 60 <= u8::MAX
        &&& self.spec_minutes_to_midnight() <= u8::MAX
    }

    /// Minutes left until midnight, counted as `spec_minutes_to_midnight` says.
    pub fn minutes_to_midnight(&self) -> (m: u64)
        requires
            self.minutes_to_midnight_fits(),
        ensures
            m == self.spec_minutes_to_midnight(),
    {
        let current_hour: u8 = self.hour;
        let current_minute: u8 = self.minute;
        let minutes_in_hour: u8 = 60;
        let hours_in_day: u8 = 24;
        let minutes_left_in_hour: u8 = minutes_in_hour - current_minute;
        let hours_left_in_day: u8 = hours_in_day - current_hour;
        let minutes_left_in_day: u8 = minutes_left_in_hour + (hours_left_in_day * minutes_in_hour);
        minutes_left_in_day as u64
    }

    /// The ticks that `ticks_until_day` reports for `day`.
    pub open spec fn spec_ticks_until_day(self, day: int) -> int {
        (day - self.day) * minutes_per_day() * ticks_per_minute()
            + self.spec_minutes_to_midnight() * ticks_per_minute()
    }

    /// Whether `ticks_until_day(day)` can be computed without overflow or underflow.
    pub open spec fn ticks_until_day_fits(self, day: int) -> bool {
        &&& self.minutes_to_midnight_fits()
        &&& self.day <= day
        &&& (day - self.day) * minutes_per_day() * ticks_per_minute() <= u64::MAX
        &&& self.spec_ticks_until_day(day) <= u64::MAX
    }

    /// Game ticks until the start of `day`: four ticks per minute for every
    /// whole day between now and `day`, plus those to midnight.
    pub fn ticks_until_day(&self, day: u64) -> (t: u64)
        requires
            self.ticks_until_day_fits(day as int),
        ensures
            t == self.spec_ticks_until_day(day as int),
    {
        let minutes_left_in_day = self.minutes_to_midnight();
        let ticks_left_in_day = minutes_left_in_day * 4;
        let days_left = day - self.day;
        assert(days_left * 24 * 60 * 4 == days_left * 5760) by (nonlinear_arith);
        let ticks_left = days_left * 24 * 60 * 4;
        let total = ticks_left + ticks_left_in_day;
        if total > 0 { total } else { 0 }
    }
}

impl Default for GameTime {
    fn default() -> (t: Self)
        ensures
            t.day == 0 && t.hour == 0 && t.minute == 0,
    {
        GameTime::new()
    }
}

/// Two digits at least: a value below ten gets a leading zero.
pub open spec fn padded(n: nat) -> Seq<char> {
    if n < 10 {
        seq!['0'].add(decimal(n))
    } else {
        decimal(n)
    }
}

/// The clock as the header shows it: `Day: DD, Time HH:MM`.
pub open spec fn spec_format_game_time(t: GameTime) -> Seq<char> {
    "Day: "@ + padded(t.day as nat) + ", Time "@ + padded(t.hour as nat) + ":"@ + padded(
        t.minute as nat,
    )
}

fn push_padded(s: &mut String, n: u64)
    ensures
        final(s)@ == old(s)@ + padded(n as nat),
{
    if n < 10 {
        push_char(s, '0');
    }
    push_decimal(s, n);
    proof {
        if n < 10 {
            assert(old(s)@.push('0') + decimal(n as nat) == old(s)@ + (seq!['0'] + decimal(
                n as nat,
            )));
        }
    }
}

/// Renders the clock as `Day: DD, Time HH:MM`, each field padded to two digits.
pub fn format_game_time(game_time: &GameTime) -> (s: String)
    ensures
        s@ == spec_format_game_time(*game_time),
{
    let mut s = String::new();
    s.append("Day: ");
    push_padded(&mut s, game_time.day);
    s.append(", Time ");
    push_padded(&mut s, game_time.hour as u64);
    s.append(":");
    push_padded(&mut s, game_time.minute as u64);
    assert(s@ =~= spec_format_game_time(*game_time));
    s
}

/// The season's price divisor for electricity on `day`: days count from 1
/// in a 360-day year of four 90-day seasons.
pub open spec fn spec_get_season(day: nat) -> u64 {
    let day_in_year: int = if day == 0 { 0 } else { (day - 1) % 360 + 1 };
    if day_in_year <= 90 {
        20000
    } else if day_in_year <= 180 {
        14000
    } else if day_in_year <= 270 {
        16000
    } else if day_in_year <= 360 {
        18000
    } else {
        0
    }
}

/// The season's price divisor for electricity on `day`.
pub fn get_season(day: u64) -> (v: u64)
    ensures
        v == spec_get_season(day as nat),
{
    let day_in_year: u64 = if day == 0 { 0 } else { (day - 1) % 360 + 1 };
    if day_in_year <= 90 {
        20000
    } else if day_in_year <= 180 {
        14000
    } else if day_in_year <= 270 {
        16000
    } else if day_in_year <= 360 {
        18000
    } else {
        0
    }
}

/// Law: one minute's tick advances a well-formed clock short of the last day by exactly one
/// minute of total time and keeps it well-formed.
pub proof fn lemma_increment_adds_one_minute(t: GameTime)
    requires
        t.wf(),
        t.day < u64::MAX,
    ensures
        t.advanced(1).wf(),
        t.advanced(1).total_minutes() == t.total_minutes() + 1,
{
    assert((t.day + 1) * 1440 == t.day * 1440 + 1440) by (nonlinear_arith);
}

/// Law: a fifteen-minute step keeps a well-formed clock short of the last
/// day well-formed; it adds
/// fifteen minutes when the hour does not roll over, and otherwise lands on
/// the start of the next hour.
pub proof fn lemma_increment_15(t: GameTime)
    requires
        t.wf(),
        t.day < u64::MAX,
    ensures
        t.advanced(15).wf(),
        t.minute < 45 ==> t.advanced(15).total_minutes() == t.total_minutes() + 15,
        t.minute >= 45 ==> t.advanced(15).total_minutes() == t.total_minutes() - t.minute + 60,
{
    assert((t.day + 1) * 1440 == t.day * 1440 + 1440) by (nonlinear_arith);
}

/// Law: a well-formed clock short of the last day can always take a
/// one-minute or fifteen-minute step.
pub proof fn lemma_wf_can_advance(t: GameTime)
    requires
        t.wf(),
        t.day < u64::MAX,
    ensures
        t.can_advance(1),
        t.can_advance(15),
{
}

/// Law: the seasons of a 360-day year, day 1 being the first: electricity's
/// price divisor is 20 000 for days 1 to 90 (and on day 0), 14 000 for days
/// 91 to 180, 16 000 for days 181 to 270 and 18 000 for days 271 to 360.
pub proof fn lemma_season_table(day: nat)
    ensures
        day <= 90 ==> spec_get_season(day) == 20000,
        91 <= day <= 180 ==> spec_get_season(day) == 14000,
        181 <= day <= 270 ==> spec_get_season(day) == 16000,
        271 <= day <= 360 ==> spec_get_season(day) == 18000,
{
    assert(1 <= day <= 360 ==> (day - 1) % 360 == day - 1) by (nonlinear_arith);
}

/// Law: the clock reads `Day: `, the day, `, Time `, the hour, `:` and the
/// minute, each number written with at least two digits: a leading zero
/// below ten, none from ten on.
pub proof fn lemma_format_game_time_form(t: GameTime, n: nat)
    ensures
        spec_format_game_time(t) == "Day: "@ + padded(t.day as nat) + ", Time "@ + padded(
            t.hour as nat,
        ) + ":"@ + padded(t.minute as nat),
        n < 10 ==> padded(n) == seq!['0', digit_char(n)],
        n >= 10 ==> padded(n) == decimal(n),
{
    if n < 10 {
        assert(padded(n) =~= seq!['0', digit_char(n)]);
    }
}

/// Law: the season divisor repeats every 360 days.
pub proof fn lemma_season_yearly(day: nat)
    requires
        day >= 1,
    ensures
        spec_get_season(day + 360) == spec_get_season(day),
        spec_get_season(day) > 0,
{
    assert((day + 360 - 1) % 360 == (day - 1) % 360) by (nonlinear_arith)
        requires day >= 1;
}

} // verus!
