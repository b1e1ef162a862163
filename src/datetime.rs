use vstd::prelude::*;

verus! {

/// World-time ticks in one in-game day.
pub const TICKS_PER_DAY: u32 = 24000;

/// World-time ticks in one in-game hour.
pub const TICKS_PER_HOUR: u32 = 1000;

/// Minutes in one in-game hour.
pub const MINUTES_PER_HOUR: u32 = 60;

/// The largest value that a day, hour or minute field holds.
pub const FIELD_MAX: usize = 255;

/// The smallest whole number of ticks that is not shorter than `minute` minutes,
/// that is `ceil(minute * 1000 / 60)`.
pub open spec fn minute_ticks(minute: int) -> int {
    (minute * TICKS_PER_HOUR + (MINUTES_PER_HOUR - 1)) / MINUTES_PER_HOUR as int
}

/// The world time of `minute` past `hour` on `day`, day 1 starting at tick 0.
pub open spec fn ticks(day: int, hour: int, minute: int) -> int {
    (day - 1) * TICKS_PER_DAY + hour * TICKS_PER_HOUR + minute_ticks(minute)
}

/// Why a requested moment was refused.
#[derive(Debug, Clone, Copy, PartialEq, Eq, Structural)]
pub enum DateError {
    /// The day was 0; days are counted from 1.
    InvalidDay,
    /// The day, hour or minute was above 255.
    OutOfRange,
}

/// A requested in-game moment.
pub struct SevendaysDatetimes {
    pub day: u8,
    pub hour: u8,
    pub minute: u8,
}

impl SevendaysDatetimes {
    /// Stores the three components, each taken modulo 256.
    pub fn new(day: usize, hour: usize, minute: usize) -> (r: Self)
        ensures
            r.day == day % 256,
            r.hour == hour % 256,
            r.minute == minute % 256,
    {
        Self { day: (day % 256) as u8, hour: (hour % 256) as u8, minute: (minute % 256) as u8 }
    }

    /// Stores the three components, refusing a day of 0 and any component
    /// that does not fit in a byte.
    pub fn checked_new(day: usize, hour: usize, minute: usize) -> (r: Result<Self, DateError>)
        ensures
            day == 0 ==> r == Err::<Self, DateError>(DateError::InvalidDay),
            day != 0 && (day > FIELD_MAX || hour > FIELD_MAX || minute > FIELD_MAX) ==> r
                == Err::<Self, DateError>(DateError::OutOfRange),
            r is Ok <==> (1 <= day <= FIELD_MAX && hour <= FIELD_MAX && minute <= FIELD_MAX),
            r matches Ok(d) ==> d.day == day && d.hour == hour && d.minute == minute,
    {
        if day == 0 {
            Err(DateError::InvalidDay)
        } else if day > FIELD_MAX || hour > FIELD_MAX || minute > FIELD_MAX {
            Err(DateError::OutOfRange)
        } else {
            Ok(Self { day: day as u8, hour: hour as u8, minute: minute as u8 })
        }
    }

    /// The world time of this moment: `(day - 1) * 24000 + hour * 1000`
    /// plus the minutes rounded up to whole ticks. Never `None`.
    pub fn to_utctime(&self) -> (r: Option<u32>)
        requires
            self.day >= 1,
        ensures
            r is Some,
            r->0 == ticks(self.day as int, self.hour as int, self.minute as int),
            ticks(self.day as int, self.hour as int, self.minute as int) >= 0,
    {
        let day: u32 = (self.day as u32 - 1) * TICKS_PER_DAY;
        let hour: u32 = self.hour as u32 * TICKS_PER_HOUR;
        let minute: u32 = (self.minute as u32 * TICKS_PER_HOUR + (MINUTES_PER_HOUR - 1))
            / MINUTES_PER_HOUR;
        assert(minute <= 4300);
        Some(day + hour + minute)
    }
}

/// The world time of `minute` past `hour` on `day`, as the `settime` command
/// takes it, or why the request was refused.
pub fn world_time(day: usize, hour: usize, minute: usize) -> (r: Result<u32, DateError>)
    ensures
        day == 0 ==> r == Err::<u32, DateError>(DateError::InvalidDay),
        day != 0 && (day > FIELD_MAX || hour > FIELD_MAX || minute > FIELD_MAX) ==> r
            == Err::<u32, DateError>(DateError::OutOfRange),
        r is Ok <==> (1 <= day <= FIELD_MAX && hour <= FIELD_MAX && minute <= FIELD_MAX),
        r matches Ok(t) ==> t == ticks(day as int, hour as int, minute as int),
{
    match SevendaysDatetimes::checked_new(day, hour, minute) {
        Ok(d) => Ok(d.to_utctime().unwrap()),
        Err(e) => Err(e),
    }
}

/// One day later is always exactly 24000 ticks later.
pub proof fn lemma_day_boundary(day: u8)
    requires
        day >= 2,
    ensures
        ticks(day as int, 0, 0) - ticks(day - 1, 0, 0) == TICKS_PER_DAY,
{
}

/// One hour later on the same day is always exactly 1000 ticks later.
pub proof fn lemma_hour_boundary(day: u8, hour: u8)
    requires
        day >= 1,
        hour >= 1,
    ensures
        ticks(day as int, hour as int, 0) - ticks(day as int, hour - 1, 0) == TICKS_PER_HOUR,
{
}

/// Minutes are rounded up: the ticks given for `minute` are the least whole
/// number of ticks that covers `minute * 1000 / 60`.
pub proof fn lemma_minutes_round_up(minute: u8)
    ensures
        minute_ticks(minute as int) * MINUTES_PER_HOUR >= minute * TICKS_PER_HOUR,
        (minute_ticks(minute as int) - 1) * MINUTES_PER_HOUR < minute * TICKS_PER_HOUR,
{
}

} // verus!
