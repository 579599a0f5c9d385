//! Wall-clock style breakdown of a microsecond counter, and a one-shot timer.

use vstd::prelude::*;

verus! {

/// Elapsed time split into days, hours, minutes, seconds, milliseconds and
/// microseconds.
#[derive(Debug, Clone, Copy, PartialEq, Eq, Structural)]
pub struct Time {
    pub day: u32,
    pub hour: u32,
    pub minute: u32,
    pub second: u32,
    pub milli_second: u32,
    pub micro_second: u32,
}

/// Breakdown of a microsecond count: the value each breakdown field gains
/// when `elapsed_micros` microseconds are added.
pub open spec fn micros_to_day(elapsed_micros: int) -> int {
    elapsed_micros / 1_000_000 / 60 / 60 / 24
}

pub open spec fn micros_to_hour(elapsed_micros: int) -> int {
    (elapsed_micros / 1_000_000 / 60 / 60) % 24
}

pub open spec fn micros_to_minute(elapsed_micros: int) -> int {
    (elapsed_micros / 1_000_000 / 60) % 60
}

pub open spec fn micros_to_second(elapsed_micros: int) -> int {
    (elapsed_micros / 1_000_000) % 60
}

pub open spec fn micros_to_milli(elapsed_micros: int) -> int {
    (elapsed_micros / 1_000) % 1_000
}

pub open spec fn micros_to_micro(elapsed_micros: int) -> int {
    elapsed_micros % 1_000
}

impl Time {
    /// Every field of `other` is at most the matching field of `self`.
    pub open spec fn spec_dominates(&self, other: &Time) -> bool {
        &&& other.day <= self.day
        &&& other.hour <= self.hour
        &&& other.minute <= self.minute
        &&& other.second <= self.second
        &&& other.milli_second <= self.milli_second
        &&& other.micro_second <= self.micro_second
    }

    fn add(&mut self, other: &Self)
        requires
            old(self).day + other.day <= u32::MAX,
            old(self).hour + other.hour <= u32::MAX,
            old(self).minute + other.minute <= u32::MAX,
            old(self).second + other.second <= u32::MAX,
            old(self).milli_second + other.milli_second <= u32::MAX,
            old(self).micro_second + other.micro_second <= u32::MAX,
        ensures
            final(self).day == old(self).day + other.day,
            final(self).hour == old(self).hour + other.hour,
            final(self).minute == old(self).minute + other.minute,
            final(self).second == old(self).second + other.second,
            final(self).milli_second == old(self).milli_second + other.milli_second,
            final(self).micro_second == old(self).micro_second + other.micro_second,
    {
        self.day += other.day;
        self.hour += other.hour;
        self.minute += other.minute;
        self.second += other.second;
        self.milli_second += other.milli_second;
        self.micro_second += other.micro_second;
    }

    fn sub(&self, other: &Self) -> (r: Self)
        requires
            self.spec_dominates(other),
        ensures
            r.day == self.day - other.day,
            r.hour == self.hour - other.hour,
            r.minute == self.minute - other.minute,
            r.second == self.second - other.second,
            r.milli_second == self.milli_second - other.milli_second,
            r.micro_second == self.micro_second - other.micro_second,
    {
        Self {
            day: self.day - other.day,
            hour: self.hour - other.hour,
            minute: self.minute - other.minute,
            second: self.second - other.second,
            milli_second: self.milli_second - other.milli_second,
            micro_second: self.micro_second - other.micro_second,
        }
    }

    /// The breakdown of `elapsed_micros`, starting from all-zero fields.
    pub fn new(elapsed_micros: u32) -> (r: Self)
        ensures
            r.day == micros_to_day(elapsed_micros as int),
            r.hour == micros_to_hour(elapsed_micros as int),
            r.minute == micros_to_minute(elapsed_micros as int),
            r.second == micros_to_second(elapsed_micros as int),
            r.milli_second == micros_to_milli(elapsed_micros as int),
            r.micro_second == micros_to_micro(elapsed_micros as int),
    {
        let mut time = Self {
            day: 0,
            hour: 0,
            minute: 0,
            second: 0,
            milli_second: 0,
            micro_second: 0,
        };
        time.compute(elapsed_micros);
        time
    }

    /// Adds the breakdown of `elapsed_micros` onto the current fields.
    pub fn compute(&mut self, elapsed_micros: u32)
        requires
            old(self).day + 1 <= u32::MAX,
            old(self).hour + 23 <= u32::MAX,
            old(self).minute + 59 <= u32::MAX,
            old(self).second + 59 <= u32::MAX,
            old(self).milli_second + 999 <= u32::MAX,
            old(self).micro_second + 999 <= u32::MAX,
        ensures
            final(self).day == old(self).day + micros_to_day(elapsed_micros as int),
            final(self).hour == old(self).hour + micros_to_hour(elapsed_micros as int),
            final(self).minute == old(self).minute + micros_to_minute(elapsed_micros as int),
            final(self).second == old(self).second + micros_to_second(elapsed_micros as int),
            final(self).milli_second == old(self).milli_second + micros_to_milli(elapsed_micros as int),
            final(self).micro_second == old(self).micro_second + micros_to_micro(elapsed_micros as int),
    {
        let elapsed_millis = elapsed_micros / 1_000;
        let micro_second = elapsed_micros - (elapsed_millis * 1_000);

        let elapsed_sec = elapsed_millis / 1_000;
        let milli_second = elapsed_millis - (elapsed_sec * 1_000);

        let elapsed_min = elapsed_sec / 60;
        let second = elapsed_sec - (elapsed_min * 60);

        let elapsed_hours = elapsed_min / 60;
        let minute = elapsed_min - (elapsed_hours * 60);

        let day = elapsed_hours / 24;
        let hour = elapsed_hours - (day * 24);

        self.add(&Self {
            day,
            hour,
            minute,
            second,
            milli_second,
            micro_second,
        })
    }

    /// Field-wise difference to an earlier breakdown. `None` when `old_time`
    /// is not strictly inside `self` field by field.
    pub fn elapsed_since(&self, old_time: &Self) -> (r: Option<Self>)
        ensures
            match r {
                Some(d) => {
                    &&& self.spec_dominates(old_time)
                    &&& *self != *old_time
                    &&& d.day == self.day - old_time.day
                    &&& d.hour == self.hour - old_time.hour
                    &&& d.minute == self.minute - old_time.minute
                    &&& d.second == self.second - old_time.second
                    &&& d.milli_second == self.milli_second - old_time.milli_second
                    &&& d.micro_second == self.micro_second - old_time.micro_second
                },
                None => !self.spec_dominates(old_time) || *self == *old_time,
            },
    {
        let dominates = old_time.day <= self.day && old_time.hour <= self.hour
            && old_time.minute <= self.minute && old_time.second <= self.second
            && old_time.milli_second <= self.milli_second
            && old_time.micro_second <= self.micro_second;
        if dominates && !(*self == *old_time) {
            Some(self.sub(old_time))
        } else {
            None
        }
    }

    /// Field-wise difference from `self` up to a later breakdown.
    pub fn elapsed(&self, new_time: &Self) -> (r: Option<Self>)
        ensures
            match r {
                Some(d) => {
                    &&& new_time.spec_dominates(self)
                    &&& *self != *new_time
                    &&& d.day == new_time.day - self.day
                    &&& d.hour == new_time.hour - self.hour
                    &&& d.minute == new_time.minute - self.minute
                    &&& d.second == new_time.second - self.second
                    &&& d.milli_second == new_time.milli_second - self.milli_second
                    &&& d.micro_second == new_time.micro_second - self.micro_second
                },
                None => !new_time.spec_dominates(self) || *self == *new_time,
            },
    {
        new_time.elapsed_since(self)
    }
}

/// The breakdown of the 64-bit system clock: like `Time`, but computed
/// from a full 64-bit microsecond count, so days accumulate.
#[derive(Debug, Clone, Copy, PartialEq, Eq, Structural)]
pub struct SysTime {
    pub day: u32,
    pub hour: u32,
    pub minute: u32,
    pub second: u32,
    pub milli_second: u32,
    pub micro_second: u32,
}

impl SysTime {
    /// Every field of `other` is at most the matching field of `self`.
    pub open spec fn spec_dominates(&self, other: &SysTime) -> bool {
        &&& other.day <= self.day
        &&& other.hour <= self.hour
        &&& other.minute <= self.minute
        &&& other.second <= self.second
        &&& other.milli_second <= self.milli_second
        &&& other.micro_second <= self.micro_second
    }

    fn add(&mut self, other: &Self)
        requires
            old(self).day + other.day <= u32::MAX,
            old(self).hour + other.hour <= u32::MAX,
            old(self).minute + other.minute <= u32::MAX,
            old(self).second + other.second <= u32::MAX,
            old(self).milli_second + other.milli_second <= u32::MAX,
            old(self).micro_second + other.micro_second <= u32::MAX,
        ensures
            final(self).day == old(self).day + other.day,
            final(self).hour == old(self).hour + other.hour,
            final(self).minute == old(self).minute + other.minute,
            final(self).second == old(self).second + other.second,
            final(self).milli_second == old(self).milli_second + other.milli_second,
            final(self).micro_second == old(self).micro_second + other.micro_second,
    {
        self.day += other.day;
        self.hour += other.hour;
        self.minute += other.minute;
        self.second += other.second;
        self.milli_second += other.milli_second;
        self.micro_second += other.micro_second;
    }

    fn sub(&self, other: &Self) -> (r: Self)
        requires
            self.spec_dominates(other),
        ensures
            r.day == self.day - other.day,
            r.hour == self.hour - other.hour,
            r.minute == self.minute - other.minute,
            r.second == self.second - other.second,
            r.milli_second == self.milli_second - other.milli_second,
            r.micro_second == self.micro_second - other.micro_second,
    {
        Self {
            day: self.day - other.day,
            hour: self.hour - other.hour,
            minute: self.minute - other.minute,
            second: self.second - other.second,
            milli_second: self.milli_second - other.milli_second,
            micro_second: self.micro_second - other.micro_second,
        }
    }

    /// The breakdown of `elapsed_micros`, starting from all-zero fields.
    pub fn new(elapsed_micros: u64) -> (r: Self)
        ensures
            r.day == micros_to_day(elapsed_micros as int),
            r.hour == micros_to_hour(elapsed_micros as int),
            r.minute == micros_to_minute(elapsed_micros as int),
            r.second == micros_to_second(elapsed_micros as int),
            r.milli_second == micros_to_milli(elapsed_micros as int),
            r.micro_second == micros_to_micro(elapsed_micros as int),
    {
        let mut time = Self {
            day: 0,
            hour: 0,
            minute: 0,
            second: 0,
            milli_second: 0,
            micro_second: 0,
        };
        time.compute(elapsed_micros);
        time
    }

    /// Adds the breakdown of `elapsed_micros` onto the current fields. The
    /// whole 64-bit range adds at most 213 503 982 days.
    pub fn compute(&mut self, elapsed_micros: u64)
        requires
            old(self).day + 213_503_982 <= u32::MAX,
            old(self).hour + 23 <= u32::MAX,
            old(self).minute + 59 <= u32::MAX,
            old(self).second + 59 <= u32::MAX,
            old(self).milli_second + 999 <= u32::MAX,
            old(self).micro_second + 999 <= u32::MAX,
        ensures
            final(self).day == old(self).day + micros_to_day(elapsed_micros as int),
            final(self).hour == old(self).hour + micros_to_hour(elapsed_micros as int),
            final(self).minute == old(self).minute + micros_to_minute(elapsed_micros as int),
            final(self).second == old(self).second + micros_to_second(elapsed_micros as int),
            final(self).milli_second == old(self).milli_second + micros_to_milli(
                elapsed_micros as int,
            ),
            final(self).micro_second == old(self).micro_second + micros_to_micro(
                elapsed_micros as int,
            ),
    {
        let elapsed_millis = elapsed_micros / 1_000;
        let micro_second = elapsed_micros - (elapsed_millis * 1_000);

        let elapsed_sec = elapsed_millis / 1_000;
        let milli_second = elapsed_millis - (elapsed_sec * 1_000);

        let elapsed_min = elapsed_sec / 60;
        let second = elapsed_sec - (elapsed_min * 60);

        let elapsed_hours = elapsed_min / 60;
        let minute = elapsed_min - (elapsed_hours * 60);

        let day = elapsed_hours / 24;
        let hour = elapsed_hours - (day * 24);

        proof {
            assert(day <= 213_503_982);
        }
        self.add(&Self {
            day: day as u32,
            hour: hour as u32,
            minute: minute as u32,
            second: second as u32,
            milli_second: milli_second as u32,
            micro_second: micro_second as u32,
        })
    }

    /// Field-wise difference to an earlier breakdown. `None` when `old_time`
    /// is not strictly inside `self` field by field.
    pub fn elapsed_since(&self, old_time: &Self) -> (r: Option<Self>)
        ensures
            match r {
                Some(d) => {
                    &&& self.spec_dominates(old_time)
                    &&& *self != *old_time
                    &&& d.day == self.day - old_time.day
                    &&& d.hour == self.hour - old_time.hour
                    &&& d.minute == self.minute - old_time.minute
                    &&& d.second == self.second - old_time.second
                    &&& d.milli_second == self.milli_second - old_time.milli_second
                    &&& d.micro_second == self.micro_second - old_time.micro_second
                },
                None => !self.spec_dominates(old_time) || *self == *old_time,
            },
    {
        let dominates = old_time.day <= self.day && old_time.hour <= self.hour
            && old_time.minute <= self.minute && old_time.second <= self.second
            && old_time.milli_second <= self.milli_second
            && old_time.micro_second <= self.micro_second;
        if dominates && !(*self == *old_time) {
            Some(self.sub(old_time))
        } else {
            None
        }
    }
}

/// Why a timer query could not be answered.
#[derive(Debug, PartialEq, Eq, Structural)]
pub enum TimerError {
    NotStarted,
}

enum TimerState {
    Stopped,
    Started { t_start_us: u64 },
    Expired,
}

/// One-shot timer over an external microsecond clock: started at a timestamp,
/// it reports expiry once the clock has advanced past the timeout.
pub struct Timer {
    timeout_us: u64,
    state: TimerState,
}

impl Timer {
    pub closed spec fn spec_timeout(&self) -> u64 {
        self.timeout_us
    }

    pub closed spec fn is_stopped(&self) -> bool {
        matches!(self.state, TimerState::Stopped)
    }

    pub closed spec fn is_started(&self) -> bool {
        matches!(self.state, TimerState::Started { .. })
    }

    pub closed spec fn is_expired(&self) -> bool {
        matches!(self.state, TimerState::Expired)
    }

    pub closed spec fn spec_start_time(&self) -> u64 {
        match self.state {
            TimerState::Started { t_start_us } => t_start_us,
            _ => 0,
        }
    }

    /// The timer is in exactly one of its three states.
    pub proof fn lemma_state_partition(&self)
        ensures
            self.is_stopped() || self.is_started() || self.is_expired(),
            self.is_stopped() ==> !self.is_started() && !self.is_expired(),
            self.is_started() ==> !self.is_stopped() && !self.is_expired(),
            self.is_expired() ==> !self.is_stopped() && !self.is_started(),
    {
    }

    pub fn new(timeout_us: u64) -> (r: Self)
        ensures
            r.is_stopped(),
            !r.is_started(),
            !r.is_expired(),
            r.spec_timeout() == timeout_us,
    {
        Self {
            timeout_us,
            state: TimerState::Stopped,
        }
    }

    pub fn start(&mut self, t_start_us: u64)
        ensures
            final(self).is_started(),
            !final(self).is_stopped(),
            !final(self).is_expired(),
            final(self).spec_start_time() == t_start_us,
            final(self).spec_timeout() == old(self).spec_timeout(),
    {
        self.state = TimerState::Started { t_start_us }
    }

    pub fn stop(&mut self)
        ensures
            final(self).is_stopped(),
            !final(self).is_started(),
            !final(self).is_expired(),
            final(self).spec_timeout() == old(self).spec_timeout(),
    {
        self.state = TimerState::Stopped
    }

    /// Moves a started timer to `Expired` once `micros_us - start >= timeout`.
    pub fn update(&mut self, micros_us: u64)
        requires
            old(self).is_started() ==> old(self).spec_start_time() <= micros_us,
        ensures
            final(self).spec_timeout() == old(self).spec_timeout(),
            old(self).is_started() && micros_us - old(self).spec_start_time() >= old(self).spec_timeout() ==> final(self).is_expired() && !final(self).is_started() && !final(self).is_stopped(),
            old(self).is_started() && micros_us - old(self).spec_start_time() < old(self).spec_timeout() ==> *final(self) == *old(self),
            !old(self).is_started() ==> *final(self) == *old(self),
    {
        match self.state {
            TimerState::Stopped | TimerState::Expired => {},
            TimerState::Started { t_start_us } => {
                if (micros_us - t_start_us) >= self.timeout_us {
                    self.state = TimerState::Expired
                }
            },
        }
    }

    /// Whether the timer has run out, updating it first; asking a stopped
    /// timer is an error.
    pub fn has_expired(&mut self, micros_us: u64) -> (r: Result<bool, TimerError>)
        requires
            old(self).is_started() ==> old(self).spec_start_time() <= micros_us,
        ensures
            final(self).spec_timeout() == old(self).spec_timeout(),
            old(self).is_stopped() ==> r == Result::<bool, TimerError>::Err(
                TimerError::NotStarted,
            ) && *final(self) == *old(self),
            old(self).is_expired() ==> r == Result::<bool, TimerError>::Ok(true) && *final(self)
                == *old(self),
            old(self).is_started() ==> r == Result::<bool, TimerError>::Ok(
                micros_us - old(self).spec_start_time() >= old(self).spec_timeout(),
            ),
            old(self).is_started() && micros_us - old(self).spec_start_time() >= old(self).spec_timeout() ==> final(self).is_expired() && !final(self).is_started() && !final(self).is_stopped(),
            old(self).is_started() && micros_us - old(self).spec_start_time() < old(self).spec_timeout() ==> *final(self) == *old(self),
    {
        if let TimerState::Stopped = self.state {
            Err(TimerError::NotStarted)
        } else {
            self.update(micros_us);
            Ok(matches!(self.state, TimerState::Expired))
        }
    }

    pub fn has_started(&self) -> (r: bool)
        ensures
            r == self.is_started(),
    {
        matches!(self.state, TimerState::Started { t_start_us: _ })
    }
}

} // verus!
