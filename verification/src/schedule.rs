//! The time trigger: from a target moment and the clock's reading to what
//! the caller does next. The caller sleeps and reads the clock; every
//! decision is made here.

use crate::clock::{civil_seconds, seconds_of, CivilDate, TimeOfDay};
use crate::error::ErrorKind;
use crate::notice::{Notice, NoticeView};
use vstd::prelude::*;

verus! {

/// The sleep between two looks at the clock while more than the fine window
/// is left, in milliseconds.
pub const COARSE_SLEEP_MS: u64 = 1000;

/// The sleep between two looks at the clock within the fine window, in
/// milliseconds.
pub const FINE_SLEEP_MS: u64 = 50;

/// The last seconds before the target, in which the clock is read finely.
pub const FINE_WINDOW_SECS: i64 = 60;

/// A countdown message.
#[derive(Clone, Copy, Debug, PartialEq, Eq, Structural)]
pub enum Countdown {
    /// Whole minutes are left.
    Minutes(i64),
    /// Seconds are left.
    Seconds(i64),
}

/// What the caller of the scheduler does next.
#[derive(Clone, Copy, Debug, PartialEq, Eq, Structural)]
pub enum Tick {
    /// The target is reached: hand off to the dispatcher.
    Fire,
    /// Emit the countdown, if there is one, sleep, and ask again.
    Wait { sleep_ms: u64, countdown: Option<Countdown> },
}

/// A timed run that waits for its target.
#[derive(Clone, Copy, Debug, PartialEq, Eq, Structural)]
pub struct Scheduler {
    /// The target moment, in milliseconds.
    pub target_ms: i64,
    /// The number of seconds left that was announced last.
    pub announced: Option<i64>,
}

/// The whole seconds from `now_ms` to `target_ms`, for a target that lies
/// ahead.
pub open spec fn seconds_left(target_ms: i64, now_ms: i64) -> int {
    (target_ms - now_ms) / 1000
}

/// The countdown that is due when `left` seconds are left and `announced`
/// was announced last: outside the fine window one at each whole minute,
/// within it one for each second, and none twice for the same second.
pub open spec fn countdown_due(left: int, announced: Option<i64>) -> Option<Countdown> {
    if announced == Some(left as i64) {
        None
    } else if left > FINE_WINDOW_SECS {
        if left % 60 == 0 {
            Some(Countdown::Minutes((left / 60) as i64))
        } else {
            None
        }
    } else {
        Some(Countdown::Seconds(left as i64))
    }
}

/// How long the caller sleeps when the clock reads `now_ms` before the
/// target: coarsely outside the fine window, finely within it.
pub open spec fn sleep_for(target_ms: int, now_ms: int) -> u64 {
    if (target_ms - now_ms) / 1000 > FINE_WINDOW_SECS {
        COARSE_SLEEP_MS
    } else {
        FINE_SLEEP_MS
    }
}

/// The moment at which a run fires whose clock reads `now_ms` and whose
/// sleeps last exactly as long as asked.
pub open spec fn fires_at(target_ms: int, now_ms: int) -> int
    decreases target_ms - now_ms + FINE_SLEEP_MS,
{
    if now_ms >= target_ms {
        now_ms
    } else {
        proof {
            assert(sleep_for(target_ms, now_ms) == FINE_SLEEP_MS || (sleep_for(target_ms, now_ms)
                == COARSE_SLEEP_MS && target_ms - now_ms > COARSE_SLEEP_MS));
        }
        fires_at(target_ms, now_ms + sleep_for(target_ms, now_ms))
    }
}

/// A run never fires before its target, and where its sleeps last as long
/// as asked it fires less than one fine sleep after it: a run that starts
/// before the target fires in the fine sleep that reaches it.
pub proof fn lemma_fires_within_one_fine_sleep(target_ms: int, now_ms: int)
    requires
        now_ms < target_ms,
    ensures
        target_ms <= fires_at(target_ms, now_ms) < target_ms + FINE_SLEEP_MS,
    decreases target_ms - now_ms + FINE_SLEEP_MS,
{
    let next = now_ms + sleep_for(target_ms, now_ms);
    assert(sleep_for(target_ms, now_ms) == COARSE_SLEEP_MS ==> (target_ms - now_ms) / 1000
        > FINE_WINDOW_SECS);
    assert(next < target_ms + FINE_SLEEP_MS);
    assert(fires_at(target_ms, now_ms) == fires_at(target_ms, next));
    if next < target_ms {
        lemma_fires_within_one_fine_sleep(target_ms, next);
    } else {
        assert(fires_at(target_ms, next) == next);
    }
}

/// The scheduler after a look at the clock, and what the caller does next.
pub open spec fn tick_spec(s: Scheduler, now_ms: i64) -> (Scheduler, Tick) {
    if now_ms >= s.target_ms {
        (s, Tick::Fire)
    } else {
        let left = seconds_left(s.target_ms, now_ms);
        let countdown = countdown_due(left, s.announced);
        (
            Scheduler {
                announced: if countdown is Some {
                    Some(left as i64)
                } else {
                    s.announced
                },
                ..s
            },
            Tick::Wait { sleep_ms: sleep_for(s.target_ms as int, now_ms as int), countdown },
        )
    }
}

/// The target moment in milliseconds that a stored date and time of day
/// stand for.
pub open spec fn target_of(date: Option<CivilDate>, time: Option<TimeOfDay>) -> Result<
    i64,
    ErrorKind,
> {
    match (date, time) {
        (None, _) => Err(ErrorKind::DateNotSet),
        (Some(_), None) => Err(ErrorKind::TimeNotSet),
        (Some(d), Some(t)) => match civil_seconds(d, t) {
            Some(s) if i64::MIN <= s * 1000 <= i64::MAX => Ok((s * 1000) as i64),
            _ => Err(ErrorKind::InvalidTarget),
        },
    }
}

/// The target moment that a date, a time of day and their count of seconds
/// stand for.
pub open spec fn target_from_seconds(seconds: Option<i64>) -> Result<i64, ErrorKind> {
    match seconds {
        Some(s) if i64::MIN <= s * 1000 <= i64::MAX => Ok((s * 1000) as i64),
        _ => Err(ErrorKind::InvalidTarget),
    }
}

/// Turns a count of seconds into the target moment in milliseconds;
/// `InvalidTarget` where there is no count or the moment cannot be written.
pub fn target_millis(seconds: Option<i64>) -> (r: Result<i64, ErrorKind>)
    ensures
        r == target_from_seconds(seconds),
{
    match seconds {
        None => Err(ErrorKind::InvalidTarget),
        Some(s) => match s.checked_mul(1000) {
            Some(ms) => Ok(ms),
            None => Err(ErrorKind::InvalidTarget),
        },
    }
}

/// The target moment of a timed run from the stored date and time of day:
/// an error where either is missing or they are no moment of the calendar.
pub fn resolve_target(date: Option<CivilDate>, time: Option<TimeOfDay>) -> (r: Result<
    i64,
    ErrorKind,
>)
    ensures
        r == target_of(date, time),
{
    match date {
        None => Err(ErrorKind::DateNotSet),
        Some(d) => match time {
            None => Err(ErrorKind::TimeNotSet),
            Some(t) => target_millis(seconds_of(d, t)),
        },
    }
}

/// The seconds of a day that have passed at a time of day.
pub open spec fn seconds_of_day(t: TimeOfDay) -> int {
    t.hour * 3600 + t.minute * 60 + t.second
}

/// The milliseconds of one day.
pub const DAY_MS: u64 = 86_400_000;

/// The milliseconds from a moment of a day, given in milliseconds since
/// midnight, to the next time the clock shows `target`: today where that is
/// still ahead, else tomorrow. (A reading that is no moment of a day and
/// lies past tomorrow's trigger has nothing to wait for.)
pub open spec fn daily_wait(now_ms: u32, target: TimeOfDay) -> int {
    let target_ms = seconds_of_day(target) * 1000;
    if now_ms < target_ms {
        target_ms - now_ms
    } else if now_ms <= DAY_MS + target_ms {
        DAY_MS + target_ms - now_ms
    } else {
        0
    }
}

/// The whole seconds that cover a wait: the wait rounded up.
pub open spec fn whole_seconds(wait_ms: int) -> int {
    (wait_ms + 999) / 1000
}

/// The moment of the next daily trigger on a clock that reads `now_ms` in
/// all and `now_of_day_ms` since midnight; `None` where that moment cannot
/// be written.
pub open spec fn next_trigger(now_ms: i64, now_of_day_ms: u32, target: TimeOfDay) -> Option<i64> {
    if now_ms + daily_wait(now_of_day_ms, target) <= i64::MAX {
        Some((now_ms + daily_wait(now_of_day_ms, target)) as i64)
    } else {
        None
    }
}

/// How a daily run begins: with a scheduler that waits for the next
/// trigger.
pub open spec fn daily_start(now_ms: i64, now_of_day_ms: u32, target: TimeOfDay) -> Result<
    Scheduler,
    ErrorKind,
> {
    match next_trigger(now_ms, now_of_day_ms, target) {
        None => Err(ErrorKind::InvalidTarget),
        Some(target_ms) => if target_ms <= now_ms {
            Err(ErrorKind::AlreadyExpired)
        } else {
            Ok(Scheduler { target_ms, announced: None })
        },
    }
}

/// The wait until the clock next shows `target`, in milliseconds. The wait
/// reaches the trigger and never ends before it; from a moment of a day it
/// is more than nothing and, to a time of a day, no more than a day.
pub fn millis_until_trigger(now_ms: u32, target: TimeOfDay) -> (wait_ms: u64)
    ensures
        wait_ms == daily_wait(now_ms, target),
        now_ms + wait_ms >= seconds_of_day(target) * 1000,
        now_ms < DAY_MS ==> wait_ms > 0 && (now_ms + wait_ms == seconds_of_day(target) * 1000
            || now_ms + wait_ms == DAY_MS + seconds_of_day(target) * 1000),
        now_ms < DAY_MS && seconds_of_day(target) * 1000 < DAY_MS ==> wait_ms <= DAY_MS,
{
    let target_ms: u64 = (target.hour as u64 * 3600 + target.minute as u64 * 60
        + target.second as u64) * 1000;
    let now: u64 = now_ms as u64;
    if now < target_ms {
        target_ms - now
    } else if now <= DAY_MS + target_ms {
        DAY_MS + target_ms - now
    } else {
        0
    }
}

/// The wait until the clock next shows `target`, in whole seconds: rounded
/// up, so that a wait of so many seconds never ends before the trigger.
pub fn seconds_until_trigger(now_ms: u32, target: TimeOfDay) -> (secs: u64)
    ensures
        secs == whole_seconds(daily_wait(now_ms, target)),
        secs * 1000 >= daily_wait(now_ms, target),
        now_ms + secs * 1000 >= seconds_of_day(target) * 1000,
{
    (millis_until_trigger(now_ms, target) + 999) / 1000
}

/// How a timed run begins: with the error of its target where it has none,
/// with `AlreadyExpired` where the target is not later than now, and else
/// with a scheduler that waits for the target.
pub open spec fn run_start(date: Option<CivilDate>, time: Option<TimeOfDay>, now_ms: i64)
    -> Result<Scheduler, ErrorKind> {
    match target_of(date, time) {
        Err(e) => Err(e),
        Ok(target_ms) => if target_ms <= now_ms {
            Err(ErrorKind::AlreadyExpired)
        } else {
            Ok(Scheduler { target_ms, announced: None })
        },
    }
}

/// Begins a timed run from the stored date and time of day and the clock's
/// reading. Every refusal is an error that the caller surfaces; nothing is
/// dispatched after one.
pub fn start_ticket_grabbing_logic(
    date: Option<CivilDate>,
    time: Option<TimeOfDay>,
    now_ms: i64,
) -> (r: Result<Scheduler, ErrorKind>)
    ensures
        r == run_start(date, time, now_ms),
{
    match resolve_target(date, time) {
        Err(e) => Err(e),
        Ok(target_ms) => Scheduler::start(target_ms, now_ms),
    }
}

impl Countdown {
    /// The countdown as a notice.
    pub fn notice(&self) -> (n: Notice)
        ensures
            n@ == match *self {
                Countdown::Minutes(m) => NoticeView::MinutesLeft(m),
                Countdown::Seconds(s) => NoticeView::SecondsLeft(s),
            },
    {
        match self {
            Countdown::Minutes(m) => Notice::MinutesLeft(*m),
            Countdown::Seconds(s) => Notice::SecondsLeft(*s),
        }
    }
}

impl Scheduler {
    /// Starts a timed run. A target that is not later than now is refused
    /// with `AlreadyExpired`, at once and without a wait.
    pub fn start(target_ms: i64, now_ms: i64) -> (r: Result<Scheduler, ErrorKind>)
        ensures
            r == if target_ms <= now_ms {
                Err::<Scheduler, ErrorKind>(ErrorKind::AlreadyExpired)
            } else {
                Ok::<Scheduler, ErrorKind>(Scheduler { target_ms, announced: None })
            },
    {
        if target_ms <= now_ms {
            Err(ErrorKind::AlreadyExpired)
        } else {
            Ok(Scheduler { target_ms, announced: None })
        }
    }

    /// Starts the wait for the next daily trigger on a clock that reads
    /// `now_ms` in all and `now_of_day_ms` since midnight. The scheduler's
    /// target is the moment at which the clock next shows `target`, so that
    /// it fires only at a reading that is not before the trigger.
    pub fn daily(now_ms: i64, now_of_day_ms: u32, target: TimeOfDay) -> (r: Result<
        Scheduler,
        ErrorKind,
    >)
        ensures
            r == daily_start(now_ms, now_of_day_ms, target),
            now_of_day_ms < DAY_MS && now_ms + DAY_MS + seconds_of_day(target) * 1000 <= i64::MAX
                ==> r is Ok,
            r matches Ok(s) ==> s.target_ms == now_ms + daily_wait(now_of_day_ms, target),
    {
        let wait = millis_until_trigger(now_of_day_ms, target);
        match now_ms.checked_add(wait as i64) {
            None => Err(ErrorKind::InvalidTarget),
            Some(target_ms) => Scheduler::start(target_ms, now_ms),
        }
    }

    /// Looks at the clock: fires exactly when the target is reached, and
    /// otherwise says how long to sleep and which countdown to emit. A wait
    /// never ends a fine sleep or more behind the target.
    pub fn tick(&mut self, now_ms: i64) -> (t: Tick)
        ensures
            (*final(self), t) == tick_spec(*old(self), now_ms),
            t is Fire <==> now_ms >= old(self).target_ms,
            t matches Tick::Wait { sleep_ms, .. } ==> now_ms + sleep_ms < old(self).target_ms
                + FINE_SLEEP_MS,
    {
        if now_ms >= self.target_ms {
            return Tick::Fire;
        }
        let left_wide: i128 = (self.target_ms as i128 - now_ms as i128) / 1000;
        let left: i64 = left_wide as i64;
        let due = match self.announced {
            Some(a) => a != left,
            None => true,
        };
        if left > FINE_WINDOW_SECS {
            let countdown = if due && left % 60 == 0 {
                Some(Countdown::Minutes(left / 60))
            } else {
                None
            };
            if countdown.is_some() {
                self.announced = Some(left);
            }
            Tick::Wait { sleep_ms: COARSE_SLEEP_MS, countdown }
        } else {
            let countdown = if due {
                Some(Countdown::Seconds(left))
            } else {
                None
            };
            if countdown.is_some() {
                self.announced = Some(left);
            }
            Tick::Wait { sleep_ms: FINE_SLEEP_MS, countdown }
        }
    }
}

} // verus!
