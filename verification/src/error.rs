//! Why a timed run or a dispatch does not start.

use crate::notice::{Notice, NoticeView};
use vstd::prelude::*;

verus! {

/// The reasons for which a run is refused. None of them is retried.
#[derive(Clone, Copy, Debug, PartialEq, Eq, Structural)]
pub enum ErrorKind {
    /// No date is stored for the timed run.
    DateNotSet,
    /// No time of day is stored for the timed run.
    TimeNotSet,
    /// The target moment is not later than now.
    AlreadyExpired,
    /// The stored date and time are not a moment of the calendar.
    InvalidTarget,
    /// No game is active.
    NoGameSelected,
    /// The dispatch has no task.
    NothingToDo,
    /// A task has no attempt-slot.
    EmptyFanOut,
    /// The attempt-slots of all tasks together cannot be counted.
    TooManySlots,
}

/// The notice that surfaces an error.
pub open spec fn error_notice(kind: ErrorKind) -> NoticeView {
    match kind {
        ErrorKind::DateNotSet => NoticeView::DateNotSet,
        ErrorKind::TimeNotSet => NoticeView::TimeNotSet,
        ErrorKind::AlreadyExpired => NoticeView::AlreadyExpired,
        ErrorKind::InvalidTarget => NoticeView::TargetInvalid,
        ErrorKind::NoGameSelected => NoticeView::NoGameSelected,
        ErrorKind::NothingToDo => NoticeView::NothingToDo,
        ErrorKind::EmptyFanOut => NoticeView::NoSlots,
        ErrorKind::TooManySlots => NoticeView::TooManySlots,
    }
}

impl ErrorKind {
    /// The notice that surfaces this error: each has one, so that no refusal
    /// passes in silence.
    pub fn notice(&self) -> (n: Notice)
        ensures
            n@ == error_notice(*self),
    {
        match self {
            ErrorKind::DateNotSet => Notice::DateNotSet,
            ErrorKind::TimeNotSet => Notice::TimeNotSet,
            ErrorKind::AlreadyExpired => Notice::AlreadyExpired,
            ErrorKind::InvalidTarget => Notice::TargetInvalid,
            ErrorKind::NoGameSelected => Notice::NoGameSelected,
            ErrorKind::NothingToDo => Notice::NothingToDo,
            ErrorKind::EmptyFanOut => Notice::NoSlots,
            ErrorKind::TooManySlots => Notice::TooManySlots,
        }
    }
}

} // verus!
