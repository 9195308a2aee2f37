//! What the scheduler and the dispatcher have to say, and the text of each
//! message as the display shows it.

use crate::clock::{date_text, push_date, push_time, time_text, CivilDate, TimeOfDay};
use crate::outcome::{ClaimOutcome, OutcomeKind};
use crate::plan::{ClaimTask, ClaimTaskView};
use crate::text::{push_signed_decimal, signed_decimal};
use vstd::prelude::*;
use vstd::string::StringExecFns;

verus! {

/// One message for the display.
#[derive(Debug, PartialEq, Eq)]
pub enum Notice {
    /// No date is stored for the timed run.
    DateNotSet,
    /// No time of day is stored for the timed run.
    TimeNotSet,
    /// The stored date and time are not a moment of the calendar.
    TargetInvalid,
    /// The stored moment has passed already.
    AlreadyExpired,
    /// The run is set for this moment.
    Scheduled(CivilDate, TimeOfDay),
    /// Whole minutes until the run.
    MinutesLeft(i64),
    /// Seconds until the run.
    SecondsLeft(i64),
    /// The moment has come: the requests go out.
    Firing,
    /// The stored game configuration cannot be read.
    ConfigUnreadable,
    /// No game is active.
    NoGameSelected,
    /// There is no task to dispatch.
    NothingToDo,
    /// A task of the dispatch has no attempt-slot.
    NoSlots,
    /// The dispatch has more attempt-slots than can be counted.
    TooManySlots,
    /// A selected zone of a game has no task on record.
    Unavailable { game: String, zone: String },
    /// A task was won, with the service's message.
    Claimed { game: String, zone: String, message: String },
    /// A task was lost, with the reason.
    Failed { game: String, zone: String, reason: String },
    /// A task ran into its deadline.
    TimedOut { game: String, zone: String },
    /// Every worker is done.
    Finished,
}

/// The mathematical content of a [`Notice`].
pub ghost enum NoticeView {
    DateNotSet,
    TimeNotSet,
    TargetInvalid,
    AlreadyExpired,
    Scheduled(CivilDate, TimeOfDay),
    MinutesLeft(i64),
    SecondsLeft(i64),
    Firing,
    ConfigUnreadable,
    NoGameSelected,
    NothingToDo,
    NoSlots,
    TooManySlots,
    Unavailable { game: Seq<char>, zone: Seq<char> },
    Claimed { game: Seq<char>, zone: Seq<char>, message: Seq<char> },
    Failed { game: Seq<char>, zone: Seq<char>, reason: Seq<char> },
    TimedOut { game: Seq<char>, zone: Seq<char> },
    Finished,
}

impl View for Notice {
    type V = NoticeView;

    open spec fn view(&self) -> NoticeView {
        match self {
            Notice::DateNotSet => NoticeView::DateNotSet,
            Notice::TimeNotSet => NoticeView::TimeNotSet,
            Notice::TargetInvalid => NoticeView::TargetInvalid,
            Notice::AlreadyExpired => NoticeView::AlreadyExpired,
            Notice::Scheduled(d, t) => NoticeView::Scheduled(*d, *t),
            Notice::MinutesLeft(m) => NoticeView::MinutesLeft(*m),
            Notice::SecondsLeft(s) => NoticeView::SecondsLeft(*s),
            Notice::Firing => NoticeView::Firing,
            Notice::ConfigUnreadable => NoticeView::ConfigUnreadable,
            Notice::NoGameSelected => NoticeView::NoGameSelected,
            Notice::NothingToDo => NoticeView::NothingToDo,
            Notice::NoSlots => NoticeView::NoSlots,
            Notice::TooManySlots => NoticeView::TooManySlots,
            Notice::Unavailable { game, zone } => NoticeView::Unavailable {
                game: game@,
                zone: zone@,
            },
            Notice::Claimed { game, zone, message } => NoticeView::Claimed {
                game: game@,
                zone: zone@,
                message: message@,
            },
            Notice::Failed { game, zone, reason } => NoticeView::Failed {
                game: game@,
                zone: zone@,
                reason: reason@,
            },
            Notice::TimedOut { game, zone } => NoticeView::TimedOut { game: game@, zone: zone@ },
            Notice::Finished => NoticeView::Finished,
        }
    }
}

/// A task's label: the game, and the zone in brackets.
pub open spec fn label_text(game: Seq<char>, zone: Seq<char>) -> Seq<char> {
    game + "("@ + zone + ")"@
}

/// The text of a notice.
pub open spec fn notice_text(notice: NoticeView) -> Seq<char> {
    match notice {
        NoticeView::DateNotSet => "未设置抢票日期！"@,
        NoticeView::TimeNotSet => "未设置抢票时间！"@,
        NoticeView::TargetInvalid => "错误：设置的时间无效，请重新设置！"@,
        NoticeView::AlreadyExpired => "错误：设置的时间已经过期，请重新设置！"@,
        NoticeView::Scheduled(d, t) => "定时抢票时间设置为: "@ + date_text(d) + " "@ + time_text(t),
        NoticeView::MinutesLeft(m) => "距离抢票还有 "@ + signed_decimal(m as int) + " 分钟"@,
        NoticeView::SecondsLeft(s) => "距离抢票还有 "@ + signed_decimal(s as int) + " 秒"@,
        NoticeView::Firing => "开始发送抢票请求..."@,
        NoticeView::ConfigUnreadable => "无法读取游戏配置"@,
        NoticeView::NoGameSelected => "没有选择任何游戏"@,
        NoticeView::NothingToDo => "没有可执行的抢票任务"@,
        NoticeView::NoSlots => "错误：抢票任务没有并发名额"@,
        NoticeView::TooManySlots => "错误：并发请求数量过多"@,
        NoticeView::Unavailable { game, zone } => label_text(game, zone) + ": 暂无可抢的任务"@,
        NoticeView::Claimed { game, zone, message } => label_text(game, zone) + ": "@ + message,
        NoticeView::Failed { game, zone, reason } => label_text(game, zone) + "抢票失败："@
            + reason,
        NoticeView::TimedOut { game, zone } => label_text(game, zone) + "抢票失败：请求超时"@,
        NoticeView::Finished => "抢票任务已完成"@,
    }
}

/// The notice that tells how a task ended.
pub open spec fn result_notice(task: ClaimTaskView, outcome: (OutcomeKind, Seq<char>))
    -> NoticeView {
    match outcome.0 {
        OutcomeKind::Success => NoticeView::Claimed {
            game: task.game,
            zone: task.target.zone,
            message: outcome.1,
        },
        OutcomeKind::TimedOut => NoticeView::TimedOut { game: task.game, zone: task.target.zone },
        _ => NoticeView::Failed { game: task.game, zone: task.target.zone, reason: outcome.1 },
    }
}

fn push_label(out: &mut String, game: &String, zone: &String)
    ensures
        final(out)@ == old(out)@ + label_text(game@, zone@),
{
    out.append(game.as_str());
    out.append("(");
    out.append(zone.as_str());
    out.append(")");
    assert(final(out)@ =~= old(out)@ + label_text(game@, zone@));
}

impl Notice {
    /// The notice that tells how a task ended.
    pub fn of_result(task: &ClaimTask, outcome: &ClaimOutcome) -> (n: Notice)
        ensures
            n@ == result_notice(task@, outcome@),
    {
        match outcome {
            ClaimOutcome::Success(m) => Notice::Claimed {
                game: task.game.clone(),
                zone: task.target.zone.clone(),
                message: m.clone(),
            },
            ClaimOutcome::AlreadyClaimed(m) => Notice::Failed {
                game: task.game.clone(),
                zone: task.target.zone.clone(),
                reason: m.clone(),
            },
            ClaimOutcome::Transient(m) => Notice::Failed {
                game: task.game.clone(),
                zone: task.target.zone.clone(),
                reason: m.clone(),
            },
            ClaimOutcome::TimedOut => Notice::TimedOut {
                game: task.game.clone(),
                zone: task.target.zone.clone(),
            },
        }
    }

    /// The text of the notice, as the display shows it.
    pub fn text(&self) -> (s: String)
        ensures
            s@ == notice_text(self@),
    {
        let mut out = String::new();
        match self {
            Notice::DateNotSet => {
                out.append("未设置抢票日期！");
            },
            Notice::TimeNotSet => {
                out.append("未设置抢票时间！");
            },
            Notice::TargetInvalid => {
                out.append("错误：设置的时间无效，请重新设置！");
            },
            Notice::AlreadyExpired => {
                out.append("错误：设置的时间已经过期，请重新设置！");
            },
            Notice::Scheduled(d, t) => {
                out.append("定时抢票时间设置为: ");
                push_date(&mut out, *d);
                out.append(" ");
                push_time(&mut out, *t);
            },
            Notice::MinutesLeft(m) => {
                out.append("距离抢票还有 ");
                push_signed_decimal(&mut out, *m);
                out.append(" 分钟");
            },
            Notice::SecondsLeft(s) => {
                out.append("距离抢票还有 ");
                push_signed_decimal(&mut out, *s);
                out.append(" 秒");
            },
            Notice::Firing => {
                out.append("开始发送抢票请求...");
            },
            Notice::ConfigUnreadable => {
                out.append("无法读取游戏配置");
            },
            Notice::NoGameSelected => {
                out.append("没有选择任何游戏");
            },
            Notice::NothingToDo => {
                out.append("没有可执行的抢票任务");
            },
            Notice::NoSlots => {
                out.append("错误：抢票任务没有并发名额");
            },
            Notice::TooManySlots => {
                out.append("错误：并发请求数量过多");
            },
            Notice::Unavailable { game, zone } => {
                push_label(&mut out, game, zone);
                out.append(": 暂无可抢的任务");
            },
            Notice::Claimed { game, zone, message } => {
                push_label(&mut out, game, zone);
                out.append(": ");
                out.append(message.as_str());
            },
            Notice::Failed { game, zone, reason } => {
                push_label(&mut out, game, zone);
                out.append("抢票失败：");
                out.append(reason.as_str());
            },
            Notice::TimedOut { game, zone } => {
                push_label(&mut out, game, zone);
                out.append("抢票失败：请求超时");
            },
            Notice::Finished => {
                out.append("抢票任务已完成");
            },
        }
        assert(out@ =~= notice_text(self@));
        out
    }
}

} // verus!
