//! The page that sets the moment of the timed run: a calendar with a cursor,
//! a time selector, and the text in which the chosen moment is stored.

use crate::calendar::{
    date_after, date_before, day_after, day_before, days_in_month, exists_in_calendar,
    get_last_day_of_month, has_month, is_calendar_date, last_day_of_month,
    lemma_last_day_of_month, month_after, month_before, next_month, previous_month, MAX_YEAR,
    MIN_YEAR,
};
use crate::clock::{
    date_text, parsed_date, push_date, push_time, read_date, time_text, CivilDate, TimeOfDay,
};
use crate::keys::Key;
use crate::clock::year_text;
use crate::number::{
    after_plus, all_digits, is_digit, lemma_decimal_is_digits, lemma_padded_is_digits,
    parse_unsigned, read_unsigned,
};
use crate::scan::{
    first_word, free_of, is_space, join, leading_word, lemma_join_splits, pieces_view,
    skip_spaces, skip_spaces_back, split, split_on, trim, trimmed,
};
use crate::text::{decimal, padded2, padded4};
use crate::text::{chars_of, text_of};
use vstd::prelude::*;
use vstd::string::StringExecFns;

verus! {

/// The state of the page.
#[derive(Debug, PartialEq, Eq)]
pub struct TimedGrabbingState {
    /// The date that was chosen last.
    pub selected_date: Option<CivilDate>,
    pub input_buffer: String,
    pub is_editing: bool,
    /// The year and the month that the calendar shows.
    pub current_year: i32,
    pub current_month: u32,
    /// The date under the cursor.
    pub cursor_date: CivilDate,
    pub selected_time: Option<TimeOfDay>,
    /// The part of the time under the cursor: 0 the hour, 1 the minute, 2
    /// the second.
    pub time_cursor: usize,
    /// Whether the keys go to the time selector.
    pub is_time_focused: bool,
}

/// The mathematical content of a [`TimedGrabbingState`].
#[verifier::ext_equal]
pub ghost struct TimedView {
    pub selected_date: Option<CivilDate>,
    pub input_buffer: Seq<char>,
    pub is_editing: bool,
    pub current_year: i32,
    pub current_month: u32,
    pub cursor_date: CivilDate,
    pub selected_time: Option<TimeOfDay>,
    pub time_cursor: usize,
    pub is_time_focused: bool,
}

impl View for TimedGrabbingState {
    type V = TimedView;

    open spec fn view(&self) -> TimedView {
        TimedView {
            selected_date: self.selected_date,
            input_buffer: self.input_buffer@,
            is_editing: self.is_editing,
            current_year: self.current_year,
            current_month: self.current_month,
            cursor_date: self.cursor_date,
            selected_time: self.selected_time,
            time_cursor: self.time_cursor,
            is_time_focused: self.is_time_focused,
        }
    }
}

/// What the caller of the page does after a key.
#[derive(Clone, Copy, Debug, PartialEq, Eq, Structural)]
pub enum TimedAction {
    /// Nothing.
    Stay,
    /// Go back to the main page.
    LeavePage,
    /// Store the date and the time.
    Save { date: CivilDate, time: Option<TimeOfDay> },
}

/// A time of day with the part under the cursor one later, around the clock.
pub open spec fn time_up(t: TimeOfDay, cursor: usize) -> TimeOfDay {
    if cursor == 0 {
        TimeOfDay { hour: ((t.hour + 1) % 24) as u8, ..t }
    } else if cursor == 1 {
        TimeOfDay { minute: ((t.minute + 1) % 60) as u8, ..t }
    } else if cursor == 2 {
        TimeOfDay { second: ((t.second + 1) % 60) as u8, ..t }
    } else {
        t
    }
}

/// A time of day with the part under the cursor one earlier, around the
/// clock.
pub open spec fn time_down(t: TimeOfDay, cursor: usize) -> TimeOfDay {
    if cursor == 0 {
        TimeOfDay {
            hour: if t.hour == 0 {
                23
            } else {
                (t.hour - 1) as u8
            },
            ..t
        }
    } else if cursor == 1 {
        TimeOfDay {
            minute: if t.minute == 0 {
                59
            } else {
                (t.minute - 1) as u8
            },
            ..t
        }
    } else if cursor == 2 {
        TimeOfDay {
            second: if t.second == 0 {
                59
            } else {
                (t.second - 1) as u8
            },
            ..t
        }
    } else {
        t
    }
}

/// The cursor one day earlier, unless it is on the first of its month.
pub open spec fn cursor_back(s: TimedView) -> CivilDate {
    if s.cursor_date.day > 1 {
        match date_before(s.cursor_date) {
            Some(d) => d,
            None => s.cursor_date,
        }
    } else {
        s.cursor_date
    }
}

/// The cursor one day later, unless it is on or past the last day of the
/// month that the calendar shows.
pub open spec fn cursor_forth(s: TimedView) -> CivilDate {
    match last_day_of_month(s.current_year, s.current_month) {
        Some(last) if s.cursor_date.day < last => match date_after(s.cursor_date) {
            Some(d) => d,
            None => s.cursor_date,
        },
        _ => s.cursor_date,
    }
}

/// The page with the calendar turned to a month of a year: the cursor goes
/// to the same day of that month where the month has it, and stays where it
/// is otherwise.
pub open spec fn turned_to(s: TimedView, year: i32, month: u32) -> TimedView {
    let there = CivilDate { year, month, day: s.cursor_date.day };
    TimedView {
        current_year: year,
        current_month: month,
        cursor_date: if is_calendar_date(there) {
            there
        } else {
            s.cursor_date
        },
        ..s
    }
}

/// The year of the month before a month of a year.
pub open spec fn year_of_month_before(year: i32, month: u32) -> i32 {
    if month_before(month) == 12 && year > i32::MIN {
        (year - 1) as i32
    } else {
        year
    }
}

/// The year of the month after a month of a year.
pub open spec fn year_of_month_after(year: i32, month: u32) -> i32 {
    if month_after(month) == 1 && year < i32::MAX {
        (year + 1) as i32
    } else {
        year
    }
}

/// The page after a key, and what its caller does.
pub open spec fn timed_key(s: TimedView, key: Key) -> (TimedView, TimedAction) {
    match key {
        Key::Esc => if s.is_editing {
            (TimedView { is_editing: false, input_buffer: Seq::empty(), ..s }, TimedAction::Stay)
        } else {
            (s, TimedAction::LeavePage)
        },
        Key::Char(c) => if s.is_editing {
            (TimedView { input_buffer: s.input_buffer.push(c), ..s }, TimedAction::Stay)
        } else {
            (s, TimedAction::Stay)
        },
        Key::Backspace => if s.is_editing && s.input_buffer.len() > 0 {
            (TimedView { input_buffer: s.input_buffer.drop_last(), ..s }, TimedAction::Stay)
        } else {
            (s, TimedAction::Stay)
        },
        _ => if s.is_editing {
            (s, TimedAction::Stay)
        } else {
            match key {
                Key::Enter => (
                    TimedView { selected_date: Some(s.cursor_date), ..s },
                    TimedAction::Save { date: s.cursor_date, time: s.selected_time },
                ),
                Key::Tab => (
                    TimedView { is_time_focused: !s.is_time_focused, ..s },
                    TimedAction::Stay,
                ),
                Key::Up => if s.is_time_focused {
                    (
                        TimedView {
                            selected_time: match s.selected_time {
                                Some(t) => Some(time_up(t, s.time_cursor)),
                                None => None,
                            },
                            ..s
                        },
                        TimedAction::Stay,
                    )
                } else {
                    (TimedView { cursor_date: cursor_back(s), ..s }, TimedAction::Stay)
                },
                Key::Down => if s.is_time_focused {
                    (
                        TimedView {
                            selected_time: match s.selected_time {
                                Some(t) => Some(time_down(t, s.time_cursor)),
                                None => None,
                            },
                            ..s
                        },
                        TimedAction::Stay,
                    )
                } else {
                    (TimedView { cursor_date: cursor_forth(s), ..s }, TimedAction::Stay)
                },
                Key::Left => if s.is_time_focused {
                    (
                        TimedView { time_cursor: ((s.time_cursor % 3 + 2) % 3) as usize, ..s },
                        TimedAction::Stay,
                    )
                } else {
                    (TimedView { cursor_date: cursor_back(s), ..s }, TimedAction::Stay)
                },
                Key::Right => if s.is_time_focused {
                    (
                        TimedView { time_cursor: ((s.time_cursor % 3 + 1) % 3) as usize, ..s },
                        TimedAction::Stay,
                    )
                } else {
                    (TimedView { cursor_date: cursor_forth(s), ..s }, TimedAction::Stay)
                },
                Key::PageUp => (
                    turned_to(
                        s,
                        year_of_month_before(s.current_year, s.current_month),
                        month_before(s.current_month),
                    ),
                    TimedAction::Stay,
                ),
                Key::PageDown => (
                    turned_to(
                        s,
                        year_of_month_after(s.current_year, s.current_month),
                        month_after(s.current_month),
                    ),
                    TimedAction::Stay,
                ),
                _ => (s, TimedAction::Stay),
            }
        },
    }
}

/// Whether the cursor is on a date of the month that the calendar shows.
pub open spec fn cursor_in_view(s: TimedView) -> bool {
    &&& is_calendar_date(s.cursor_date)
    &&& s.cursor_date.year == s.current_year
    &&& s.cursor_date.month == s.current_month
}

/// Whether a key is one of the four arrows.
pub open spec fn is_arrow(key: Key) -> bool {
    key == Key::Up || key == Key::Down || key == Key::Left || key == Key::Right
}

/// The arrows keep the cursor in its month: from a date of the month that
/// the calendar shows they move the cursor by one day at most, back to no
/// day before the first and forth to no day after the last, and change
/// nothing else of the calendar. (In the last month of the calendar the
/// cursor does not move forth.)
pub proof fn lemma_arrows_stay_in_month(s: TimedView, key: Key)
    requires
        cursor_in_view(s),
        is_arrow(key),
    ensures
        cursor_in_view(timed_key(s, key).0),
        timed_key(s, key).0.current_year == s.current_year,
        timed_key(s, key).0.current_month == s.current_month,
        !s.is_editing && !s.is_time_focused && (key == Key::Up || key == Key::Left) ==> timed_key(
            s,
            key,
        ).0.cursor_date.day == if s.cursor_date.day > 1 {
            s.cursor_date.day - 1
        } else {
            s.cursor_date.day as int
        },
        !s.is_editing && !s.is_time_focused && (key == Key::Down || key == Key::Right)
            && has_month(s.current_year, s.current_month) ==> timed_key(s, key).0.cursor_date.day
            == if s.cursor_date.day < days_in_month(
            s.current_year as int,
            s.current_month as int,
        ) {
            s.cursor_date.day + 1
        } else {
            s.cursor_date.day as int
        },
{
    lemma_last_day_of_month(s.current_year, s.current_month);
}

/// Turning the page shows the month after, or the month before, of the
/// right year, and takes the cursor to the same day of that month wherever
/// the month has that day, as every month of the calendar has the 1st to
/// the 28th.
pub proof fn lemma_page_turns(s: TimedView, key: Key)
    requires
        !s.is_editing,
        key == Key::PageUp || key == Key::PageDown,
        1 <= s.current_month <= 12,
    ensures
        key == Key::PageDown ==> timed_key(s, key).0.current_month == (if s.current_month == 12 {
            1u32
        } else {
            (s.current_month + 1) as u32
        }) && timed_key(s, key).0.current_year == (if s.current_month == 12 && s.current_year
            < i32::MAX {
            s.current_year + 1
        } else {
            s.current_year as int
        }),
        key == Key::PageUp ==> timed_key(s, key).0.current_month == (if s.current_month == 1 {
            12u32
        } else {
            (s.current_month - 1) as u32
        }) && timed_key(s, key).0.current_year == (if s.current_month == 1 && s.current_year
            > i32::MIN {
            s.current_year - 1
        } else {
            s.current_year as int
        }),
        MIN_YEAR <= timed_key(s, key).0.current_year <= MAX_YEAR && 1 <= s.cursor_date.day <= 28
            ==> timed_key(s, key).0.cursor_date == (CivilDate {
            year: timed_key(s, key).0.current_year,
            month: timed_key(s, key).0.current_month,
            day: s.cursor_date.day,
        }) && cursor_in_view(timed_key(s, key).0),
{
}

/// The text in which a date and a time are stored: the date, and after a
/// blank the time where there is one.
pub open spec fn stored_text(date: CivilDate, time: Option<TimeOfDay>) -> Seq<char> {
    match time {
        Some(t) => date_text(date) + " "@ + time_text(t),
        None => date_text(date),
    }
}

/// The message that tells that a date and a time were stored.
pub open spec fn stored_message(date: CivilDate, time: Option<TimeOfDay>) -> Seq<char> {
    "已保存定时日期时间: "@ + stored_text(date, time)
}

/// The line above the calendar.
pub open spec fn headline_text(s: TimedView) -> Seq<char> {
    if s.is_editing {
        s.input_buffer + "_"@
    } else {
        match (s.selected_date, s.selected_time) {
            (Some(d), Some(t)) => "预设日期时间: "@ + date_text(d) + " "@ + time_text(t),
            (Some(d), None) => "预设日期: "@ + date_text(d),
            _ => "按Enter设置日期时间 (格式: YYYY-MM-DD) 或使用方向键选择"@,
        }
    }
}

/// The date that a stored text holds: its first word, read as year, month
/// and day.
pub open spec fn stored_date(contents: Seq<char>) -> Option<CivilDate> {
    match first_word(contents) {
        Some(w) => parsed_date(w, "%Y-%m-%d"@),
        None => None,
    }
}

/// The time that three parts make: each must write a number from 0 to 255,
/// and there is no time where one of them does not.
pub open spec fn time_of_parts(hour: Seq<char>, minute: Seq<char>, second: Seq<char>) -> Option<
    TimeOfDay,
> {
    match (parse_unsigned(hour, 255), parse_unsigned(minute, 255), parse_unsigned(second, 255)) {
        (Some(h), Some(m), Some(s)) => Some(
            TimeOfDay { hour: h as u8, minute: m as u8, second: s as u8 },
        ),
        _ => None,
    }
}

/// The time that a stored text holds: the trimmed text is cut at blanks,
/// its second piece must have three parts between colons, and each part
/// must write a number. A text of another shape holds no time.
pub open spec fn stored_time(contents: Seq<char>) -> Option<TimeOfDay> {
    let parts = split(trim(contents), ' ');
    if parts.len() > 1 {
        let fields = split(parts[1], ':');
        if fields.len() == 3 {
            time_of_parts(fields[0], fields[1], fields[2])
        } else {
            None
        }
    } else {
        None
    }
}

/// Whether a character is one that a date or a time is written with: a
/// digit or a sign.
pub open spec fn is_numeral(c: char) -> bool {
    is_digit(c) || c == '-' || c == '+'
}

/// Whether every character of a text is one that a date is written with.
pub open spec fn all_numerals(s: Seq<char>) -> bool {
    forall|k: int| 0 <= k < s.len() ==> is_numeral(#[trigger] s[k])
}

proof fn lemma_date_text_is_numerals(date: CivilDate)
    ensures
        all_numerals(date_text(date)),
        date_text(date).len() >= 10,
{
    let y = year_text(date.year as int);
    let m = padded2(date.month as nat);
    let d = padded2(date.day as nat);
    lemma_padded_is_digits(date.month as nat);
    lemma_padded_is_digits(date.day as nat);
    if date.year < 0 {
        lemma_padded_is_digits((-date.year) as nat);
        let digits = padded4((-date.year) as nat);
        assert forall|k: int| 0 <= k < y.len() implies is_numeral(#[trigger] y[k]) by {
            if k > 0 {
                assert(y[k] == digits[k - 1]);
            }
        }
    } else if date.year > 9999 {
        lemma_decimal_is_digits(date.year as nat);
        lemma_padded_is_digits(date.year as nat);
        let digits = decimal(date.year as nat);
        assert(padded4(date.year as nat) == digits);
        assert forall|k: int| 0 <= k < y.len() implies is_numeral(#[trigger] y[k]) by {
            if k > 0 {
                assert(y[k] == digits[k - 1]);
            }
        }
    } else {
        lemma_padded_is_digits(date.year as nat);
    }
    assert(all_numerals(y));
    assert(y.len() >= 4);
    let t = date_text(date);
    assert forall|k: int| 0 <= k < t.len() implies is_numeral(#[trigger] t[k]) by {
        if k < y.len() {
            assert(t[k] == y[k]);
        } else if k == y.len() {
        } else if k < y.len() + 1 + m.len() {
            assert(t[k] == m[k - y.len() - 1]);
        } else if k == y.len() + 1 + m.len() {
        } else {
            assert(t[k] == d[k - y.len() - m.len() - 2]);
        }
    }
}

proof fn lemma_trim_keeps(s: Seq<char>)
    requires
        s.len() > 0,
        !is_space(s[0]),
        !is_space(s.last()),
    ensures
        trim(s) == s,
{
    assert(skip_spaces(s, 0) == 0);
    assert(skip_spaces_back(s, s.len() as int) == s.len());
    assert(s.subrange(0, s.len() as int) =~= s);
}

proof fn lemma_part_reads_back(n: u8)
    ensures
        parse_unsigned(padded2(n as nat), 255) == Some(n as nat),
        free_of(seq![padded2(n as nat)], ':'),
        forall|k: int| 0 <= k < padded2(n as nat).len() ==> is_digit(#[trigger] padded2(n as nat)[k]),
        padded2(n as nat).len() >= 2,
{
    lemma_padded_is_digits(n as nat);
    let p = padded2(n as nat);
    assert(is_digit(p[0]));
    assert(after_plus(p) == p);
    assert forall|i: int, k: int| 0 <= i < 1 && 0 <= k < seq![p][i].len() implies (
    #[trigger] seq![p][i][k]) != ':' by {
        assert(is_digit(p[k]));
    }
}

/// What is stored reads back: from the text in which a date and a time are
/// stored the same time is read, and from the text of a date alone none.
pub proof fn lemma_stored_time_reads_back(date: CivilDate, time: TimeOfDay)
    ensures
        stored_time(stored_text(date, Some(time))) == Some(time),
        stored_time(stored_text(date, None)) is None,
{
    let d = date_text(date);
    let t = time_text(time);
    let h = padded2(time.hour as nat);
    let m = padded2(time.minute as nat);
    let s = padded2(time.second as nat);
    lemma_date_text_is_numerals(date);
    lemma_part_reads_back(time.hour);
    lemma_part_reads_back(time.minute);
    lemma_part_reads_back(time.second);
    reveal_strlit(" ");
    let blank = seq![' '];
    assert(" "@ =~= blank);

    // the time is three fields between colons
    let fields = seq![h, m, s];
    assert(fields.drop_last() =~= seq![h, m]);
    assert(seq![h, m].drop_last() =~= seq![h]);
    assert(join(seq![h], seq![':']) == h);
    assert(join(seq![h, m], seq![':']) =~= h + seq![':'] + m);
    assert(join(fields, seq![':']) =~= t);
    assert forall|i: int, k: int| 0 <= i < fields.len() && 0 <= k < fields[i].len() implies (
    #[trigger] fields[i][k]) != ':' by {
        assert(is_digit(fields[i][k]));
    }
    lemma_join_splits(fields, ':');

    // neither the date nor the time holds a blank
    assert forall|k: int| 0 <= k < t.len() implies is_digit(#[trigger] t[k]) || t[k] == ':' by {
        if k < h.len() {
            assert(t[k] == h[k]);
        } else if k == h.len() {
        } else if k < h.len() + 1 + m.len() {
            assert(t[k] == m[k - h.len() - 1]);
        } else if k == h.len() + 1 + m.len() {
        } else {
            assert(t[k] == s[k - h.len() - m.len() - 2]);
        }
    }
    let parts = seq![d, t];
    assert(parts.drop_last() =~= seq![d]);
    assert(join(seq![d], blank) == d);
    assert(join(parts, blank) =~= d + blank + t);
    assert forall|i: int, k: int| 0 <= i < parts.len() && 0 <= k < parts[i].len() implies (
    #[trigger] parts[i][k]) != ' ' by {
        if i == 0 {
            assert(is_numeral(d[k]));
        } else {
            assert(is_digit(t[k]) || t[k] == ':');
        }
    }
    lemma_join_splits(parts, ' ');
    let whole = stored_text(date, Some(time));
    assert(whole =~= d + blank + t);
    assert(is_numeral(d[0]));
    assert(whole[0] == d[0]);
    assert(whole.last() == t[t.len() - 1]);
    assert(is_digit(t[t.len() - 1]) || t[t.len() - 1] == ':');
    lemma_trim_keeps(whole);
    assert(split(trim(whole), ' ') == parts);
    assert(parts[1] == t);

    // the date alone is one piece
    let alone = seq![d];
    assert forall|i: int, k: int| 0 <= i < alone.len() && 0 <= k < alone[i].len() implies (
    #[trigger] alone[i][k]) != ' ' by {
        assert(is_numeral(d[k]));
    }
    assert(join(alone, blank) == d);
    lemma_join_splits(alone, ' ');
    assert(is_numeral(d.last()));
    lemma_trim_keeps(d);
}

/// The text in which a date and a time are stored; the caller writes it to
/// the file.
pub fn save_date(date: CivilDate, time: Option<TimeOfDay>) -> (s: String)
    ensures
        s@ == stored_text(date, time),
{
    let mut s = String::new();
    push_date(&mut s, date);
    match time {
        Some(t) => {
            s.append(" ");
            push_time(&mut s, t);
        },
        None => {},
    }
    assert(s@ =~= stored_text(date, time));
    s
}

/// The message that tells that a date and a time were stored.
pub fn saved_message(date: CivilDate, time: Option<TimeOfDay>) -> (s: String)
    ensures
        s@ == stored_message(date, time),
{
    let mut s = String::from_str("已保存定时日期时间: ");
    let t = save_date(date, time);
    s.append(t.as_str());
    s
}

/// Reads the date that a stored text holds.
pub fn read_saved_date(contents: &str) -> (r: Option<CivilDate>)
    ensures
        r == stored_date(contents@),
{
    let chars = chars_of(contents);
    match leading_word(&chars) {
        Some(w) => {
            let word = text_of(&w, 0, w.len());
            assert(word@ =~= w@);
            read_date(word.as_str(), "%Y-%m-%d")
        },
        None => None,
    }
}

/// Makes a time of three parts: each must write a number from 0 to 255.
pub fn parts_to_time(hour: &Vec<char>, minute: &Vec<char>, second: &Vec<char>) -> (r: Option<
    TimeOfDay,
>)
    ensures
        r == time_of_parts(hour@, minute@, second@),
{
    match (read_unsigned(hour, 255), read_unsigned(minute, 255), read_unsigned(second, 255)) {
        (Some(h), Some(m), Some(s)) => Some(
            TimeOfDay { hour: h as u8, minute: m as u8, second: s as u8 },
        ),
        _ => None,
    }
}

/// Reads the time that a stored text holds.
pub fn read_saved_time(contents: &str) -> (r: Option<TimeOfDay>)
    ensures
        r == stored_time(contents@),
{
    let chars = chars_of(contents);
    let t = trimmed(&chars);
    let parts = split_on(&t, ' ');
    if parts.len() > 1 {
        assert(pieces_view(parts@)[1] == parts@[1]@);
        let fields = split_on(&parts[1], ':');
        if fields.len() == 3 {
            assert(pieces_view(fields@)[0] == fields@[0]@);
            assert(pieces_view(fields@)[1] == fields@[1]@);
            assert(pieces_view(fields@)[2] == fields@[2]@);
            parts_to_time(&fields[0], &fields[1], &fields[2])
        } else {
            None
        }
    } else {
        None
    }
}

fn bump_up(t: TimeOfDay, cursor: usize) -> (r: TimeOfDay)
    ensures
        r == time_up(t, cursor),
{
    if cursor == 0 {
        TimeOfDay { hour: ((t.hour as u16 + 1) % 24) as u8, minute: t.minute, second: t.second }
    } else if cursor == 1 {
        TimeOfDay { hour: t.hour, minute: ((t.minute as u16 + 1) % 60) as u8, second: t.second }
    } else if cursor == 2 {
        TimeOfDay { hour: t.hour, minute: t.minute, second: ((t.second as u16 + 1) % 60) as u8 }
    } else {
        t
    }
}

fn bump_down(t: TimeOfDay, cursor: usize) -> (r: TimeOfDay)
    ensures
        r == time_down(t, cursor),
{
    if cursor == 0 {
        TimeOfDay {
            hour: if t.hour == 0 {
                23
            } else {
                t.hour - 1
            },
            minute: t.minute,
            second: t.second,
        }
    } else if cursor == 1 {
        TimeOfDay {
            hour: t.hour,
            minute: if t.minute == 0 {
                59
            } else {
                t.minute - 1
            },
            second: t.second,
        }
    } else if cursor == 2 {
        TimeOfDay {
            hour: t.hour,
            minute: t.minute,
            second: if t.second == 0 {
                59
            } else {
                t.second - 1
            },
        }
    } else {
        t
    }
}

impl TimedGrabbingState {
    /// The page as it opens at the date `today` and the time `now`: the
    /// calendar shows today's month with the cursor on today, the stored
    /// date is the chosen one, and the time is the stored one or else the
    /// present one.
    pub fn new(
        today: CivilDate,
        now: TimeOfDay,
        saved_date: Option<CivilDate>,
        saved_time: Option<TimeOfDay>,
    ) -> (s: Self)
        ensures
            s@ == (TimedView {
                selected_date: saved_date,
                input_buffer: Seq::empty(),
                is_editing: false,
                current_year: today.year,
                current_month: today.month,
                cursor_date: today,
                selected_time: match saved_time {
                    Some(t) => Some(t),
                    None => Some(now),
                },
                time_cursor: 0,
                is_time_focused: false,
            }),
    {
        TimedGrabbingState {
            selected_date: saved_date,
            input_buffer: String::new(),
            is_editing: false,
            current_year: today.year,
            current_month: today.month,
            cursor_date: today,
            selected_time: match saved_time {
                Some(t) => Some(t),
                None => Some(now),
            },
            time_cursor: 0,
            is_time_focused: false,
        }
    }

    /// The line above the calendar.
    pub fn headline(&self) -> (s: String)
        ensures
            s@ == headline_text(self@),
    {
        if self.is_editing {
            let mut s = self.input_buffer.clone();
            s.append("_");
            s
        } else {
            match (self.selected_date, self.selected_time) {
                (Some(d), Some(t)) => {
                    let mut s = String::from_str("预设日期时间: ");
                    push_date(&mut s, d);
                    s.append(" ");
                    push_time(&mut s, t);
                    assert(s@ =~= headline_text(self@));
                    s
                },
                (Some(d), None) => {
                    let mut s = String::from_str("预设日期: ");
                    push_date(&mut s, d);
                    s
                },
                _ => String::from_str("按Enter设置日期时间 (格式: YYYY-MM-DD) 或使用方向键选择"),
            }
        }
    }

    fn move_back(&mut self)
        ensures
            final(self)@ == (TimedView { cursor_date: cursor_back(old(self)@), ..old(self)@ }),
    {
        if self.cursor_date.day > 1 {
            match day_before(self.cursor_date) {
                Some(d) => {
                    self.cursor_date = d;
                },
                None => {},
            }
        }
    }

    fn move_forth(&mut self)
        ensures
            final(self)@ == (TimedView { cursor_date: cursor_forth(old(self)@), ..old(self)@ }),
    {
        match get_last_day_of_month(self.current_year, self.current_month) {
            Some(last) => {
                if self.cursor_date.day < last {
                    match day_after(self.cursor_date) {
                        Some(d) => {
                            self.cursor_date = d;
                        },
                        None => {},
                    }
                }
            },
            None => {},
        }
    }

    fn turn_to(&mut self, year: i32, month: u32)
        ensures
            final(self)@ == turned_to(old(self)@, year, month),
    {
        let there = CivilDate { year, month, day: self.cursor_date.day };
        self.current_year = year;
        self.current_month = month;
        if exists_in_calendar(there) {
            self.cursor_date = there;
        }
    }

    fn take_key(&mut self, key: Key) -> (action: TimedAction)
        ensures
            (final(self)@, action) == timed_key(old(self)@, key),
    {
        match key {
            Key::Esc => {
                if self.is_editing {
                    self.is_editing = false;
                    self.input_buffer = String::new();
                    TimedAction::Stay
                } else {
                    TimedAction::LeavePage
                }
            },
            Key::Char(c) => {
                if self.is_editing {
                    self.input_buffer.push(c);
                }
                TimedAction::Stay
            },
            Key::Backspace => {
                if self.is_editing {
                    let chars = chars_of(self.input_buffer.as_str());
                    if chars.len() > 0 {
                        self.input_buffer = text_of(&chars, 0, chars.len() - 1);
                        assert(self.input_buffer@ =~= old(self)@.input_buffer.drop_last());
                    }
                }
                TimedAction::Stay
            },
            _ => {
                if self.is_editing {
                    return TimedAction::Stay;
                }
                match key {
                    Key::Enter => {
                        self.selected_date = Some(self.cursor_date);
                        TimedAction::Save { date: self.cursor_date, time: self.selected_time }
                    },
                    Key::Tab => {
                        self.is_time_focused = !self.is_time_focused;
                        TimedAction::Stay
                    },
                    Key::Up => {
                        if self.is_time_focused {
                            match self.selected_time {
                                Some(t) => {
                                    self.selected_time = Some(bump_up(t, self.time_cursor));
                                },
                                None => {},
                            }
                        } else {
                            self.move_back();
                        }
                        TimedAction::Stay
                    },
                    Key::Down => {
                        if self.is_time_focused {
                            match self.selected_time {
                                Some(t) => {
                                    self.selected_time = Some(bump_down(t, self.time_cursor));
                                },
                                None => {},
                            }
                        } else {
                            self.move_forth();
                        }
                        TimedAction::Stay
                    },
                    Key::Left => {
                        if self.is_time_focused {
                            self.time_cursor = (self.time_cursor % 3 + 2) % 3;
                        } else {
                            self.move_back();
                        }
                        TimedAction::Stay
                    },
                    Key::Right => {
                        if self.is_time_focused {
                            self.time_cursor = (self.time_cursor % 3 + 1) % 3;
                        } else {
                            self.move_forth();
                        }
                        TimedAction::Stay
                    },
                    Key::PageUp => {
                        let month = previous_month(self.current_month);
                        let year = if month == 12 && self.current_year > i32::MIN {
                            self.current_year - 1
                        } else {
                            self.current_year
                        };
                        self.turn_to(year, month);
                        TimedAction::Stay
                    },
                    Key::PageDown => {
                        let month = next_month(self.current_month);
                        let year = if month == 1 && self.current_year < i32::MAX {
                            self.current_year + 1
                        } else {
                            self.current_year
                        };
                        self.turn_to(year, month);
                        TimedAction::Stay
                    },
                    _ => TimedAction::Stay,
                }
            },
        }
    }
}

/// Takes a key on the page.
pub fn handle_timed_input(timed_state: &mut TimedGrabbingState, key: Key) -> (action: TimedAction)
    ensures
        (final(timed_state)@, action) == timed_key(old(timed_state)@, key),
{
    timed_state.take_key(key)
}

} // verus!
