use utermux::calendar::{get_last_day_of_month, next_month, previous_month};
use utermux::clock::{CivilDate, TimeOfDay};
use utermux::keys::Key;
use utermux::timed::{
    handle_timed_input, read_saved_date, read_saved_time, save_date, saved_message, TimedAction,
    TimedGrabbingState,
};

fn date(year: i32, month: u32, day: u32) -> CivilDate {
    CivilDate { year, month, day }
}

fn time(hour: u8, minute: u8, second: u8) -> TimeOfDay {
    TimeOfDay { hour, minute, second }
}

fn page(today: CivilDate) -> TimedGrabbingState {
    TimedGrabbingState::new(today, time(10, 20, 30), None, None)
}

#[test]
fn months_go_round() {
    assert_eq!(previous_month(1), 12);
    assert_eq!(previous_month(12), 11);
    assert_eq!(previous_month(2), 1);
    assert_eq!(next_month(12), 1);
    assert_eq!(next_month(1), 2);
    assert_eq!(next_month(11), 12);
    assert_eq!(previous_month(0), 12);
    assert_eq!(next_month(40), 1);
}

#[test]
fn last_days_of_months() {
    assert_eq!(get_last_day_of_month(2025, 1), Some(31));
    assert_eq!(get_last_day_of_month(2025, 2), Some(28));
    assert_eq!(get_last_day_of_month(2024, 2), Some(29));
    assert_eq!(get_last_day_of_month(1900, 2), Some(28));
    assert_eq!(get_last_day_of_month(2000, 2), Some(29));
    assert_eq!(get_last_day_of_month(2025, 4), Some(30));
    assert_eq!(get_last_day_of_month(2025, 12), Some(31));
    assert_eq!(get_last_day_of_month(i32::MAX, 12), None);
    assert_eq!(get_last_day_of_month(i32::MAX, 3), None);
}

#[test]
fn page_opens_on_today() {
    let s = TimedGrabbingState::new(date(2025, 3, 7), time(1, 2, 3), Some(date(2025, 4, 1)), None);
    assert_eq!(s.cursor_date, date(2025, 3, 7));
    assert_eq!((s.current_year, s.current_month), (2025, 3));
    assert_eq!(s.selected_date, Some(date(2025, 4, 1)));
    assert_eq!(s.selected_time, Some(time(1, 2, 3)));
    let s = TimedGrabbingState::new(date(2025, 3, 7), time(1, 2, 3), None, Some(time(9, 9, 9)));
    assert_eq!(s.selected_time, Some(time(9, 9, 9)));
    assert_eq!(s.selected_date, None);
    assert!(!s.is_editing && !s.is_time_focused);
}

#[test]
fn cursor_moves_within_the_month() {
    let mut s = page(date(2025, 2, 27));
    assert_eq!(handle_timed_input(&mut s, Key::Right), TimedAction::Stay);
    assert_eq!(s.cursor_date, date(2025, 2, 28));
    handle_timed_input(&mut s, Key::Down);
    assert_eq!(s.cursor_date, date(2025, 2, 28));
    handle_timed_input(&mut s, Key::Left);
    handle_timed_input(&mut s, Key::Up);
    assert_eq!(s.cursor_date, date(2025, 2, 26));
    let mut s = page(date(2025, 3, 1));
    handle_timed_input(&mut s, Key::Up);
    assert_eq!(s.cursor_date, date(2025, 3, 1));
    handle_timed_input(&mut s, Key::Down);
    assert_eq!(s.cursor_date, date(2025, 3, 2));
}

#[test]
fn pages_turn_the_month() {
    let mut s = page(date(2025, 1, 31));
    handle_timed_input(&mut s, Key::PageDown);
    assert_eq!((s.current_year, s.current_month), (2025, 2));
    assert_eq!(s.cursor_date, date(2025, 1, 31));
    handle_timed_input(&mut s, Key::PageDown);
    assert_eq!((s.current_year, s.current_month), (2025, 3));
    assert_eq!(s.cursor_date, date(2025, 3, 31));
    handle_timed_input(&mut s, Key::PageUp);
    handle_timed_input(&mut s, Key::PageUp);
    handle_timed_input(&mut s, Key::PageUp);
    assert_eq!((s.current_year, s.current_month), (2024, 12));
    assert_eq!(s.cursor_date, date(2024, 12, 31));
    handle_timed_input(&mut s, Key::PageDown);
    assert_eq!((s.current_year, s.current_month), (2025, 1));
    assert_eq!(s.cursor_date, date(2025, 1, 31));
}

#[test]
fn page_down_in_december_lands_in_january() {
    let mut s = page(date(2024, 12, 15));
    handle_timed_input(&mut s, Key::PageDown);
    assert_eq!((s.current_year, s.current_month), (2025, 1));
    assert_eq!(s.cursor_date, date(2025, 1, 15));
    handle_timed_input(&mut s, Key::PageUp);
    assert_eq!((s.current_year, s.current_month), (2024, 12));
    assert_eq!(s.cursor_date, date(2024, 12, 15));
}

fn days_by_rule(year: i32, month: u32) -> u32 {
    let leap = year.rem_euclid(4) == 0 && (year.rem_euclid(100) != 0 || year.rem_euclid(400) == 0);
    match month {
        2 if leap => 29,
        2 => 28,
        4 | 6 | 9 | 11 => 30,
        _ => 31,
    }
}

#[test]
fn months_have_the_days_of_the_rule() {
    for year in (-9999..=9999).filter(|y| y % 7 == 0 || y % 100 == 0 || (2000..2030).contains(y)) {
        for month in 1..=12u32 {
            if year == 9999 && month == 12 {
                assert_eq!(get_last_day_of_month(year, month), None);
            } else {
                assert_eq!(get_last_day_of_month(year, month), Some(days_by_rule(year, month)));
            }
        }
    }
    assert_eq!(get_last_day_of_month(-9999, 1), Some(31));
    assert_eq!(get_last_day_of_month(10000, 1), None);
    assert_eq!(get_last_day_of_month(-10000, 6), None);
}

#[test]
fn cursor_walks_through_every_day_of_a_month() {
    for (year, month) in [(2024, 2), (2025, 2), (1900, 2), (2000, 2), (2025, 4), (2025, 12), (-9999, 1), (9999, 11)] {
        let last = days_by_rule(year, month);
        let mut s = page(date(year, month, 1));
        for day in 1..=last {
            assert_eq!(s.cursor_date, date(year, month, day));
            handle_timed_input(&mut s, Key::Down);
        }
        assert_eq!(s.cursor_date, date(year, month, last));
        for day in (1..=last).rev() {
            assert_eq!(s.cursor_date, date(year, month, day));
            handle_timed_input(&mut s, Key::Left);
        }
        assert_eq!(s.cursor_date, date(year, month, 1));
    }
}

#[test]
fn pages_keep_the_day_where_the_month_has_it() {
    let mut s = page(date(2024, 1, 30));
    handle_timed_input(&mut s, Key::PageDown);
    assert_eq!((s.current_year, s.current_month), (2024, 2));
    assert_eq!(s.cursor_date, date(2024, 1, 30));
    let mut s = page(date(2024, 1, 29));
    handle_timed_input(&mut s, Key::PageDown);
    assert_eq!(s.cursor_date, date(2024, 2, 29));
    let mut s = page(date(2025, 1, 29));
    handle_timed_input(&mut s, Key::PageDown);
    assert_eq!(s.cursor_date, date(2025, 1, 29));
    let mut s = page(date(9999, 12, 5));
    handle_timed_input(&mut s, Key::PageDown);
    assert_eq!((s.current_year, s.current_month), (10000, 1));
    assert_eq!(s.cursor_date, date(9999, 12, 5));
    let mut s = page(date(-9999, 1, 5));
    handle_timed_input(&mut s, Key::Up);
    assert_eq!(s.cursor_date, date(-9999, 1, 4));
    handle_timed_input(&mut s, Key::PageUp);
    assert_eq!((s.current_year, s.current_month), (-10000, 12));
    assert_eq!(s.cursor_date, date(-9999, 1, 4));
}

#[test]
fn time_selector_goes_round_the_clock() {
    let mut s = TimedGrabbingState::new(date(2025, 3, 7), time(0, 0, 0), None, Some(time(23, 59, 0)));
    handle_timed_input(&mut s, Key::Tab);
    assert!(s.is_time_focused);
    handle_timed_input(&mut s, Key::Up);
    assert_eq!(s.selected_time, Some(time(0, 59, 0)));
    handle_timed_input(&mut s, Key::Down);
    assert_eq!(s.selected_time, Some(time(23, 59, 0)));
    handle_timed_input(&mut s, Key::Right);
    assert_eq!(s.time_cursor, 1);
    handle_timed_input(&mut s, Key::Up);
    assert_eq!(s.selected_time, Some(time(23, 0, 0)));
    handle_timed_input(&mut s, Key::Right);
    handle_timed_input(&mut s, Key::Down);
    assert_eq!(s.selected_time, Some(time(23, 0, 59)));
    handle_timed_input(&mut s, Key::Right);
    assert_eq!(s.time_cursor, 0);
    handle_timed_input(&mut s, Key::Left);
    assert_eq!(s.time_cursor, 2);
    assert_eq!(s.cursor_date, date(2025, 3, 7));
}

#[test]
fn enter_stores_the_cursor_date() {
    let mut s = page(date(2025, 3, 7));
    handle_timed_input(&mut s, Key::Right);
    assert_eq!(
        handle_timed_input(&mut s, Key::Enter),
        TimedAction::Save { date: date(2025, 3, 8), time: Some(time(10, 20, 30)) }
    );
    assert_eq!(s.selected_date, Some(date(2025, 3, 8)));
    assert_eq!(s.headline(), "预设日期时间: 2025-03-08 10:20:30");
    assert_eq!(handle_timed_input(&mut s, Key::Esc), TimedAction::LeavePage);
}

#[test]
fn editing_takes_characters() {
    let mut s = page(date(2025, 3, 7));
    assert_eq!(handle_timed_input(&mut s, Key::Char('x')), TimedAction::Stay);
    assert_eq!(s.input_buffer, "");
    s.is_editing = true;
    handle_timed_input(&mut s, Key::Char('2'));
    handle_timed_input(&mut s, Key::Char('0'));
    handle_timed_input(&mut s, Key::Backspace);
    assert_eq!(s.input_buffer, "2");
    assert_eq!(s.headline(), "2_");
    assert_eq!(handle_timed_input(&mut s, Key::Enter), TimedAction::Stay);
    assert_eq!(handle_timed_input(&mut s, Key::Right), TimedAction::Stay);
    assert_eq!(s.cursor_date, date(2025, 3, 7));
    assert_eq!(handle_timed_input(&mut s, Key::Esc), TimedAction::Stay);
    assert!(!s.is_editing);
    assert_eq!(s.input_buffer, "");
}

#[test]
fn headlines() {
    let mut s = TimedGrabbingState::new(date(2025, 3, 7), time(1, 2, 3), None, None);
    assert_eq!(s.headline(), "按Enter设置日期时间 (格式: YYYY-MM-DD) 或使用方向键选择");
    s.selected_date = Some(date(2025, 12, 1));
    s.selected_time = None;
    assert_eq!(s.headline(), "预设日期: 2025-12-01");
}

#[test]
fn stored_text_is_written_and_read() {
    let text = save_date(date(2025, 3, 7), Some(time(9, 5, 0)));
    assert_eq!(text, "2025-03-07 09:05:00");
    assert_eq!(read_saved_date(&text), Some(date(2025, 3, 7)));
    assert_eq!(read_saved_time(&text), Some(time(9, 5, 0)));
    let text = save_date(date(2025, 3, 7), None);
    assert_eq!(text, "2025-03-07");
    assert_eq!(read_saved_date(&text), Some(date(2025, 3, 7)));
    assert_eq!(read_saved_time(&text), None);
    assert_eq!(
        saved_message(date(2025, 3, 7), Some(time(9, 5, 0))),
        "已保存定时日期时间: 2025-03-07 09:05:00"
    );
    assert_eq!(saved_message(date(2025, 3, 7), None), "已保存定时日期时间: 2025-03-07");
}

#[test]
fn stored_date_must_be_a_date() {
    assert_eq!(read_saved_date(""), None);
    assert_eq!(read_saved_date("   "), None);
    assert_eq!(read_saved_date("2025-02-30 10:00:00"), None);
    assert_eq!(read_saved_date("tomorrow"), None);
    assert_eq!(read_saved_date("\n 2024-02-29\t1:2:3"), Some(date(2024, 2, 29)));
}

#[test]
fn stored_time_parts() {
    assert_eq!(read_saved_time(""), None);
    assert_eq!(read_saved_time("2025-01-01 10:20"), None);
    assert_eq!(read_saved_time("2025-01-01  10:20:30"), None);
    assert_eq!(read_saved_time("x 1:2:3 y"), Some(time(1, 2, 3)));
    assert_eq!(read_saved_time(" x 1:b:300 "), None);
    assert_eq!(read_saved_time("x 255:+5:-1"), None);
    assert_eq!(read_saved_time("x 255:+5:01"), Some(time(255, 5, 1)));
    assert_eq!(read_saved_time("2025-01-02 xx:04:05"), None);
    assert_eq!(read_saved_time("2025-01-02 300:04:05"), None);
    assert_eq!(read_saved_time("2025-01-02 03::05"), None);
    assert_eq!(read_saved_time("2025-01-02 03:04:05"), Some(time(3, 4, 5)));
}
