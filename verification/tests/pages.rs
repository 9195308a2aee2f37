use utermux::button::{
    blue, centered_offset, green, popup_margin, red, Button, Colors, Rgb, State, Theme,
};
use utermux::console::{render_console, Console};
use utermux::keys::Key;
use utermux::menu::{
    choose_entry, handle_key_input_main, handle_login_input, LoginAction, LoginForm, MenuAction,
    Page, LAST_ENTRY,
};
use utermux::plan::{GameConfig, ZoneTasks};
use utermux::setting::{saved_message, SettingAction, SettingState};
use utermux::tickets::{handle_start_ticket_grabbing_input, PickerAction, TicketPicker};

fn stored(name: &str, active: bool) -> GameConfig {
    GameConfig {
        name: name.to_string(),
        active,
        community_id: "1".to_string(),
        red_pack_tasks: Vec::<ZoneTasks>::new(),
        amounts: vec![],
    }
}

#[test]
fn main_menu_cursor_stays_within_the_entries() {
    assert_eq!(LAST_ENTRY, 4);
    assert_eq!(handle_key_input_main(0, Key::Up), 0);
    assert_eq!(handle_key_input_main(0, Key::Down), 1);
    assert_eq!(handle_key_input_main(3, Key::Down), 4);
    assert_eq!(handle_key_input_main(4, Key::Down), 4);
    assert_eq!(handle_key_input_main(4, Key::Up), 3);
    assert_eq!(handle_key_input_main(2, Key::Enter), 2);
    assert_eq!(handle_key_input_main(9, Key::Down), 9);
}

#[test]
fn main_menu_entries() {
    assert_eq!(choose_entry(0), MenuAction::Open(Page::Login));
    assert_eq!(choose_entry(1), MenuAction::Open(Page::Timed));
    assert_eq!(choose_entry(2), MenuAction::Open(Page::Tickets));
    assert_eq!(choose_entry(3), MenuAction::Open(Page::Setting));
    assert_eq!(choose_entry(4), MenuAction::Quit);
    assert_eq!(choose_entry(5), MenuAction::Stay);
}

#[test]
fn login_form_takes_input_and_queries() {
    let mut f = LoginForm::new();
    for c in "tok".chars() {
        assert_eq!(handle_login_input(&mut f, Key::Char(c)), LoginAction::Stay);
    }
    assert_eq!(handle_login_input(&mut f, Key::Char('x')), LoginAction::Stay);
    assert_eq!(handle_login_input(&mut f, Key::Backspace), LoginAction::Stay);
    assert_eq!(f.input_buffer, "tok");
    assert_eq!(handle_login_input(&mut f, Key::Tab), LoginAction::Stay);
    assert_eq!(f.active_input, 1);
    assert_eq!(f.auth_token, "tok");
    assert_eq!(f.input_buffer, "");
    assert_eq!(handle_login_input(&mut f, Key::Enter), LoginAction::Stay);
    for c in "UA".chars() {
        handle_login_input(&mut f, Key::Char(c));
    }
    assert_eq!(
        handle_login_input(&mut f, Key::Enter),
        LoginAction::Query { auth_token: "tok".to_string(), user_agent: "UA".to_string() }
    );
    assert_eq!(f.user_agent, "UA");
    assert_eq!(f.input_buffer, "");
    assert_eq!(handle_login_input(&mut f, Key::Tab), LoginAction::Stay);
    assert_eq!(f.active_input, 0);
    assert_eq!(f.user_agent, "");
    assert_eq!(handle_login_input(&mut f, Key::Backspace), LoginAction::Stay);
    assert_eq!(handle_login_input(&mut f, Key::Esc), LoginAction::Stay);
}

#[test]
fn setting_page_opens_with_stored_choices() {
    let games = vec![stored("王者荣耀", true), stored("别的", true), stored("三国杀", false)];
    let s = SettingState::new(Some(&games));
    assert_eq!(s.get_games(), &vec!["三国杀".to_string(), "王者荣耀".to_string(), "火影忍者".to_string()]);
    assert_eq!(s.game_selections, vec![false, true, false]);
    assert_eq!(s.accounts, vec!["账号1".to_string(), "账号2".to_string()]);
    assert_eq!((s.setting_index, s.show_prop, s.popup_index), (0, false, 0));
    let s = SettingState::new(None);
    assert_eq!(s.game_selections, vec![false, false, false]);
}

#[test]
fn setting_page_moves_and_opens() {
    let mut s = SettingState::new(None);
    assert_eq!(s.setting_handle_key(Key::Up), SettingAction::Stay);
    assert_eq!(s.setting_index, 0);
    s.setting_handle_key(Key::Down);
    s.setting_handle_key(Key::Down);
    s.setting_handle_key(Key::Down);
    assert_eq!(s.setting_index, 2);
    assert_eq!(s.setting_handle_key(Key::Enter), SettingAction::Stay);
    assert!(s.show_prop);
    assert_eq!(s.setting_handle_key(Key::Down), SettingAction::Stay);
    assert_eq!(s.popup_index, 0);
    assert_eq!(s.setting_handle_key(Key::Enter), SettingAction::Stay);
    assert_eq!(s.setting_handle_key(Key::Esc), SettingAction::Stay);
    assert!(!s.show_prop);
    assert_eq!(s.setting_handle_key(Key::Esc), SettingAction::LeavePage);
    assert_eq!(s.setting_handle_key(Key::Tab), SettingAction::Stay);
}

#[test]
fn setting_page_toggles_games() {
    let mut s = SettingState::new(None);
    assert_eq!(s.setting_handle_key(Key::Enter), SettingAction::LoadSettings);
    let games = vec![stored("三国杀", true)];
    s.load_settings(Some(&games));
    assert_eq!(s.game_selections, vec![true, false, false]);
    s.setting_handle_key(Key::Down);
    s.setting_handle_key(Key::Down);
    s.setting_handle_key(Key::Down);
    assert_eq!(s.popup_index, 2);
    assert_eq!(s.setting_handle_key(Key::Enter), SettingAction::SaveGames { game: "火影忍者".to_string() });
    assert_eq!(s.game_selections, vec![true, false, true]);
    s.setting_handle_key(Key::Up);
    s.setting_handle_key(Key::Up);
    s.setting_handle_key(Key::Up);
    assert_eq!(s.setting_handle_key(Key::Enter), SettingAction::SaveGames { game: "三国杀".to_string() });
    assert_eq!(s.game_selections, vec![false, false, true]);
    assert_eq!(saved_message("三国杀"), "已保存-三国杀");
    s.load_settings(None);
    assert_eq!(s.game_selections, vec![false, false, false]);
}

#[test]
fn setting_page_toggles_accounts() {
    let mut s = SettingState::new(None);
    s.setting_handle_key(Key::Down);
    assert_eq!(s.setting_handle_key(Key::Enter), SettingAction::Stay);
    s.setting_handle_key(Key::Down);
    assert_eq!(s.popup_index, 1);
    s.setting_handle_key(Key::Down);
    assert_eq!(s.popup_index, 1);
    assert_eq!(s.setting_handle_key(Key::Enter), SettingAction::ToggleAccount(1));
    s.set_accounts(vec![]);
    assert_eq!(s.setting_handle_key(Key::Enter), SettingAction::Stay);
    assert_eq!(s.setting_handle_key(Key::Up), SettingAction::Stay);
    assert_eq!(s.popup_index, 1);
    s.set_accounts(vec!["[*] 138".to_string()]);
    s.setting_handle_key(Key::Up);
    assert_eq!(s.popup_index, 0);
}

#[test]
fn ticket_page_chooses_and_unchooses() {
    let mut p = TicketPicker::new();
    assert_eq!(p.open_tickets(4), vec![0, 1, 2, 3]);
    handle_start_ticket_grabbing_input(&mut p, Key::Down, 4);
    assert_eq!(handle_start_ticket_grabbing_input(&mut p, Key::Enter, 4), PickerAction::Stay);
    assert_eq!(p.selected_tickets, vec![1]);
    assert_eq!(p.open_tickets(4), vec![0, 2, 3]);
    assert_eq!(p.selected_index, 1);
    handle_start_ticket_grabbing_input(&mut p, Key::Down, 4);
    handle_start_ticket_grabbing_input(&mut p, Key::Down, 4);
    assert_eq!(p.selected_index, 2);
    handle_start_ticket_grabbing_input(&mut p, Key::Enter, 4);
    assert_eq!(p.selected_tickets, vec![1, 3]);
    assert_eq!(p.selected_index, 1);
    handle_start_ticket_grabbing_input(&mut p, Key::Right, 4);
    assert!(p.is_right_panel);
    assert_eq!(p.selected_index, 0);
    handle_start_ticket_grabbing_input(&mut p, Key::Enter, 4);
    assert_eq!(p.selected_tickets, vec![3]);
    handle_start_ticket_grabbing_input(&mut p, Key::Enter, 4);
    assert_eq!(p.selected_tickets, Vec::<usize>::new());
    assert!(!p.is_right_panel);
    assert_eq!(handle_start_ticket_grabbing_input(&mut p, Key::Left, 4), PickerAction::Stay);
    assert!(!p.is_right_panel);
}

#[test]
fn ticket_page_runs_out_of_categories() {
    let mut p = TicketPicker::new();
    handle_start_ticket_grabbing_input(&mut p, Key::Enter, 2);
    assert_eq!(p.selected_tickets, vec![0]);
    handle_start_ticket_grabbing_input(&mut p, Key::Enter, 2);
    assert_eq!(p.selected_tickets, vec![0, 1]);
    assert!(p.is_right_panel);
    handle_start_ticket_grabbing_input(&mut p, Key::Left, 2);
    assert!(!p.is_right_panel);
    assert_eq!(handle_start_ticket_grabbing_input(&mut p, Key::Enter, 2), PickerAction::NoneLeft);
    assert_eq!(PickerAction::NoneLeft.message(), Some("已经没有可选的票种了".to_string()));
    assert_eq!(handle_start_ticket_grabbing_input(&mut p, Key::Enter, 0), PickerAction::NoneLeft);
}

#[test]
fn ticket_page_buttons() {
    let mut p = TicketPicker::new();
    assert_eq!(handle_start_ticket_grabbing_input(&mut p, Key::Esc, 4), PickerAction::LeavePage);
    handle_start_ticket_grabbing_input(&mut p, Key::Tab, 4);
    assert!(p.is_button_mode);
    assert_eq!(handle_start_ticket_grabbing_input(&mut p, Key::Enter, 4), PickerAction::NothingSelected);
    assert_eq!(handle_start_ticket_grabbing_input(&mut p, Key::Down, 4), PickerAction::Stay);
    assert_eq!(p.selected_index, 0);
    handle_start_ticket_grabbing_input(&mut p, Key::Esc, 4);
    assert!(!p.is_button_mode);
    handle_start_ticket_grabbing_input(&mut p, Key::Enter, 4);
    handle_start_ticket_grabbing_input(&mut p, Key::Tab, 4);
    assert_eq!(handle_start_ticket_grabbing_input(&mut p, Key::Enter, 4), PickerAction::Start);
    assert_eq!(PickerAction::Start.message(), Some("开始抢票...".to_string()));
    handle_start_ticket_grabbing_input(&mut p, Key::Tab, 4);
    assert_eq!(p.button_focus, 1);
    assert_eq!(handle_start_ticket_grabbing_input(&mut p, Key::Enter, 4), PickerAction::Cleared);
    assert_eq!(p.selected_tickets, Vec::<usize>::new());
    handle_start_ticket_grabbing_input(&mut p, Key::Tab, 4);
    assert_eq!(p.button_focus, 0);
    assert_eq!(PickerAction::Cleared.message(), Some("已清空所有选择".to_string()));
    assert_eq!(PickerAction::NothingSelected.message(), Some("请先选择要抢的票种！".to_string()));
    assert_eq!(PickerAction::Stay.message(), None);
    assert_eq!(PickerAction::LeavePage.message(), None);
}

#[test]
fn console_collects_messages() {
    let mut c = Console::new();
    assert_eq!(render_console(&c, 10), "");
    c.add_console_message("一");
    c.add_console_message("二");
    assert_eq!(c.console_info, "一\n二");
    assert_eq!(render_console(&c, 10), "一\n二");
    assert!(!c.needs_scrollbar(4));
    assert!(c.needs_scrollbar(3));
}

#[test]
fn console_window_follows_or_scrolls() {
    let mut c = Console::new();
    for i in 0..6 {
        c.add_console_message(&format!("m{}", i));
    }
    assert_eq!(render_console(&c, 5), "m3\nm4\nm5");
    assert_eq!(render_console(&c, 2), "");
    assert_eq!(render_console(&c, 0), "");
    assert_eq!(render_console(&c, 100), "m0\nm1\nm2\nm3\nm4\nm5");
    c.auto_scroll = false;
    assert_eq!(render_console(&c, 5), "m0\nm1\nm2");
    c.console_scroll = 4;
    assert_eq!(render_console(&c, 5), "m4\nm5");
    c.console_scroll = 40;
    assert_eq!(render_console(&c, 5), "");
}

#[test]
fn console_leaves_out_empty_lines_but_the_last() {
    let mut c = Console::new();
    c.add_console_message("a");
    c.add_console_message("");
    c.add_console_message("b");
    c.add_console_message("");
    assert_eq!(c.console_info, "a\n\nb\n");
    assert_eq!(render_console(&c, 10), "a\nb");
    c.console_info = "a\n\nb\n\n".to_string();
    assert_eq!(render_console(&c, 10), "a\nb\n");
}

#[test]
fn button_colours_by_state() {
    let t = Theme {
        text: Rgb { red: 1, green: 1, blue: 1 },
        background: Rgb { red: 2, green: 2, blue: 2 },
        highlight: Rgb { red: 3, green: 3, blue: 3 },
        shadow: Rgb { red: 4, green: 4, blue: 4 },
    };
    let b = Button::new("开始抢票".to_string());
    assert_eq!(b.label(), "开始抢票");
    assert_eq!(
        b.colors(),
        Colors {
            background: blue().background,
            text: blue().text,
            shadow: blue().shadow,
            highlight: blue().highlight
        }
    );
    let b = b.theme(t);
    assert_eq!(
        b.colors(),
        Colors { background: t.background, text: t.text, shadow: t.shadow, highlight: t.highlight }
    );
    let b = b.state(State::Selected);
    assert_eq!(
        b.colors(),
        Colors { background: t.highlight, text: t.text, shadow: t.shadow, highlight: t.highlight }
    );
    let b = b.state(State::Active);
    assert_eq!(
        b.colors(),
        Colors { background: t.background, text: t.text, shadow: t.highlight, highlight: t.shadow }
    );
    assert_eq!(b.label(), "开始抢票");
}

#[test]
fn themes_and_margins() {
    assert_eq!(blue().background, Rgb { red: 48, green: 72, blue: 144 });
    assert_eq!(red().highlight, Rgb { red: 192, green: 64, blue: 64 });
    assert_eq!(green().shadow, Rgb { red: 32, green: 96, blue: 32 });
    assert_eq!(green().text, Rgb { red: 16, green: 48, blue: 16 });
    assert_eq!(centered_offset(20, 6), 7);
    assert_eq!(centered_offset(20, 7), 6);
    assert_eq!(centered_offset(5, 9), 0);
    assert_eq!(popup_margin(60), 20);
    assert_eq!(popup_margin(50), 25);
    assert_eq!(popup_margin(100), 0);
    assert_eq!(popup_margin(250), 0);
}
