use utermux::clock::{CivilDate, TimeOfDay};
use utermux::console::Console;
use utermux::dispatch::{deadline_after, DEFAULT_BACKOFF_MS, DEFAULT_FAN_OUT, DEFAULT_WINDOW_MS};
use utermux::error::ErrorKind;
use utermux::notice::Notice;
use utermux::plan::{any_active, GameConfig, ZoneTasks};
use utermux::schedule::{start_ticket_grabbing_logic, Scheduler};
use utermux::setting::SettingState;
use utermux::token::split_label;

fn game(name: &str, active: bool, zones: Vec<ZoneTasks>) -> GameConfig {
    GameConfig {
        name: name.to_string(),
        active,
        community_id: "14".to_string(),
        red_pack_tasks: zones,
        amounts: vec![],
    }
}

fn tasks(name: &str, ids: &[&str]) -> ZoneTasks {
    ZoneTasks { zone: name.to_string(), task_ids: ids.iter().map(|s| s.to_string()).collect() }
}

#[test]
fn dispatch_defaults() {
    assert_eq!(DEFAULT_FAN_OUT, 5);
    assert_eq!(DEFAULT_WINDOW_MS, 2000);
    assert_eq!(DEFAULT_BACKOFF_MS, 20);
    assert!(DEFAULT_WINDOW_MS as u64 / DEFAULT_BACKOFF_MS >= 24);
}

#[test]
fn deadline_is_now_plus_window() {
    assert_eq!(deadline_after(1000, 2000), 3000);
    assert_eq!(deadline_after(-5, 2), -3);
    assert_eq!(deadline_after(i64::MAX - 1, 2000), i64::MAX);
    assert_eq!(deadline_after(i64::MIN + 1, -2000), i64::MIN);
}

#[test]
fn timed_run_begins_or_is_refused() {
    let d = CivilDate { year: 1970, month: 1, day: 1 };
    let t = TimeOfDay { hour: 0, minute: 0, second: 10 };
    assert_eq!(
        start_ticket_grabbing_logic(Some(d), Some(t), 9_999),
        Ok(Scheduler { target_ms: 10_000, announced: None })
    );
    assert_eq!(
        start_ticket_grabbing_logic(Some(d), Some(t), 10_000),
        Err(ErrorKind::AlreadyExpired)
    );
    assert_eq!(
        start_ticket_grabbing_logic(Some(d), Some(t), 11_000),
        Err(ErrorKind::AlreadyExpired)
    );
    assert_eq!(start_ticket_grabbing_logic(None, Some(t), 0), Err(ErrorKind::DateNotSet));
    assert_eq!(start_ticket_grabbing_logic(Some(d), None, 0), Err(ErrorKind::TimeNotSet));
    let bad = CivilDate { year: 1970, month: 13, day: 1 };
    assert_eq!(start_ticket_grabbing_logic(Some(bad), Some(t), 0), Err(ErrorKind::InvalidTarget));
    assert_eq!(ErrorKind::NoGameSelected.notice(), Notice::NoGameSelected);
}

#[test]
fn active_games_are_found() {
    assert!(!any_active(&vec![]));
    assert!(!any_active(&vec![game("a", false, vec![])]));
    assert!(any_active(&vec![game("a", false, vec![]), game("b", true, vec![])]));
}

#[test]
fn labels_are_read_back() {
    assert_eq!(split_label("[*] 138"), (true, "138".to_string()));
    assert_eq!(split_label("[ ] 139"), (false, "139".to_string()));
    assert_eq!(split_label("账号1"), (false, "账号1".to_string()));
    assert_eq!(split_label("[*] [*] [ ] [ ] x"), (true, "x".to_string()));
    assert_eq!(split_label("[ ] [*] x"), (false, "[*] x".to_string()));
    assert_eq!(split_label("[*]x"), (true, "[*]x".to_string()));
    assert_eq!(split_label(""), (false, String::new()));
    for l in ["[*] 138", "[ ] 139", "[*] [*] [ ] [ ] x", "[ ] [*] x", "[*]", "[ ] "] {
        let want = l.trim_start_matches("[*] ").trim_start_matches("[ ] ").to_string();
        assert_eq!(split_label(l), (l.starts_with("[*]"), want));
    }
}

#[test]
fn choices_to_store() {
    let mut s = SettingState::new(None);
    s.game_selections = vec![true, false];
    assert_eq!(
        s.save_settings(),
        vec![
            ("三国杀".to_string(), true),
            ("王者荣耀".to_string(), false),
            ("火影忍者".to_string(), false),
        ]
    );
}

#[test]
fn choices_are_merged_into_the_stored_games() {
    let games = vec!["三国杀".to_string(), "王者荣耀".to_string(), "火影忍者".to_string()];
    let selections = vec![true, false];
    let summaries = vec![
        Some("每日专区:1,2;每周专区:".to_string()),
        Some("每日专区:9".to_string()),
        Some("每日专区:7".to_string()),
    ];
    let mut stored = vec![
        game("王者荣耀", true, vec![tasks("每日专区", &["5"])]),
        game("别的", true, vec![]),
    ];
    SettingState::save_settings_static(&games, &selections, &summaries, &mut stored);
    assert_eq!(
        stored,
        vec![
            GameConfig {
                name: "王者荣耀".to_string(),
                active: false,
                community_id: "14".to_string(),
                red_pack_tasks: vec![tasks("每日专区", &["5"])],
                amounts: vec![],
            },
            game("别的", true, vec![]),
            game("三国杀", true, vec![tasks("每日专区", &["1", "2"]), tasks("每周专区", &[])]),
            GameConfig {
                name: "火影忍者".to_string(),
                active: false,
                community_id: "10".to_string(),
                red_pack_tasks: vec![],
                amounts: vec![],
            },
        ]
    );
}

#[test]
fn merge_without_summaries_keeps_the_tasks() {
    let games = vec!["三国杀".to_string()];
    let mut stored = vec![game("三国杀", false, vec![tasks("每日专区", &["5"])])];
    SettingState::save_settings_static(&games, &vec![true], &vec![None], &mut stored);
    assert_eq!(stored, vec![game("三国杀", true, vec![tasks("每日专区", &["5"])])]);
    SettingState::save_settings_static(&games, &vec![true], &vec![], &mut stored);
    assert_eq!(stored, vec![game("三国杀", true, vec![tasks("每日专区", &["5"])])]);
}

#[test]
fn console_counts_its_lines() {
    let mut c = Console::new();
    assert_eq!(c.line_count(), 0);
    c.add_console_message("a");
    c.add_console_message("");
    c.add_console_message("b");
    assert_eq!(c.line_count(), 2);
    c.add_console_message("");
    assert_eq!(c.line_count(), 2);
}

#[test]
fn merge_keeps_the_amounts_and_the_other_games() {
    let mut stored = vec![
        GameConfig {
            name: "三国杀".to_string(),
            active: false,
            community_id: "140".to_string(),
            red_pack_tasks: vec![tasks("每日专区", &["5"])],
            amounts: vec![("gold".to_string(), 3), ("silver".to_string(), 0)],
        },
        GameConfig {
            name: "别的".to_string(),
            active: true,
            community_id: "99".to_string(),
            red_pack_tasks: vec![tasks("每周专区", &["8"])],
            amounts: vec![("gold".to_string(), 7)],
        },
    ];
    let games = vec!["三国杀".to_string(), "王者荣耀".to_string()];
    let summaries = vec![Some("每日专区:1".to_string()), None];
    SettingState::save_settings_static(&games, &vec![true, true], &summaries, &mut stored);
    assert_eq!(
        stored,
        vec![
            GameConfig {
                name: "三国杀".to_string(),
                active: true,
                community_id: "140".to_string(),
                red_pack_tasks: vec![tasks("每日专区", &["1"])],
                amounts: vec![("gold".to_string(), 3), ("silver".to_string(), 0)],
            },
            GameConfig {
                name: "别的".to_string(),
                active: true,
                community_id: "99".to_string(),
                red_pack_tasks: vec![tasks("每周专区", &["8"])],
                amounts: vec![("gold".to_string(), 7)],
            },
            GameConfig {
                name: "王者荣耀".to_string(),
                active: true,
                community_id: "7".to_string(),
                red_pack_tasks: vec![],
                amounts: vec![],
            },
        ]
    );
}
