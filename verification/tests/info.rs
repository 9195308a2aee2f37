use utermux::games::{
    community_id_of, default_games, game_position, merge_game, parse_zone_tasks, record_zone,
};
use utermux::info::{
    get_info, parse_categories, refresh_categories, InfoData, InfoObject, InfoResponse, RedItem, ZoneRed,
};
use utermux::plan::{GameConfig, TicketCategory, ZoneTasks};
use utermux::tickets::default_categories;

fn zone(name: &str, ids: &[i64]) -> ZoneRed {
    ZoneRed {
        red_list: ids.iter().map(|i| RedItem { red_pack_task_id: *i }).collect(),
        zone_name: name.to_string(),
    }
}

fn response(zones: Vec<ZoneRed>) -> InfoResponse {
    InfoResponse {
        object: InfoObject { zone_red_list: zones },
        response_code: "0".to_string(),
        response_msg: String::new(),
        success: true,
    }
}

fn category(name: &str, ids: &[i64]) -> TicketCategory {
    TicketCategory { name: name.to_string(), task_ids: ids.to_vec() }
}

fn tasks(name: &str, ids: &[&str]) -> ZoneTasks {
    ZoneTasks { zone: name.to_string(), task_ids: ids.iter().map(|s| s.to_string()).collect() }
}

#[test]
fn summary_of_an_answer() {
    let r = response(vec![zone("每日专区", &[57153, 57152]), zone("每周专区", &[]), zone("新人专区", &[-1])]);
    assert_eq!(get_info(&r), "每日专区:57153,57152;每周专区:;新人专区:-1");
    assert_eq!(get_info(&response(vec![])), "");
    assert_eq!(get_info(&response(vec![zone("a", &[1])])), "a:1");
    let d = InfoData { object: InfoObject { zone_red_list: vec![] } };
    assert!(d.object.zone_red_list.is_empty());
}

#[test]
fn categories_are_read_back() {
    let got = parse_categories("每日专区:57153,57152;每周专区:;新人专区:-1");
    assert_eq!(
        got,
        vec![category("每日专区", &[57153, 57152]), category("每周专区", &[]), category("新人专区", &[-1])]
    );
}

#[test]
fn categories_skip_what_is_no_category() {
    assert_eq!(parse_categories(""), Vec::<TicketCategory>::new());
    assert_eq!(parse_categories("abc;a:1:2;;x:1,y,3"), vec![category("x", &[1, 3])]);
    assert_eq!(parse_categories(":"), vec![category("", &[])]);
}

#[test]
fn summary_round_trip() {
    let r = response(vec![zone("置顶专区", &[1, 2, 3]), zone("每日专区", &[9])]);
    assert_eq!(
        parse_categories(&get_info(&r)),
        vec![category("置顶专区", &[1, 2, 3]), category("每日专区", &[9])]
    );
}

#[test]
fn refresh_replaces_known_categories_only() {
    let mut known = default_categories();
    assert_eq!(
        known.iter().map(|c| c.name.as_str()).collect::<Vec<_>>(),
        vec!["置顶专区", "新人专区", "每周专区", "每日专区"]
    );
    assert!(known.iter().all(|c| c.task_ids.is_empty()));
    let fetched = vec![
        category("每日专区", &[1, 2]),
        category("别的专区", &[3]),
        category("每周专区", &[]),
        category("每日专区", &[4]),
    ];
    refresh_categories(&mut known, &fetched);
    assert_eq!(
        known,
        vec![
            category("置顶专区", &[]),
            category("新人专区", &[]),
            category("每周专区", &[]),
            category("每日专区", &[4]),
        ]
    );
}

#[test]
fn refresh_with_nothing_keeps_everything() {
    let mut known = vec![category("a", &[1])];
    refresh_categories(&mut known, &vec![category("a", &[])]);
    assert_eq!(known, vec![category("a", &[1])]);
    refresh_categories(&mut known, &vec![]);
    assert_eq!(known, vec![category("a", &[1])]);
}

#[test]
fn communities_of_the_games() {
    assert_eq!(community_id_of("三国杀"), "14");
    assert_eq!(community_id_of("王者荣耀"), "7");
    assert_eq!(community_id_of("火影忍者"), "10");
    assert_eq!(community_id_of("别的"), "14");
    assert_eq!(default_games(), vec!["三国杀", "王者荣耀", "火影忍者"]);
}

#[test]
fn zone_tasks_are_read_from_a_summary() {
    assert_eq!(
        parse_zone_tasks("每日专区:1,2;每周专区:;x;每日专区:3"),
        vec![tasks("每日专区", &["3"]), tasks("每周专区", &[])]
    );
    assert_eq!(parse_zone_tasks(""), Vec::<ZoneTasks>::new());
    assert_eq!(parse_zone_tasks("a:b:c,,d"), vec![tasks("a", &["b:c", "d"])]);
}

#[test]
fn zone_records_replace_or_add() {
    let mut zones = vec![tasks("a", &["1"]), tasks("b", &["2"])];
    record_zone(&mut zones, tasks("b", &["3", "4"]));
    record_zone(&mut zones, tasks("c", &[]));
    assert_eq!(zones, vec![tasks("a", &["1"]), tasks("b", &["3", "4"]), tasks("c", &[])]);
}

#[test]
fn merge_updates_a_stored_game() {
    let mut games = vec![
        GameConfig {
            name: "三国杀".to_string(),
            active: false,
            community_id: "14".to_string(),
            red_pack_tasks: vec![tasks("每日专区", &["1"])],
            amounts: vec![],
        },
    ];
    assert_eq!(game_position(&games, "三国杀"), Some(0));
    assert_eq!(game_position(&games, "王者荣耀"), None);
    merge_game(&mut games, "三国杀", true, vec![]);
    assert!(games[0].active);
    assert_eq!(games[0].red_pack_tasks, vec![tasks("每日专区", &["1"])]);
    merge_game(&mut games, "三国杀", false, vec![tasks("每周专区", &["7"])]);
    assert!(!games[0].active);
    assert_eq!(games[0].red_pack_tasks, vec![tasks("每周专区", &["7"])]);
    assert_eq!(games.len(), 1);
}

#[test]
fn merge_adds_an_unknown_game() {
    let mut games: Vec<GameConfig> = Vec::new();
    merge_game(&mut games, "王者荣耀", true, vec![tasks("每日专区", &["9"])]);
    assert_eq!(
        games,
        vec![GameConfig {
            name: "王者荣耀".to_string(),
            active: true,
            community_id: "7".to_string(),
            red_pack_tasks: vec![tasks("每日专区", &["9"])],
            amounts: vec![],
        }]
    );
}
