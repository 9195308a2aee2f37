use utermux::dispatch::{count_slots, Dispatcher};
use utermux::error::ErrorKind;
use utermux::notice::Notice;
use utermux::outcome::{ClaimOutcome, ClassifierPolicy, RawResult};
use utermux::plan::{
    plan_dispatch, plan_game, plan_selection, zone_index, ClaimTarget, ClaimTask, DispatchPlan,
    GameConfig, TicketCategory, ZoneTasks,
};
use utermux::reporter::Reporter;
use utermux::worker::{Worker, WorkerAction, WorkerEvent, WorkerPhase};

fn task(game: &str, zone: &str, id: &str, fan_out: usize, deadline_ms: i64) -> ClaimTask {
    ClaimTask {
        target: ClaimTarget {
            community_id: "14".to_string(),
            zone: zone.to_string(),
            task_id: id.to_string(),
        },
        game: game.to_string(),
        fan_out,
        deadline_ms,
    }
}

fn zone(name: &str, ids: &[&str]) -> ZoneTasks {
    ZoneTasks { zone: name.to_string(), task_ids: ids.iter().map(|s| s.to_string()).collect() }
}

fn game(name: &str, active: bool, community: &str, zones: Vec<ZoneTasks>) -> GameConfig {
    GameConfig {
        name: name.to_string(),
        active,
        community_id: community.to_string(),
        red_pack_tasks: zones,
        amounts: vec![],
    }
}

fn categories() -> Vec<TicketCategory> {
    vec![
        TicketCategory { name: "置顶专区".to_string(), task_ids: vec![] },
        TicketCategory { name: "新人专区".to_string(), task_ids: vec![] },
        TicketCategory { name: "每周专区".to_string(), task_ids: vec![] },
        TicketCategory { name: "每日专区".to_string(), task_ids: vec![] },
    ]
}

#[test]
fn empty_dispatch_is_nothing_to_do() {
    match Dispatcher::start(Vec::new()) {
        Err(e) => {
            assert_eq!(e, ErrorKind::NothingToDo);
            assert_eq!(e.notice().text(), "没有可执行的抢票任务");
        }
        Ok(_) => panic!("an empty dispatch started"),
    }
}

#[test]
fn empty_dispatch_reports_a_single_notice() {
    let mut reporter = Reporter::new(100);
    if let Err(e) = Dispatcher::start(Vec::new()) {
        reporter.emit(e.notice().text());
    }
    assert_eq!(reporter.len(), 1);
    assert_eq!(reporter.take(), Some("没有可执行的抢票任务".to_string()));
    assert_eq!(reporter.take(), None);
}

#[test]
fn task_without_slots_is_refused() {
    let tasks = vec![task("g", "z", "1", 3, 0), task("g", "z", "2", 0, 0)];
    assert!(matches!(Dispatcher::start(tasks), Err(ErrorKind::EmptyFanOut)));
}

#[test]
fn uncountable_slots_are_refused() {
    let tasks = vec![task("g", "z", "1", usize::MAX, 0), task("g", "z", "2", 1, 0)];
    assert_eq!(count_slots(&tasks), None);
    assert!(matches!(Dispatcher::start(tasks), Err(ErrorKind::TooManySlots)));
}

#[test]
fn rendezvous_is_sized_to_all_slots() {
    let tasks = vec![task("g", "z", "1", 3, 10), task("g", "z", "2", 3, 10)];
    assert_eq!(count_slots(&tasks), Some(6));
    let d = Dispatcher::start(tasks).ok().unwrap();
    assert_eq!(d.rendezvous_size(), 6);
    assert_eq!(d.outstanding(), 6);
    assert_eq!(d.task_count(), 2);
    assert!(!d.is_finished());
    assert_eq!(d.result(0), None);
    assert_eq!(d.result(1), None);
    assert_eq!(d.result(2), None);
}

#[test]
fn one_worker_for_each_slot() {
    let tasks = vec![task("g", "z", "1", 2, 10), task("g", "z", "2", 3, 20)];
    let d = Dispatcher::start(tasks).ok().unwrap();
    let ws = d.workers(25);
    assert_eq!(ws.len(), d.rendezvous_size());
    let expected: Vec<(usize, usize, i64)> =
        vec![(0, 0, 10), (0, 1, 10), (1, 0, 20), (1, 1, 20), (1, 2, 20)];
    for (w, e) in ws.iter().zip(expected.iter()) {
        assert_eq!((w.task, w.slot, w.deadline_ms), *e);
        assert_eq!(w.backoff_ms, 25);
        assert_eq!(w.phase, WorkerPhase::AtRendezvous);
        assert_eq!(w.attempts, 0);
    }
}

#[test]
fn first_completion_is_announced_and_later_ones_are_not() {
    let tasks = vec![task("三国杀", "每日专区", "1", 3, 10)];
    let mut d = Dispatcher::start(tasks).ok().unwrap();
    let n = d.complete(0, ClaimOutcome::Success("领取成功".to_string()));
    assert_eq!(
        n,
        Some(Notice::Claimed {
            game: "三国杀".to_string(),
            zone: "每日专区".to_string(),
            message: "领取成功".to_string(),
        })
    );
    assert_eq!(d.complete(0, ClaimOutcome::Success("again".to_string())), None);
    assert!(!d.is_finished());
    assert_eq!(d.complete(0, ClaimOutcome::TimedOut), None);
    assert!(d.is_finished());
    assert_eq!(d.result(0), Some(ClaimOutcome::Success("领取成功".to_string())));
}

#[test]
fn decision_wins_over_earlier_time_outs() {
    let tasks = vec![task("g", "z", "1", 3, 10)];
    let mut d = Dispatcher::start(tasks).ok().unwrap();
    assert_eq!(d.pending(0), 3);
    assert_eq!(d.complete(0, ClaimOutcome::TimedOut), None);
    assert_eq!(d.complete(0, ClaimOutcome::TimedOut), None);
    assert_eq!(d.pending(0), 1);
    assert_eq!(d.result(0), None);
    let n = d.complete(0, ClaimOutcome::Success("ok".to_string()));
    assert_eq!(n.map(|n| n.text()), Some("g(z): ok".to_string()));
    assert_eq!(d.result(0), Some(ClaimOutcome::Success("ok".to_string())));
    assert!(d.is_finished());
    assert_eq!(d.pending(0), 0);
    assert_eq!(d.pending(1), 0);
}

#[test]
fn decision_wins_in_every_order() {
    let orders: [[usize; 3]; 6] =
        [[0, 1, 2], [0, 2, 1], [1, 0, 2], [1, 2, 0], [2, 0, 1], [2, 1, 0]];
    for order in orders {
        let tasks = vec![task("g", "a", "1", 3, 10), task("g", "b", "2", 3, 10)];
        let mut d = Dispatcher::start(tasks).ok().unwrap();
        let mut first = Vec::new();
        let mut second = Vec::new();
        for slot in order {
            let outcome = if slot == 2 {
                ClaimOutcome::Success("ok".to_string())
            } else {
                ClaimOutcome::TimedOut
            };
            if let Some(n) = d.complete(1, ClaimOutcome::TimedOut) {
                second.push(n.text());
            }
            if let Some(n) = d.complete(0, outcome) {
                first.push(n.text());
            }
        }
        assert_eq!(first, vec!["g(a): ok".to_string()]);
        assert_eq!(second, vec!["g(b)抢票失败：请求超时".to_string()]);
        assert!(d.is_finished());
    }
}

#[test]
fn task_times_out_when_its_last_worker_is_back() {
    let tasks = vec![task("g", "z", "1", 2, 10)];
    let mut d = Dispatcher::start(tasks).ok().unwrap();
    assert_eq!(d.complete(0, ClaimOutcome::Transient("busy".to_string())), None);
    assert_eq!(d.result(0), None);
    let n = d.complete(0, ClaimOutcome::TimedOut);
    assert_eq!(n.map(|n| n.text()), Some("g(z)抢票失败：请求超时".to_string()));
    assert_eq!(d.result(0), Some(ClaimOutcome::TimedOut));
    assert_eq!(d.complete(0, ClaimOutcome::Success("late".to_string())), None);
    assert_eq!(d.result(0), Some(ClaimOutcome::TimedOut));
}

#[test]
fn loss_decides_a_task_like_a_win() {
    let tasks = vec![task("g", "z", "1", 3, 10)];
    let mut d = Dispatcher::start(tasks).ok().unwrap();
    assert_eq!(d.complete(0, ClaimOutcome::TimedOut), None);
    let n = d.complete(0, ClaimOutcome::AlreadyClaimed("已领完".to_string()));
    assert_eq!(n.map(|n| n.text()), Some("g(z)抢票失败：已领完".to_string()));
    assert_eq!(d.complete(0, ClaimOutcome::Success("late".to_string())), None);
    assert_eq!(d.result(0), Some(ClaimOutcome::AlreadyClaimed("已领完".to_string())));
}

#[test]
fn completion_of_an_unknown_task_changes_nothing() {
    let tasks = vec![task("g", "z", "1", 2, 10)];
    let mut d = Dispatcher::start(tasks).ok().unwrap();
    assert_eq!(d.complete(5, ClaimOutcome::Success("x".to_string())), None);
    assert_eq!(d.outstanding(), 2);
    assert_eq!(d.result(0), None);
}

#[test]
fn flood_of_successes_gives_one_message() {
    let tasks = vec![task("g", "z", "1", 50, 10)];
    let mut d = Dispatcher::start(tasks).ok().unwrap();
    let mut reporter = Reporter::new(1000);
    for i in 0..50 {
        if let Some(n) = d.complete(0, ClaimOutcome::Success(format!("w{}", i))) {
            reporter.emit(n.text());
        }
    }
    assert!(d.is_finished());
    assert_eq!(reporter.len(), 1);
    assert_eq!(reporter.take(), Some("g(z): w0".to_string()));
}

fn run_to_end(
    d: &mut Dispatcher,
    reporter: &mut Reporter,
    transport: &dyn Fn(&Worker) -> RawResult,
) -> Vec<Worker> {
    let policy = ClassifierPolicy::new("2040".to_string());
    let mut workers = d.workers(20);
    assert_eq!(workers.len(), d.rendezvous_size());
    // every slot is released in the same instant
    let mut wake: Vec<i64> = vec![0; workers.len()];
    let mut pending: Vec<WorkerAction> = Vec::new();
    for w in workers.iter_mut() {
        pending.push(w.step(WorkerEvent::Released, 0));
    }
    let mut now: i64 = 0;
    while !d.is_finished() {
        for i in 0..workers.len() {
            if workers[i].is_stopped() || wake[i] > now {
                continue;
            }
            let action = std::mem::replace(&mut pending[i], WorkerAction::Ignore);
            let next = match action {
                WorkerAction::Attempt => {
                    let outcome = policy.classify(&transport(&workers[i]));
                    workers[i].step(WorkerEvent::Classified(outcome), now)
                }
                WorkerAction::Sleep(ms) => {
                    wake[i] = now + ms as i64;
                    WorkerAction::Sleep(0)
                }
                other => other,
            };
            let next = match next {
                WorkerAction::Sleep(0) if wake[i] <= now => {
                    workers[i].step(WorkerEvent::BackoffElapsed, now)
                }
                other => other,
            };
            match next {
                WorkerAction::Stop(outcome) => {
                    if let Some(n) = d.complete(workers[i].task, outcome) {
                        reporter.emit(n.text());
                    }
                }
                other => pending[i] = other,
            }
        }
        now += 1;
        for i in 0..workers.len() {
            if !workers[i].is_stopped() && wake[i] == now {
                if let WorkerAction::Sleep(_) = pending[i] {
                    pending[i] = workers[i].step(WorkerEvent::BackoffElapsed, now);
                    if let WorkerAction::Stop(outcome) =
                        std::mem::replace(&mut pending[i], WorkerAction::Ignore)
                    {
                        if let Some(n) = d.complete(workers[i].task, outcome) {
                            reporter.emit(n.text());
                        }
                    } else {
                        pending[i] = WorkerAction::Attempt;
                    }
                }
            }
        }
        assert!(now < 100_000);
    }
    workers
}

#[test]
fn two_tasks_three_slots_end_to_end() {
    let tasks = vec![task("三国杀", "每日专区", "101", 3, 200), task("三国杀", "每周专区", "202", 3, 200)];
    let mut d = Dispatcher::start(tasks).ok().unwrap();
    assert_eq!(d.rendezvous_size(), 6);
    let mut reporter = Reporter::new(100);
    let transport = |w: &Worker| {
        if w.task == 0 && w.slot == 2 {
            RawResult::Body("{\"success\":true,\"responseMsg\":\"领取成功\"}".to_string())
        } else {
            RawResult::Body("{\"success\":false,\"responseCode\":\"9999\"}".to_string())
        }
    };
    let workers = run_to_end(&mut d, &mut reporter, &transport);
    assert!(workers.iter().all(|w| w.is_stopped()));
    assert_eq!(d.result(0), Some(ClaimOutcome::Success("领取成功".to_string())));
    assert_eq!(d.result(1), Some(ClaimOutcome::TimedOut));
    let mut messages = Vec::new();
    while let Some(m) = reporter.take() {
        messages.push(m);
    }
    assert_eq!(messages.len(), 2);
    assert_eq!(
        messages.iter().filter(|m| *m == "三国杀(每日专区): 领取成功").count(),
        1
    );
    assert_eq!(
        messages.iter().filter(|m| *m == "三国杀(每周专区)抢票失败：请求超时").count(),
        1
    );
}

#[test]
fn one_task_lost_does_not_end_its_sibling() {
    let tasks = vec![task("g", "a", "1", 2, 100), task("g", "b", "2", 2, 100)];
    let mut d = Dispatcher::start(tasks).ok().unwrap();
    let mut reporter = Reporter::new(100);
    let transport = |w: &Worker| {
        if w.task == 0 {
            RawResult::Body(
                "{\"success\":false,\"responseCode\":\"2040\",\"responseMsg\":\"已领完\"}".to_string(),
            )
        } else if w.attempts >= 3 {
            RawResult::Body("{\"success\":true,\"responseMsg\":\"ok\"}".to_string())
        } else {
            RawResult::TransportError("timeout".to_string())
        }
    };
    run_to_end(&mut d, &mut reporter, &transport);
    assert_eq!(d.result(0), Some(ClaimOutcome::AlreadyClaimed("已领完".to_string())));
    assert_eq!(d.result(1), Some(ClaimOutcome::Success("ok".to_string())));
    assert_eq!(reporter.len(), 2);
    assert_eq!(reporter.take(), Some("g(a)抢票失败：已领完".to_string()));
    assert_eq!(reporter.take(), Some("g(b): ok".to_string()));
}

#[test]
fn plan_lists_tasks_of_active_games_and_selected_categories() {
    let games = vec![
        game("三国杀", true, "14", vec![zone("每日专区", &["1", "2"]), zone("每周专区", &["3"])]),
        game("王者荣耀", false, "7", vec![zone("每日专区", &["9"])]),
        game("火影忍者", true, "10", vec![zone("每日专区", &["5"])]),
    ];
    let plan = plan_dispatch(&games, &categories(), &vec![3, 2], 5, 2000);
    let got: Vec<(String, String, String, String)> = plan
        .tasks
        .iter()
        .map(|t| {
            (
                t.game.clone(),
                t.target.community_id.clone(),
                t.target.zone.clone(),
                t.target.task_id.clone(),
            )
        })
        .collect();
    let s = |a: &str, b: &str, c: &str, d: &str| {
        (a.to_string(), b.to_string(), c.to_string(), d.to_string())
    };
    assert_eq!(
        got,
        vec![
            s("三国杀", "14", "每日专区", "1"),
            s("三国杀", "14", "每日专区", "2"),
            s("三国杀", "14", "每周专区", "3"),
            s("火影忍者", "10", "每日专区", "5"),
        ]
    );
    assert!(plan.tasks.iter().all(|t| t.fan_out == 5 && t.deadline_ms == 2000));
    assert_eq!(plan.unavailable, vec![("火影忍者".to_string(), "每周专区".to_string())]);
}

#[test]
fn zone_without_tasks_is_unavailable() {
    let g = game("三国杀", true, "14", vec![zone("每日专区", &[])]);
    let plan = plan_selection(&g, &categories(), 3, 5, 0);
    assert!(plan.tasks.is_empty());
    assert_eq!(plan.unavailable, vec![("三国杀".to_string(), "每日专区".to_string())]);
    let plan = plan_selection(&g, &categories(), 0, 5, 0);
    assert_eq!(plan.unavailable, vec![("三国杀".to_string(), "置顶专区".to_string())]);
    assert_eq!(
        Notice::Unavailable { game: "三国杀".to_string(), zone: "置顶专区".to_string() }.text(),
        "三国杀(置顶专区): 暂无可抢的任务"
    );
}

#[test]
fn selection_past_the_categories_is_passed_over() {
    let g = game("三国杀", true, "14", vec![zone("每日专区", &["1"])]);
    let plan = plan_selection(&g, &categories(), 4, 5, 0);
    assert_eq!(plan, DispatchPlan::new());
    let plan = plan_game(&g, &categories(), &vec![7, 3, 9], 2, 0);
    assert_eq!(plan.tasks.len(), 1);
    assert!(plan.unavailable.is_empty());
}

#[test]
fn first_zone_record_counts() {
    let g = game("g", true, "1", vec![zone("a", &["1"]), zone("b", &["2"]), zone("a", &["3"])]);
    assert_eq!(zone_index(&g, &"a".to_string()), Some(0));
    assert_eq!(zone_index(&g, &"b".to_string()), Some(1));
    assert_eq!(zone_index(&g, &"c".to_string()), None);
}

#[test]
fn no_active_game_gives_an_empty_plan() {
    let games = vec![game("三国杀", false, "14", vec![zone("每日专区", &["1"])])];
    let plan = plan_dispatch(&games, &categories(), &vec![3], 5, 0);
    assert!(plan.tasks.is_empty());
    assert!(plan.unavailable.is_empty());
    assert!(matches!(Dispatcher::start(plan.tasks), Err(ErrorKind::NothingToDo)));
}

#[test]
fn plans_are_joined_in_order() {
    let mut a = DispatchPlan::new();
    a.tasks.push(task("g", "z", "1", 1, 0));
    let mut b = DispatchPlan::new();
    b.tasks.push(task("g", "z", "2", 1, 0));
    b.unavailable.push(("g".to_string(), "y".to_string()));
    a.extend(b);
    assert_eq!(a.tasks.len(), 2);
    assert_eq!(a.tasks[1].target.task_id, "2");
    assert_eq!(a.unavailable.len(), 1);
}
