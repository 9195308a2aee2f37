//! From the configured games, the ticket categories and the user's selection
//! to the list of claim tasks of one dispatch.

use vstd::prelude::*;

verus! {

/// One thing to claim: the community it belongs to, the zone (the ticket
/// category's name) and the task's identifier.
#[derive(Debug, PartialEq, Eq)]
pub struct ClaimTarget {
    pub community_id: String,
    pub zone: String,
    pub task_id: String,
}

/// The mathematical content of a [`ClaimTarget`].
pub ghost struct ClaimTargetView {
    pub community_id: Seq<char>,
    pub zone: Seq<char>,
    pub task_id: Seq<char>,
}

impl View for ClaimTarget {
    type V = ClaimTargetView;

    open spec fn view(&self) -> ClaimTargetView {
        ClaimTargetView {
            community_id: self.community_id@,
            zone: self.zone@,
            task_id: self.task_id@,
        }
    }
}

impl Clone for ClaimTarget {
    fn clone(&self) -> (r: Self)
        ensures
            r@ == self@,
    {
        ClaimTarget {
            community_id: self.community_id.clone(),
            zone: self.zone.clone(),
            task_id: self.task_id.clone(),
        }
    }
}

/// The unit of work of a dispatch: a target, the game it is shown under, the
/// number of concurrent attempt-slots that race for it and their shared
/// deadline.
#[derive(Debug, PartialEq, Eq)]
pub struct ClaimTask {
    pub target: ClaimTarget,
    pub game: String,
    pub fan_out: usize,
    pub deadline_ms: i64,
}

/// The mathematical content of a [`ClaimTask`].
pub ghost struct ClaimTaskView {
    pub target: ClaimTargetView,
    pub game: Seq<char>,
    pub fan_out: usize,
    pub deadline_ms: i64,
}

impl View for ClaimTask {
    type V = ClaimTaskView;

    open spec fn view(&self) -> ClaimTaskView {
        ClaimTaskView {
            target: self.target@,
            game: self.game@,
            fan_out: self.fan_out,
            deadline_ms: self.deadline_ms,
        }
    }
}

impl Clone for ClaimTask {
    fn clone(&self) -> (r: Self)
        ensures
            r@ == self@,
    {
        ClaimTask {
            target: self.target.clone(),
            game: self.game.clone(),
            fan_out: self.fan_out,
            deadline_ms: self.deadline_ms,
        }
    }
}

/// The views of a sequence of tasks.
pub open spec fn tasks_view(tasks: Seq<ClaimTask>) -> Seq<ClaimTaskView> {
    tasks.map_values(|t: ClaimTask| t@)
}

/// A ticket category: the zone's label and the task identifiers that the
/// service lists under it.
#[derive(Debug, PartialEq, Eq)]
pub struct TicketCategory {
    pub name: String,
    pub task_ids: Vec<i64>,
}

/// The task identifiers that a game has on record for one zone.
#[derive(Debug, PartialEq, Eq)]
pub struct ZoneTasks {
    pub zone: String,
    pub task_ids: Vec<String>,
}

/// The mathematical content of a [`ZoneTasks`].
pub ghost struct ZoneTasksView {
    pub zone: Seq<char>,
    pub task_ids: Seq<Seq<char>>,
}

impl View for ZoneTasks {
    type V = ZoneTasksView;

    open spec fn view(&self) -> ZoneTasksView {
        ZoneTasksView { zone: self.zone@, task_ids: self.task_ids@.map_values(|s: String| s@) }
    }
}

/// One configured game: whether the user takes part in it, its community,
/// its task identifiers by zone, and the amounts that are stored with it
/// under other names. Where a zone occurs twice, the first entry counts.
#[derive(Debug, PartialEq, Eq)]
pub struct GameConfig {
    pub name: String,
    pub active: bool,
    pub community_id: String,
    pub red_pack_tasks: Vec<ZoneTasks>,
    /// The game's other stored members, each a name and a number.
    pub amounts: Vec<(String, u32)>,
}

/// The mathematical content of a [`GameConfig`].
pub ghost struct GameConfigView {
    pub name: Seq<char>,
    pub active: bool,
    pub community_id: Seq<char>,
    pub red_pack_tasks: Seq<ZoneTasksView>,
    pub amounts: Seq<(Seq<char>, u32)>,
}

impl View for GameConfig {
    type V = GameConfigView;

    open spec fn view(&self) -> GameConfigView {
        GameConfigView {
            name: self.name@,
            active: self.active,
            community_id: self.community_id@,
            red_pack_tasks: zones_view(self.red_pack_tasks@),
            amounts: self.amounts@.map_values(|a: (String, u32)| (a.0@, a.1)),
        }
    }
}

/// The views of a sequence of zone records.
pub open spec fn zones_view(zones: Seq<ZoneTasks>) -> Seq<ZoneTasksView> {
    zones.map_values(|z: ZoneTasks| z@)
}

/// The views of a sequence of games.
pub open spec fn games_view(games: Seq<GameConfig>) -> Seq<GameConfigView> {
    games.map_values(|g: GameConfig| g@)
}

/// The names of a sequence of categories.
pub open spec fn category_names(categories: Seq<TicketCategory>) -> Seq<Seq<char>> {
    categories.map_values(|c: TicketCategory| c.name@)
}

/// The index of the first entry at or after `from` that is for the zone
/// `name`.
pub open spec fn find_zone(zones: Seq<ZoneTasksView>, name: Seq<char>, from: int) -> Option<int>
    decreases zones.len() - from,
{
    if from < 0 || from >= zones.len() {
        None
    } else if zones[from].zone == name {
        Some(from)
    } else {
        find_zone(zones, name, from + 1)
    }
}

/// The tasks of one zone of one game, one for each identifier on record, in
/// the record's order.
pub open spec fn zone_claims(
    game: GameConfigView,
    zone: ZoneTasksView,
    fan_out: usize,
    deadline_ms: i64,
) -> Seq<ClaimTaskView> {
    Seq::new(
        zone.task_ids.len(),
        |k: int|
            ClaimTaskView {
                target: ClaimTargetView {
                    community_id: game.community_id,
                    zone: zone.zone,
                    task_id: zone.task_ids[k],
                },
                game: game.name,
                fan_out,
                deadline_ms,
            },
    )
}

/// What a dispatch will work on: its tasks, and the (game, zone) pairs that
/// were selected but have no task on record.
#[derive(Debug, PartialEq, Eq)]
pub struct DispatchPlan {
    pub tasks: Vec<ClaimTask>,
    pub unavailable: Vec<(String, String)>,
}

/// The mathematical content of a [`DispatchPlan`].
#[verifier::ext_equal]
pub ghost struct DispatchPlanView {
    pub tasks: Seq<ClaimTaskView>,
    pub unavailable: Seq<(Seq<char>, Seq<char>)>,
}

impl View for DispatchPlan {
    type V = DispatchPlanView;

    open spec fn view(&self) -> DispatchPlanView {
        DispatchPlanView {
            tasks: tasks_view(self.tasks@),
            unavailable: self.unavailable@.map_values(|p: (String, String)| (p.0@, p.1@)),
        }
    }
}

impl DispatchPlanView {
    /// The plan without tasks.
    pub open spec fn empty() -> DispatchPlanView {
        DispatchPlanView { tasks: Seq::empty(), unavailable: Seq::empty() }
    }

    /// This plan followed by another.
    pub open spec fn followed_by(self, other: DispatchPlanView) -> DispatchPlanView {
        DispatchPlanView {
            tasks: self.tasks + other.tasks,
            unavailable: self.unavailable + other.unavailable,
        }
    }
}

/// What one selected category contributes for one game: nothing where the
/// selection points at no category; the zone's tasks where the game has some
/// on record; else the pair as unavailable.
pub open spec fn selection_plan(
    game: GameConfigView,
    names: Seq<Seq<char>>,
    index: usize,
    fan_out: usize,
    deadline_ms: i64,
) -> DispatchPlanView {
    if index >= names.len() {
        DispatchPlanView::empty()
    } else {
        match find_zone(game.red_pack_tasks, names[index as int], 0) {
            Some(z) if game.red_pack_tasks[z].task_ids.len() > 0 => DispatchPlanView {
                tasks: zone_claims(game, game.red_pack_tasks[z], fan_out, deadline_ms),
                unavailable: Seq::empty(),
            },
            _ => DispatchPlanView {
                tasks: Seq::empty(),
                unavailable: seq![(game.name, names[index as int])],
            },
        }
    }
}

/// What the selected categories contribute for one game, in the order of the
/// selection.
pub open spec fn game_plan(
    game: GameConfigView,
    names: Seq<Seq<char>>,
    selected: Seq<usize>,
    fan_out: usize,
    deadline_ms: i64,
) -> DispatchPlanView
    decreases selected.len(),
{
    if selected.len() == 0 {
        DispatchPlanView::empty()
    } else {
        game_plan(game, names, selected.drop_last(), fan_out, deadline_ms).followed_by(
            selection_plan(game, names, selected.last(), fan_out, deadline_ms),
        )
    }
}

/// The plan of a dispatch: the active games in their order, and for each the
/// selected categories in the order of the selection.
pub open spec fn dispatch_plan(
    games: Seq<GameConfigView>,
    names: Seq<Seq<char>>,
    selected: Seq<usize>,
    fan_out: usize,
    deadline_ms: i64,
) -> DispatchPlanView
    decreases games.len(),
{
    if games.len() == 0 {
        DispatchPlanView::empty()
    } else {
        let before = dispatch_plan(games.drop_last(), names, selected, fan_out, deadline_ms);
        if games.last().active {
            before.followed_by(game_plan(games.last(), names, selected, fan_out, deadline_ms))
        } else {
            before
        }
    }
}

/// No selection vanishes: a selected category that there is contributes, for
/// each game, at least one task or else the notice that none is on record.
pub proof fn lemma_no_selection_vanishes(
    game: GameConfigView,
    names: Seq<Seq<char>>,
    index: usize,
    fan_out: usize,
    deadline_ms: i64,
)
    requires
        index < names.len(),
    ensures
        selection_plan(game, names, index, fan_out, deadline_ms).tasks.len() >= 1
            || selection_plan(game, names, index, fan_out, deadline_ms).unavailable == seq![
            (game.name, names[index as int]),
        ],
        selection_plan(game, names, index, fan_out, deadline_ms).tasks.len() >= 1
            ==> selection_plan(game, names, index, fan_out, deadline_ms).unavailable.len() == 0,
{
}

/// Looks up the first record for the zone `name`.
pub fn zone_position(zones: &Vec<ZoneTasks>, name: &String) -> (r: Option<usize>)
    ensures
        r matches Some(z) ==> find_zone(zones_view(zones@), name@, 0) == Some(z as int) && z
            < zones.len(),
        r is None ==> find_zone(zones_view(zones@), name@, 0) is None,
{
    let mut i: usize = 0;
    while i < zones.len()
        invariant
            i <= zones.len(),
            find_zone(zones_view(zones@), name@, 0) == find_zone(
                zones_view(zones@),
                name@,
                i as int,
            ),
        decreases zones.len() - i,
    {
        if zones[i].zone == *name {
            return Some(i);
        }
        i = i + 1;
    }
    None
}

/// Looks up the first record of a game for the zone `name`.
pub fn zone_index(game: &GameConfig, name: &String) -> (r: Option<usize>)
    ensures
        r matches Some(z) ==> find_zone(game@.red_pack_tasks, name@, 0) == Some(z as int) && z
            < game.red_pack_tasks.len(),
        r is None ==> find_zone(game@.red_pack_tasks, name@, 0) is None,
{
    zone_position(&game.red_pack_tasks, name)
}

/// The tasks of one zone of one game.
pub fn claims_of_zone(game: &GameConfig, zone: &ZoneTasks, fan_out: usize, deadline_ms: i64) -> (tasks:
    Vec<ClaimTask>)
    ensures
        tasks_view(tasks@) == zone_claims(game@, zone@, fan_out, deadline_ms),
{
    let mut tasks: Vec<ClaimTask> = Vec::new();
    let mut k: usize = 0;
    while k < zone.task_ids.len()
        invariant
            k <= zone.task_ids.len(),
            tasks_view(tasks@) == zone_claims(game@, zone@, fan_out, deadline_ms).subrange(
                0,
                k as int,
            ),
        decreases zone.task_ids.len() - k,
    {
        let task = ClaimTask {
            target: ClaimTarget {
                community_id: game.community_id.clone(),
                zone: zone.zone.clone(),
                task_id: zone.task_ids[k].clone(),
            },
            game: game.name.clone(),
            fan_out,
            deadline_ms,
        };
        let ghost before = tasks@;
        tasks.push(task);
        assert(tasks_view(tasks@) =~= tasks_view(before).push(task@));
        k = k + 1;
    }
    tasks
}

/// What one selected category contributes for one game.
pub fn plan_selection(
    game: &GameConfig,
    categories: &Vec<TicketCategory>,
    index: usize,
    fan_out: usize,
    deadline_ms: i64,
) -> (plan: DispatchPlan)
    ensures
        plan@ == selection_plan(game@, category_names(categories@), index, fan_out, deadline_ms),
{
    if index >= categories.len() {
        let plan = DispatchPlan { tasks: Vec::new(), unavailable: Vec::new() };
        assert(plan@ =~= DispatchPlanView::empty());
        return plan;
    }
    let name = &categories[index].name;
    match zone_index(game, name) {
        Some(z) if game.red_pack_tasks[z].task_ids.len() > 0 => {
            let tasks = claims_of_zone(game, &game.red_pack_tasks[z], fan_out, deadline_ms);
            let plan = DispatchPlan { tasks, unavailable: Vec::new() };
            assert(plan@.unavailable =~= Seq::empty());
            plan
        },
        _ => {
            let mut unavailable: Vec<(String, String)> = Vec::new();
            unavailable.push((game.name.clone(), name.clone()));
            let plan = DispatchPlan { tasks: Vec::new(), unavailable };
            assert(plan@.tasks =~= Seq::empty());
            assert(plan@.unavailable =~= seq![(game@.name, name@)]);
            plan
        },
    }
}

impl DispatchPlan {
    /// The plan without tasks.
    pub fn new() -> (plan: Self)
        ensures
            plan@ == DispatchPlanView::empty(),
    {
        let plan = DispatchPlan { tasks: Vec::new(), unavailable: Vec::new() };
        assert(plan@ =~= DispatchPlanView::empty());
        plan
    }

    /// Moves everything of `other` behind what this plan holds.
    pub fn extend(&mut self, other: DispatchPlan)
        ensures
            final(self)@ == old(self)@.followed_by(other@),
    {
        let ghost added = other@;
        let mut other = other;
        self.tasks.append(&mut other.tasks);
        self.unavailable.append(&mut other.unavailable);
        assert(self@.tasks =~= old(self)@.tasks + added.tasks);
        assert(self@.unavailable =~= old(self)@.unavailable + added.unavailable);
    }
}

/// What the selected categories contribute for one game.
pub fn plan_game(
    game: &GameConfig,
    categories: &Vec<TicketCategory>,
    selected: &Vec<usize>,
    fan_out: usize,
    deadline_ms: i64,
) -> (plan: DispatchPlan)
    ensures
        plan@ == game_plan(game@, category_names(categories@), selected@, fan_out, deadline_ms),
{
    let mut plan = DispatchPlan::new();
    let mut i: usize = 0;
    while i < selected.len()
        invariant
            i <= selected.len(),
            plan@ == game_plan(
                game@,
                category_names(categories@),
                selected@.subrange(0, i as int),
                fan_out,
                deadline_ms,
            ),
        decreases selected.len() - i,
    {
        let part = plan_selection(game, categories, selected[i], fan_out, deadline_ms);
        plan.extend(part);
        assert(selected@.subrange(0, i + 1).drop_last() =~= selected@.subrange(0, i as int));
        i = i + 1;
    }
    assert(selected@.subrange(0, i as int) =~= selected@);
    plan
}

/// Whether a game at or after `from` is active.
pub open spec fn some_active(games: Seq<GameConfigView>, from: int) -> bool
    decreases games.len() - from,
{
    if from < 0 || from >= games.len() {
        false
    } else if games[from].active {
        true
    } else {
        some_active(games, from + 1)
    }
}

/// Whether any game is active.
pub fn any_active(games: &Vec<GameConfig>) -> (b: bool)
    ensures
        b == some_active(games_view(games@), 0),
{
    let mut i: usize = 0;
    while i < games.len()
        invariant
            i <= games.len(),
            some_active(games_view(games@), 0) == some_active(games_view(games@), i as int),
        decreases games.len() - i,
    {
        if games[i].active {
            return true;
        }
        i = i + 1;
    }
    false
}

/// Builds the plan of a dispatch from the configured games, the categories
/// and the indices of the selected categories. Inactive games contribute
/// nothing, and so does a selected index that points at no category.
pub fn plan_dispatch(
    games: &Vec<GameConfig>,
    categories: &Vec<TicketCategory>,
    selected: &Vec<usize>,
    fan_out: usize,
    deadline_ms: i64,
) -> (plan: DispatchPlan)
    ensures
        plan@ == dispatch_plan(
            games_view(games@),
            category_names(categories@),
            selected@,
            fan_out,
            deadline_ms,
        ),
{
    let mut plan = DispatchPlan::new();
    let mut g: usize = 0;
    while g < games.len()
        invariant
            g <= games.len(),
            plan@ == dispatch_plan(
                games_view(games@).subrange(0, g as int),
                category_names(categories@),
                selected@,
                fan_out,
                deadline_ms,
            ),
        decreases games.len() - g,
    {
        assert(games_view(games@).subrange(0, g + 1).drop_last() =~= games_view(games@).subrange(
            0,
            g as int,
        ));
        if games[g].active {
            let part = plan_game(&games[g], categories, selected, fan_out, deadline_ms);
            plan.extend(part);
        }
        g = g + 1;
    }
    assert(games_view(games@).subrange(0, g as int) =~= games_view(games@));
    plan
}

} // verus!
