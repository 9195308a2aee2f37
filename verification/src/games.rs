//! The configured games: what is known of each, what a zone summary adds,
//! and how a choice of the settings page is merged into the stored
//! configuration.

use crate::plan::{
    find_zone, games_view, zone_position, zones_view, GameConfig, GameConfigView, ZoneTasks,
    ZoneTasksView,
};
use crate::scan::{pieces_view, split, split_first, split_on, split_once};
use crate::text::{chars_of, text_of};
use crate::token::{same_text, texts_view};
use vstd::prelude::*;
use vstd::string::StringExecFns;

verus! {

/// The community of a game: 14 for an unknown one.
pub open spec fn community_of(game: Seq<char>) -> Seq<char> {
    if game == "三国杀"@ {
        "14"@
    } else if game == "王者荣耀"@ {
        "7"@
    } else if game == "火影忍者"@ {
        "10"@
    } else {
        "14"@
    }
}

/// The games that the settings page offers.
pub open spec fn offered_games() -> Seq<Seq<char>> {
    seq!["三国杀"@, "王者荣耀"@, "火影忍者"@]
}

/// The pieces that are not empty, in order.
pub open spec fn nonempty(pieces: Seq<Seq<char>>) -> Seq<Seq<char>>
    decreases pieces.len(),
{
    if pieces.len() == 0 {
        Seq::empty()
    } else if pieces.last().len() == 0 {
        nonempty(pieces.drop_last())
    } else {
        nonempty(pieces.drop_last()).push(pieces.last())
    }
}

/// The zone record that one piece of a summary gives: the name before its
/// first colon, and the identifiers after it, cut at commas, without the
/// empty ones.
pub open spec fn zone_entry(piece: Seq<char>) -> Option<ZoneTasksView> {
    match split_once(piece, ':') {
        Some((name, ids)) => Some(ZoneTasksView { zone: name, task_ids: nonempty(split(ids, ',')) }),
        None => None,
    }
}

/// The records after one more was taken in: it replaces the first record of
/// its zone, or is added at the end.
pub open spec fn recorded(zones: Seq<ZoneTasksView>, entry: ZoneTasksView) -> Seq<ZoneTasksView> {
    match find_zone(zones, entry.zone, 0) {
        Some(i) => zones.update(i, entry),
        None => zones.push(entry),
    }
}

/// The zone records that the pieces of a summary give.
pub open spec fn zones_in(pieces: Seq<Seq<char>>) -> Seq<ZoneTasksView>
    decreases pieces.len(),
{
    if pieces.len() == 0 {
        Seq::empty()
    } else {
        let before = zones_in(pieces.drop_last());
        match zone_entry(pieces.last()) {
            Some(e) => recorded(before, e),
            None => before,
        }
    }
}

/// The zone records that a summary gives: one for each zone it names, a
/// later piece for the same zone replacing an earlier one.
pub open spec fn summary_zones(summary: Seq<char>) -> Seq<ZoneTasksView> {
    zones_in(split(summary, ';'))
}

/// The index of the first game at or after `from` with the given name.
pub open spec fn find_game(games: Seq<GameConfigView>, name: Seq<char>, from: int) -> Option<int>
    decreases games.len() - from,
{
    if from < 0 || from >= games.len() {
        None
    } else if games[from].name == name {
        Some(from)
    } else {
        find_game(games, name, from + 1)
    }
}

/// The stored games after a choice was merged in: a game that is stored
/// becomes active or not, and gets the fetched zone records unless there are
/// none, while its name, its community and its amounts stay; a game that is
/// not stored is added with its community and without amounts. No other
/// game changes.
pub open spec fn merged(
    games: Seq<GameConfigView>,
    name: Seq<char>,
    active: bool,
    fetched: Seq<ZoneTasksView>,
) -> Seq<GameConfigView> {
    match find_game(games, name, 0) {
        Some(i) => games.update(
            i,
            GameConfigView {
                active,
                red_pack_tasks: if fetched.len() > 0 {
                    fetched
                } else {
                    games[i].red_pack_tasks
                },
                ..games[i]
            },
        ),
        None => games.push(
            GameConfigView {
                name,
                active,
                community_id: community_of(name),
                red_pack_tasks: fetched,
                amounts: Seq::empty(),
            },
        ),
    }
}

/// Where a search for a game ends: on a game of that name, or nowhere if
/// there is none from `from` on.
pub proof fn lemma_find_game(games: Seq<GameConfigView>, name: Seq<char>, from: int)
    requires
        0 <= from,
    ensures
        find_game(games, name, from) matches Some(i) ==> from <= i < games.len() && games[i].name
            == name,
        find_game(games, name, from) is None ==> forall|j: int|
            from <= j < games.len() ==> (#[trigger] games[j]).name != name,
    decreases games.len() - from,
{
    if from < games.len() && games[from].name != name {
        lemma_find_game(games, name, from + 1);
    }
}

/// A merge keeps what it is not about: every stored game is still there, in
/// its place and with its name, its community and its amounts, and a game of
/// another name is as it was.
pub proof fn lemma_merge_keeps(
    games: Seq<GameConfigView>,
    name: Seq<char>,
    active: bool,
    fetched: Seq<ZoneTasksView>,
)
    ensures
        merged(games, name, active, fetched).len() >= games.len(),
        forall|j: int|
            0 <= j < games.len() ==> {
                let after = #[trigger] merged(games, name, active, fetched)[j];
                &&& after.name == games[j].name
                &&& after.community_id == games[j].community_id
                &&& after.amounts == games[j].amounts
                &&& games[j].name != name ==> after == games[j]
            },
{
    lemma_find_game(games, name, 0);
}

/// The community of a game.
pub fn community_id_of(game: &str) -> (id: String)
    ensures
        id@ == community_of(game@),
{
    if same_text(game, "三国杀") {
        String::from_str("14")
    } else if same_text(game, "王者荣耀") {
        String::from_str("7")
    } else if same_text(game, "火影忍者") {
        String::from_str("10")
    } else {
        String::from_str("14")
    }
}

/// The games that the settings page offers.
pub fn default_games() -> (games: Vec<String>)
    ensures
        texts_view(games@) == offered_games(),
{
    let mut games: Vec<String> = Vec::new();
    games.push(String::from_str("三国杀"));
    games.push(String::from_str("王者荣耀"));
    games.push(String::from_str("火影忍者"));
    assert(texts_view(games@) =~= offered_games());
    games
}

fn nonempty_texts(pieces: &Vec<Vec<char>>) -> (r: Vec<String>)
    ensures
        texts_view(r@) == nonempty(pieces_view(pieces@)),
{
    let mut r: Vec<String> = Vec::new();
    let mut i: usize = 0;
    while i < pieces.len()
        invariant
            i <= pieces.len(),
            texts_view(r@) == nonempty(pieces_view(pieces@).subrange(0, i as int)),
        decreases pieces.len() - i,
    {
        let ghost p = pieces_view(pieces@);
        assert(p.subrange(0, i + 1).drop_last() =~= p.subrange(0, i as int));
        assert(p.subrange(0, i + 1).last() == pieces@[i as int]@);
        if pieces[i].len() > 0 {
            let t = text_of(&pieces[i], 0, pieces[i].len());
            assert(t@ =~= pieces@[i as int]@);
            let ghost before = r@;
            r.push(t);
            assert(texts_view(r@) =~= texts_view(before).push(t@));
        }
        i = i + 1;
    }
    assert(pieces_view(pieces@).subrange(0, i as int) =~= pieces_view(pieces@));
    r
}

fn entry_of(piece: &Vec<char>) -> (r: Option<ZoneTasks>)
    ensures
        match r {
            Some(e) => Some(e@),
            None => None,
        } == zone_entry(piece@),
{
    match split_first(piece, ':') {
        Some((name, ids)) => {
            let task_ids = nonempty_texts(&split_on(&ids, ','));
            let zone = text_of(&name, 0, name.len());
            assert(zone@ =~= name@);
            let e = ZoneTasks { zone, task_ids };
            assert(e@.task_ids =~= texts_view(task_ids@));
            Some(e)
        },
        None => None,
    }
}

/// Takes one more record into zone records: it replaces the first record
/// of its zone, or is added at the end.
pub fn record_zone(zones: &mut Vec<ZoneTasks>, entry: ZoneTasks)
    ensures
        zones_view(final(zones)@) == recorded(zones_view(old(zones)@), entry@),
{
    match zone_position(zones, &entry.zone) {
        Some(i) => {
            zones.set(i, entry);
            assert(zones_view(zones@) =~= zones_view(old(zones)@).update(i as int, entry@));
        },
        None => {
            zones.push(entry);
            assert(zones_view(zones@) =~= zones_view(old(zones)@).push(entry@));
        },
    }
}

/// Reads the zone records that a summary gives.
pub fn parse_zone_tasks(summary: &str) -> (zones: Vec<ZoneTasks>)
    ensures
        zones_view(zones@) == summary_zones(summary@),
{
    let chars = chars_of(summary);
    let pieces = split_on(&chars, ';');
    let mut zones: Vec<ZoneTasks> = Vec::new();
    assert(zones_view(zones@) =~= Seq::<ZoneTasksView>::empty());
    let mut i: usize = 0;
    while i < pieces.len()
        invariant
            i <= pieces.len(),
            pieces_view(pieces@) == split(summary@, ';'),
            zones_view(zones@) == zones_in(pieces_view(pieces@).subrange(0, i as int)),
        decreases pieces.len() - i,
    {
        let ghost p = pieces_view(pieces@);
        assert(p.subrange(0, i + 1).drop_last() =~= p.subrange(0, i as int));
        assert(p.subrange(0, i + 1).last() == pieces@[i as int]@);
        match entry_of(&pieces[i]) {
            Some(e) => {
                record_zone(&mut zones, e);
            },
            None => {},
        }
        i = i + 1;
    }
    assert(pieces_view(pieces@).subrange(0, i as int) =~= pieces_view(pieces@));
    zones
}

/// Looks up the first stored game with the given name.
pub fn game_position(games: &Vec<GameConfig>, name: &str) -> (r: Option<usize>)
    ensures
        match r {
            Some(i) => Some(i as int),
            None => None,
        } == find_game(games_view(games@), name@, 0),
        r matches Some(i) ==> i < games.len(),
{
    let mut i: usize = 0;
    while i < games.len()
        invariant
            i <= games.len(),
            find_game(games_view(games@), name@, 0) == find_game(
                games_view(games@),
                name@,
                i as int,
            ),
        decreases games.len() - i,
    {
        if same_text(games[i].name.as_str(), name) {
            return Some(i);
        }
        i = i + 1;
    }
    None
}

/// Merges a choice of the settings page into the stored games: the game
/// becomes active or not and gets the zone records that were fetched for
/// it, unless there are none; a game that is not stored yet is added with
/// its community.
pub fn merge_game(games: &mut Vec<GameConfig>, name: &str, active: bool, fetched: Vec<ZoneTasks>)
    ensures
        games_view(final(games)@) == merged(
            games_view(old(games)@),
            name@,
            active,
            zones_view(fetched@),
        ),
{
    match game_position(games, name) {
        Some(i) => {
            let stored = games.remove(i);
            let red_pack_tasks = if fetched.len() > 0 {
                fetched
            } else {
                stored.red_pack_tasks
            };
            let changed = GameConfig {
                name: stored.name,
                active,
                community_id: stored.community_id,
                red_pack_tasks,
                amounts: stored.amounts,
            };
            games.insert(i, changed);
            assert(games_view(games@) =~= games_view(old(games)@).update(i as int, changed@));
        },
        None => {
            let added = GameConfig {
                name: String::from_str(name),
                active,
                community_id: community_id_of(name),
                red_pack_tasks: fetched,
                amounts: Vec::new(),
            };
            assert(added@.amounts =~= Seq::<(Seq<char>, u32)>::empty());
            games.push(added);
            assert(games_view(games@) =~= games_view(old(games)@).push(added@));
        },
    }
}

} // verus!
