//! The settings page: the list of settings, the pop-up over it with the
//! games or the accounts, and what each key does to them.

use crate::games::{
    default_games, find_game, game_position, lemma_merge_keeps, merge_game, merged,
    offered_games, parse_zone_tasks, summary_zones,
};
use crate::keys::Key;
use crate::plan::{games_view, zones_view, GameConfig, GameConfigView, ZoneTasks, ZoneTasksView};
use crate::token::texts_view;
use vstd::prelude::*;
use vstd::string::StringExecFns;

verus! {

/// The state of the settings page.
#[derive(Debug, PartialEq, Eq)]
pub struct SettingState {
    /// The setting under the cursor: 0 the games, 1 the accounts, 2 the
    /// author.
    pub setting_index: usize,
    /// Whether the pop-up is open.
    pub show_prop: bool,
    /// For each game whether it is chosen.
    pub game_selections: Vec<bool>,
    /// The line of the pop-up under the cursor.
    pub popup_index: usize,
    pub games: Vec<String>,
    /// The accounts, as listed.
    pub accounts: Vec<String>,
}

/// The mathematical content of a [`SettingState`].
#[verifier::ext_equal]
pub ghost struct SettingView {
    pub setting_index: usize,
    pub show_prop: bool,
    pub game_selections: Seq<bool>,
    pub popup_index: usize,
    pub games: Seq<Seq<char>>,
    pub accounts: Seq<Seq<char>>,
}

impl View for SettingState {
    type V = SettingView;

    open spec fn view(&self) -> SettingView {
        SettingView {
            setting_index: self.setting_index,
            show_prop: self.show_prop,
            game_selections: self.game_selections@,
            popup_index: self.popup_index,
            games: texts_view(self.games@),
            accounts: texts_view(self.accounts@),
        }
    }
}

/// What the caller of the settings page does after a key.
#[derive(Debug, PartialEq, Eq)]
pub enum SettingAction {
    /// Nothing.
    Stay,
    /// Go back to the main page.
    LeavePage,
    /// Store the games and their choices; the game named was just changed.
    SaveGames { game: String },
    /// Change the stored account at this index between active and not.
    ToggleAccount(usize),
    /// Read the stored games and hand them to `load_settings`.
    LoadSettings,
}

/// The mathematical content of a [`SettingAction`].
pub ghost enum SettingActionView {
    Stay,
    LeavePage,
    SaveGames { game: Seq<char> },
    ToggleAccount(usize),
    LoadSettings,
}

impl View for SettingAction {
    type V = SettingActionView;

    open spec fn view(&self) -> SettingActionView {
        match self {
            SettingAction::Stay => SettingActionView::Stay,
            SettingAction::LeavePage => SettingActionView::LeavePage,
            SettingAction::SaveGames { game } => SettingActionView::SaveGames { game: game@ },
            SettingAction::ToggleAccount(i) => SettingActionView::ToggleAccount(*i),
            SettingAction::LoadSettings => SettingActionView::LoadSettings,
        }
    }
}

/// For each game whether the stored configuration has it active; a game that
/// is not stored is not chosen.
pub open spec fn stored_selections(games: Seq<Seq<char>>, stored: Seq<GameConfigView>) -> Seq<
    bool,
> {
    Seq::new(
        games.len(),
        |i: int|
            match find_game(stored, games[i], 0) {
                Some(j) => stored[j].active,
                None => false,
            },
    )
}

/// The choices that go with the games when the stored configuration is
/// taken in; none is chosen where it could not be read.
pub open spec fn loaded_selections(games: Seq<Seq<char>>, stored: Option<Seq<GameConfigView>>)
    -> Seq<bool> {
    match stored {
        Some(s) => stored_selections(games, s),
        None => Seq::new(games.len(), |i: int| false),
    }
}

/// The view of an optional stored configuration.
pub open spec fn stored_view(stored: Option<&Vec<GameConfig>>) -> Option<Seq<GameConfigView>> {
    match stored {
        Some(s) => Some(games_view(s@)),
        None => None,
    }
}

/// The length of the list that the pop-up shows.
pub open spec fn popup_len(s: SettingView) -> nat {
    if s.setting_index == 0 {
        s.games.len()
    } else if s.setting_index == 1 {
        s.accounts.len()
    } else {
        0
    }
}

/// The page after a key, and what its caller does.
pub open spec fn setting_key(s: SettingView, key: Key) -> (SettingView, SettingActionView) {
    match key {
        Key::Esc => if s.show_prop {
            (SettingView { show_prop: false, ..s }, SettingActionView::Stay)
        } else {
            (s, SettingActionView::LeavePage)
        },
        Key::Up => if s.show_prop {
            if popup_len(s) > 0 && s.popup_index > 0 {
                (
                    SettingView { popup_index: (s.popup_index - 1) as usize, ..s },
                    SettingActionView::Stay,
                )
            } else {
                (s, SettingActionView::Stay)
            }
        } else if s.setting_index > 0 {
            (
                SettingView { setting_index: (s.setting_index - 1) as usize, ..s },
                SettingActionView::Stay,
            )
        } else {
            (s, SettingActionView::Stay)
        },
        Key::Down => if s.show_prop {
            if popup_len(s) > 0 && s.popup_index < popup_len(s) - 1 {
                (
                    SettingView { popup_index: (s.popup_index + 1) as usize, ..s },
                    SettingActionView::Stay,
                )
            } else {
                (s, SettingActionView::Stay)
            }
        } else if s.setting_index < 2 {
            (
                SettingView { setting_index: (s.setting_index + 1) as usize, ..s },
                SettingActionView::Stay,
            )
        } else {
            (s, SettingActionView::Stay)
        },
        Key::Enter => if s.show_prop {
            if s.setting_index == 0 {
                if s.popup_index < s.games.len() && s.popup_index < s.game_selections.len() {
                    (
                        SettingView {
                            game_selections: s.game_selections.update(
                                s.popup_index as int,
                                !s.game_selections[s.popup_index as int],
                            ),
                            ..s
                        },
                        SettingActionView::SaveGames { game: s.games[s.popup_index as int] },
                    )
                } else {
                    (s, SettingActionView::Stay)
                }
            } else if s.setting_index == 1 && s.accounts.len() > 0 {
                (s, SettingActionView::ToggleAccount(s.popup_index))
            } else {
                (s, SettingActionView::Stay)
            }
        } else {
            (
                SettingView { show_prop: true, popup_index: 0, ..s },
                if s.setting_index == 0 {
                    SettingActionView::LoadSettings
                } else {
                    SettingActionView::Stay
                },
            )
        },
        _ => (s, SettingActionView::Stay),
    }
}

/// The choice for the game at `index`: not chosen where the choices end
/// before it.
pub open spec fn choice_at(selections: Seq<bool>, index: int) -> bool {
    0 <= index < selections.len() && selections[index]
}

/// What is stored of the page: each game with its choice.
pub open spec fn stored_choices(s: SettingView) -> Seq<(Seq<char>, bool)> {
    Seq::new(s.games.len(), |i: int| (s.games[i], choice_at(s.game_selections, i)))
}

/// The views of optional summaries.
pub open spec fn summaries_view(summaries: Seq<Option<String>>) -> Seq<Option<Seq<char>>> {
    summaries.map_values(
        |o: Option<String>|
            match o {
                Some(s) => Some(s@),
                None => None,
            },
    )
}

/// The zone records that were fetched for the game at `index`: those of its
/// summary where the game is chosen and has one, and none otherwise.
pub open spec fn fetched_at(
    selections: Seq<bool>,
    summaries: Seq<Option<Seq<char>>>,
    index: int,
) -> Seq<ZoneTasksView> {
    if choice_at(selections, index) && index < summaries.len() {
        match summaries[index] {
            Some(s) => summary_zones(s),
            None => Seq::empty(),
        }
    } else {
        Seq::empty()
    }
}

/// The stored games after the first `n` games of the page were merged in,
/// each with its choice and with what was fetched for it.
pub open spec fn saved_games(
    stored: Seq<GameConfigView>,
    games: Seq<Seq<char>>,
    selections: Seq<bool>,
    summaries: Seq<Option<Seq<char>>>,
    n: nat,
) -> Seq<GameConfigView>
    decreases n,
{
    if n == 0 || n > games.len() {
        stored
    } else {
        merged(
            saved_games(stored, games, selections, summaries, (n - 1) as nat),
            games[n - 1],
            choice_at(selections, n - 1),
            fetched_at(selections, summaries, n - 1),
        )
    }
}

/// Saving keeps what it is not about: every game that was stored is still
/// there, in its place and with its name, its community and its amounts,
/// and a stored game that is none of the page's is as it was.
pub proof fn lemma_save_keeps(
    stored: Seq<GameConfigView>,
    games: Seq<Seq<char>>,
    selections: Seq<bool>,
    summaries: Seq<Option<Seq<char>>>,
    n: nat,
)
    requires
        n <= games.len(),
    ensures
        saved_games(stored, games, selections, summaries, n).len() >= stored.len(),
        forall|j: int|
            0 <= j < stored.len() ==> {
                let after = #[trigger] saved_games(stored, games, selections, summaries, n)[j];
                &&& after.name == stored[j].name
                &&& after.community_id == stored[j].community_id
                &&& after.amounts == stored[j].amounts
                &&& (forall|k: int| 0 <= k < n ==> games[k] != stored[j].name) ==> after
                    == stored[j]
            },
    decreases n,
{
    if n > 0 {
        let before = saved_games(stored, games, selections, summaries, (n - 1) as nat);
        lemma_save_keeps(stored, games, selections, summaries, (n - 1) as nat);
        lemma_merge_keeps(
            before,
            games[n - 1],
            choice_at(selections, n - 1),
            fetched_at(selections, summaries, n - 1),
        );
        let after = saved_games(stored, games, selections, summaries, n);
        assert forall|j: int| 0 <= j < stored.len() implies {
            let a = #[trigger] after[j];
            &&& a.name == stored[j].name
            &&& a.community_id == stored[j].community_id
            &&& a.amounts == stored[j].amounts
            &&& (forall|k: int| 0 <= k < n ==> games[k] != stored[j].name) ==> a == stored[j]
        } by {
            assert(before[j].name == stored[j].name);
            if forall|k: int| 0 <= k < n ==> games[k] != stored[j].name {
                assert(games[n - 1] != stored[j].name);
                assert(before[j] == stored[j]);
            }
        }
    }
}

/// The message that tells that a game's choice was stored.
pub open spec fn saved_text(game: Seq<char>) -> Seq<char> {
    "已保存-"@ + game
}

/// The message that tells that a game's choice was stored.
pub fn saved_message(game: &str) -> (s: String)
    ensures
        s@ == saved_text(game@),
{
    let mut s = String::from_str("已保存-");
    s.append(game);
    s
}

fn selections_of(games: &Vec<String>, stored: Option<&Vec<GameConfig>>) -> (r: Vec<bool>)
    ensures
        r@ == loaded_selections(texts_view(games@), stored_view(stored)),
{
    let mut r: Vec<bool> = Vec::new();
    let mut i: usize = 0;
    while i < games.len()
        invariant
            i <= games.len(),
            r@ == loaded_selections(texts_view(games@), stored_view(stored)).subrange(0, i as int),
        decreases games.len() - i,
    {
        let chosen = match stored {
            Some(s) => match game_position(s, games[i].as_str()) {
                Some(j) => s[j].active,
                None => false,
            },
            None => false,
        };
        r.push(chosen);
        assert(r@ =~= loaded_selections(texts_view(games@), stored_view(stored)).subrange(
            0,
            i + 1,
        ));
        i = i + 1;
    }
    assert(r@ =~= loaded_selections(texts_view(games@), stored_view(stored)));
    r
}

impl SettingState {
    /// The page as it opens: the cursor on the first setting, the pop-up
    /// closed, the offered games with the choices that the stored
    /// configuration has for them (none where it could not be read), and
    /// two accounts that stand in until the stored ones are listed.
    pub fn new(stored: Option<&Vec<GameConfig>>) -> (s: Self)
        ensures
            s@ == (SettingView {
                setting_index: 0,
                show_prop: false,
                game_selections: loaded_selections(offered_games(), stored_view(stored)),
                popup_index: 0,
                games: offered_games(),
                accounts: seq!["账号1"@, "账号2"@],
            }),
    {
        let games = default_games();
        let game_selections = selections_of(&games, stored);
        let mut accounts: Vec<String> = Vec::new();
        accounts.push(String::from_str("账号1"));
        accounts.push(String::from_str("账号2"));
        assert(texts_view(accounts@) =~= seq!["账号1"@, "账号2"@]);
        SettingState {
            setting_index: 0,
            show_prop: false,
            game_selections,
            popup_index: 0,
            games,
            accounts,
        }
    }

    /// The games of the page.
    pub fn get_games(&self) -> (games: &Vec<String>)
        ensures
            games == self.games,
    {
        &self.games
    }

    /// What is to be stored of the page: each game with its choice, in the
    /// order of the games.
    pub fn save_settings(&self) -> (pairs: Vec<(String, bool)>)
        ensures
            pairs@.map_values(|p: (String, bool)| (p.0@, p.1)) == stored_choices(self@),
    {
        let mut pairs: Vec<(String, bool)> = Vec::new();
        let mut i: usize = 0;
        while i < self.games.len()
            invariant
                i <= self.games.len(),
                pairs@.map_values(|p: (String, bool)| (p.0@, p.1)) == stored_choices(
                    self@,
                ).subrange(0, i as int),
            decreases self.games.len() - i,
        {
            let chosen = i < self.game_selections.len() && self.game_selections[i];
            let ghost before = pairs@;
            let pair = (self.games[i].clone(), chosen);
            pairs.push(pair);
            assert(pairs@.map_values(|p: (String, bool)| (p.0@, p.1)) =~= before.map_values(
                |p: (String, bool)| (p.0@, p.1),
            ).push((pair.0@, pair.1)));
            assert(pairs@.map_values(|p: (String, bool)| (p.0@, p.1)) =~= stored_choices(
                self@,
            ).subrange(0, i + 1));
            i = i + 1;
        }
        assert(stored_choices(self@).subrange(0, i as int) =~= stored_choices(self@));
        pairs
    }

    /// Merges the games and their choices into the stored configuration.
    /// For each game, in order: it becomes active or not as chosen (not,
    /// where the choices end before it); where it is chosen and a summary of
    /// the coupon centre was fetched for it, the zone records of the summary
    /// replace the stored ones unless there are none; a game that is not
    /// stored yet is added with its community.
    pub fn save_settings_static(
        games: &Vec<String>,
        selections: &Vec<bool>,
        summaries: &Vec<Option<String>>,
        stored: &mut Vec<GameConfig>,
    )
        ensures
            games_view(final(stored)@) == saved_games(
                games_view(old(stored)@),
                texts_view(games@),
                selections@,
                summaries_view(summaries@),
                games@.len(),
            ),
    {
        let mut i: usize = 0;
        while i < games.len()
            invariant
                i <= games.len(),
                games_view(stored@) == saved_games(
                    games_view(old(stored)@),
                    texts_view(games@),
                    selections@,
                    summaries_view(summaries@),
                    i as nat,
                ),
            decreases games.len() - i,
        {
            let active = i < selections.len() && selections[i];
            let fetched: Vec<ZoneTasks> = if active && i < summaries.len() {
                match &summaries[i] {
                    Some(s) => parse_zone_tasks(s.as_str()),
                    None => Vec::new(),
                }
            } else {
                Vec::new()
            };
            assert(zones_view(fetched@) =~= fetched_at(
                selections@,
                summaries_view(summaries@),
                i as int,
            ));
            merge_game(stored, games[i].as_str(), active, fetched);
            i = i + 1;
        }
    }

    /// Takes in the stored configuration: each game is chosen exactly if
    /// the configuration has it active, and none is where the configuration
    /// could not be read.
    pub fn load_settings(&mut self, stored: Option<&Vec<GameConfig>>)
        ensures
            final(self)@ == (SettingView {
                game_selections: loaded_selections(old(self)@.games, stored_view(stored)),
                ..old(self)@
            }),
    {
        self.game_selections = selections_of(&self.games, stored);
    }

    /// Lists other accounts.
    pub fn set_accounts(&mut self, accounts: Vec<String>)
        ensures
            final(self)@ == (SettingView { accounts: texts_view(accounts@), ..old(self)@ }),
    {
        self.accounts = accounts;
    }

    /// Takes a key.
    pub fn setting_handle_key(&mut self, key: Key) -> (action: SettingAction)
        ensures
            (final(self)@, action@) == setting_key(old(self)@, key),
    {
        match key {
            Key::Esc => {
                if self.show_prop {
                    self.show_prop = false;
                    SettingAction::Stay
                } else {
                    SettingAction::LeavePage
                }
            },
            Key::Up => {
                if self.show_prop {
                    let n = self.popup_len();
                    if n > 0 && self.popup_index > 0 {
                        self.popup_index = self.popup_index - 1;
                    }
                } else if self.setting_index > 0 {
                    self.setting_index = self.setting_index - 1;
                }
                SettingAction::Stay
            },
            Key::Down => {
                if self.show_prop {
                    let n = self.popup_len();
                    if n > 0 && self.popup_index < n - 1 {
                        self.popup_index = self.popup_index + 1;
                    }
                } else if self.setting_index < 2 {
                    self.setting_index = self.setting_index + 1;
                }
                SettingAction::Stay
            },
            Key::Enter => {
                if self.show_prop {
                    if self.setting_index == 0 {
                        let i = self.popup_index;
                        if i < self.games.len() && i < self.game_selections.len() {
                            let chosen = self.game_selections[i];
                            self.game_selections.set(i, !chosen);
                            SettingAction::SaveGames { game: self.games[i].clone() }
                        } else {
                            SettingAction::Stay
                        }
                    } else if self.setting_index == 1 && self.accounts.len() > 0 {
                        SettingAction::ToggleAccount(self.popup_index)
                    } else {
                        SettingAction::Stay
                    }
                } else {
                    self.show_prop = true;
                    self.popup_index = 0;
                    if self.setting_index == 0 {
                        SettingAction::LoadSettings
                    } else {
                        SettingAction::Stay
                    }
                }
            },
            _ => SettingAction::Stay,
        }
    }

    fn popup_len(&self) -> (n: usize)
        ensures
            n == popup_len(self@),
    {
        if self.setting_index == 0 {
            self.games.len()
        } else if self.setting_index == 1 {
            self.accounts.len()
        } else {
            0
        }
    }
}

} // verus!
