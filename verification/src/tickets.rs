//! The page that picks the ticket categories of a run: the categories still
//! to choose from on the left, the chosen ones on the right, and two buttons
//! below them.

use crate::keys::Key;
use crate::plan::TicketCategory;
use vstd::prelude::*;
use vstd::string::StringExecFns;

verus! {

/// The names of the zones that the service is known to have, in the order in
/// which the page lists them.
pub open spec fn known_zones() -> Seq<Seq<char>> {
    seq!["置顶专区"@, "新人专区"@, "每周专区"@, "每日专区"@]
}

/// The categories before anything was fetched: the known zones, each
/// without tasks.
pub fn default_categories() -> (r: Vec<TicketCategory>)
    ensures
        r@.len() == 4,
        forall|i: int|
            0 <= i < 4 ==> (#[trigger] r@[i]).name@ == known_zones()[i] && r@[i].task_ids@.len()
                == 0,
{
    let mut r: Vec<TicketCategory> = Vec::new();
    r.push(TicketCategory { name: String::from_str("置顶专区"), task_ids: Vec::new() });
    r.push(TicketCategory { name: String::from_str("新人专区"), task_ids: Vec::new() });
    r.push(TicketCategory { name: String::from_str("每周专区"), task_ids: Vec::new() });
    r.push(TicketCategory { name: String::from_str("每日专区"), task_ids: Vec::new() });
    r
}

/// The state of the page.
#[derive(Debug, PartialEq, Eq)]
pub struct TicketPicker {
    /// The indices of the chosen categories, in the order of choosing.
    pub selected_tickets: Vec<usize>,
    /// The line under the cursor in the panel that has it.
    pub selected_index: usize,
    /// Whether the cursor is in the panel of the chosen categories.
    pub is_right_panel: bool,
    /// Whether the keys go to the buttons.
    pub is_button_mode: bool,
    /// The button under the cursor: 0 starts the run, 1 clears the choice.
    pub button_focus: usize,
}

/// The mathematical content of a [`TicketPicker`].
#[verifier::ext_equal]
pub ghost struct PickerView {
    pub selected_tickets: Seq<usize>,
    pub selected_index: usize,
    pub is_right_panel: bool,
    pub is_button_mode: bool,
    pub button_focus: usize,
}

impl View for TicketPicker {
    type V = PickerView;

    open spec fn view(&self) -> PickerView {
        PickerView {
            selected_tickets: self.selected_tickets@,
            selected_index: self.selected_index,
            is_right_panel: self.is_right_panel,
            is_button_mode: self.is_button_mode,
            button_focus: self.button_focus,
        }
    }
}

/// What the caller of the page does after a key.
#[derive(Clone, Copy, Debug, PartialEq, Eq, Structural)]
pub enum PickerAction {
    /// Nothing.
    Stay,
    /// Go back to the main page.
    LeavePage,
    /// Start the run with the chosen categories.
    Start,
    /// Tell the user to choose a category first.
    NothingSelected,
    /// Tell the user that the choice was cleared.
    Cleared,
    /// Tell the user that no category is left to choose.
    NoneLeft,
}

/// The text that goes with an action, where it has one.
pub open spec fn action_text(action: PickerAction) -> Option<Seq<char>> {
    match action {
        PickerAction::Start => Some("开始抢票..."@),
        PickerAction::NothingSelected => Some("请先选择要抢的票种！"@),
        PickerAction::Cleared => Some("已清空所有选择"@),
        PickerAction::NoneLeft => Some("已经没有可选的票种了"@),
        _ => None,
    }
}

/// The indices below `count` that are not chosen, in rising order.
pub open spec fn available(selected: Seq<usize>, count: nat) -> Seq<usize>
    decreases count,
{
    if count == 0 {
        Seq::empty()
    } else {
        let before = available(selected, (count - 1) as nat);
        if selected.contains((count - 1) as usize) {
            before
        } else {
            before.push((count - 1) as usize)
        }
    }
}

/// The largest line that the cursor can be on.
pub open spec fn last_line(s: PickerView, count: usize) -> int {
    let n = if s.is_right_panel {
        s.selected_tickets.len()
    } else {
        available(s.selected_tickets, count as nat).len()
    };
    if n == 0 {
        0
    } else {
        n - 1
    }
}

/// The page after `Enter` in the panel of the categories to choose from.
pub open spec fn after_choose(s: PickerView, count: usize) -> (PickerView, PickerAction) {
    let open = available(s.selected_tickets, count as nat);
    if open.len() == 0 {
        (s, PickerAction::NoneLeft)
    } else if s.selected_index < open.len() {
        let chosen = s.selected_tickets.push(open[s.selected_index as int]);
        if open.len() == 1 {
            (
                PickerView {
                    selected_tickets: chosen,
                    selected_index: 0,
                    is_right_panel: true,
                    ..s
                },
                PickerAction::Stay,
            )
        } else if s.selected_index >= open.len() - 1 {
            (
                PickerView {
                    selected_tickets: chosen,
                    selected_index: (open.len() - 2) as usize,
                    ..s
                },
                PickerAction::Stay,
            )
        } else {
            (PickerView { selected_tickets: chosen, ..s }, PickerAction::Stay)
        }
    } else {
        (s, PickerAction::Stay)
    }
}

/// The page after `Enter` in the panel of the chosen categories.
pub open spec fn after_unchoose(s: PickerView) -> (PickerView, PickerAction) {
    if s.selected_index < s.selected_tickets.len() {
        let left = s.selected_tickets.remove(s.selected_index as int);
        if left.len() == 0 {
            (
                PickerView {
                    selected_tickets: left,
                    selected_index: 0,
                    is_right_panel: false,
                    ..s
                },
                PickerAction::Stay,
            )
        } else if s.selected_index >= left.len() {
            (
                PickerView { selected_tickets: left, selected_index: (left.len() - 1) as usize, ..s },
                PickerAction::Stay,
            )
        } else {
            (PickerView { selected_tickets: left, ..s }, PickerAction::Stay)
        }
    } else {
        (s, PickerAction::Stay)
    }
}

/// The page after a key where there are `count` categories, and what its
/// caller does.
pub open spec fn picker_key(s: PickerView, key: Key, count: usize) -> (PickerView, PickerAction) {
    match key {
        Key::Esc => if s.is_button_mode {
            (PickerView { is_button_mode: false, button_focus: 0, ..s }, PickerAction::Stay)
        } else {
            (s, PickerAction::LeavePage)
        },
        Key::Tab => if !s.is_button_mode {
            (PickerView { is_button_mode: true, button_focus: 0, ..s }, PickerAction::Stay)
        } else {
            (
                PickerView { button_focus: ((s.button_focus % 2 + 1) % 2) as usize, ..s },
                PickerAction::Stay,
            )
        },
        Key::Up => if !s.is_button_mode && s.selected_index > 0 {
            (PickerView { selected_index: (s.selected_index - 1) as usize, ..s }, PickerAction::Stay)
        } else {
            (s, PickerAction::Stay)
        },
        Key::Down => if !s.is_button_mode && s.selected_index < last_line(s, count) {
            (PickerView { selected_index: (s.selected_index + 1) as usize, ..s }, PickerAction::Stay)
        } else {
            (s, PickerAction::Stay)
        },
        Key::Left | Key::Right => if s.is_button_mode {
            (s, PickerAction::Stay)
        } else if s.selected_tickets.len() == 0 {
            if s.selected_index == 0 {
                (PickerView { is_right_panel: false, ..s }, PickerAction::Stay)
            } else {
                (s, PickerAction::Stay)
            }
        } else {
            (
                PickerView { is_right_panel: !s.is_right_panel, selected_index: 0, ..s },
                PickerAction::Stay,
            )
        },
        Key::Enter => if s.is_button_mode {
            if s.button_focus == 0 {
                if s.selected_tickets.len() > 0 {
                    (s, PickerAction::Start)
                } else {
                    (s, PickerAction::NothingSelected)
                }
            } else if s.button_focus == 1 {
                (
                    PickerView { selected_tickets: Seq::empty(), selected_index: 0, ..s },
                    PickerAction::Cleared,
                )
            } else {
                (s, PickerAction::Stay)
            }
        } else if !s.is_right_panel {
            after_choose(s, count)
        } else {
            after_unchoose(s)
        },
        _ => (s, PickerAction::Stay),
    }
}

/// Whether a choice names each category at most once and none that there is
/// not.
pub open spec fn sound_choice(selected: Seq<usize>, count: usize) -> bool {
    &&& forall|i: int| 0 <= i < selected.len() ==> (#[trigger] selected[i]) < count
    &&& forall|i: int, j: int|
        0 <= i < j < selected.len() ==> (#[trigger] selected[i]) != (#[trigger] selected[j])
}

/// What is open to choose is below the count and not chosen.
pub proof fn lemma_available(selected: Seq<usize>, count: nat)
    ensures
        forall|k: int|
            0 <= k < available(selected, count).len() ==> (#[trigger] available(
                selected,
                count,
            )[k]) < count && !selected.contains(available(selected, count)[k]),
        available(selected, count).len() <= count,
    decreases count,
{
    if count > 0 {
        lemma_available(selected, (count - 1) as nat);
    }
}

/// No key makes a choice unsound: after any key the chosen categories are
/// still distinct and still among the `count` that there are.
pub proof fn lemma_key_keeps_choice_sound(s: PickerView, key: Key, count: usize)
    requires
        sound_choice(s.selected_tickets, count),
    ensures
        sound_choice(picker_key(s, key, count).0.selected_tickets, count),
{
    lemma_available(s.selected_tickets, count as nat);
    let after = picker_key(s, key, count).0.selected_tickets;
    if key == Key::Enter && !s.is_button_mode {
        if !s.is_right_panel {
            let open = available(s.selected_tickets, count as nat);
            if open.len() > 0 && s.selected_index < open.len() {
                let t = open[s.selected_index as int];
                assert(after == s.selected_tickets.push(t));
                assert(!s.selected_tickets.contains(t));
                assert forall|i: int, j: int| 0 <= i < j < after.len() implies (#[trigger] after[i])
                    != (#[trigger] after[j]) by {
                    if j == after.len() - 1 {
                        assert(s.selected_tickets.contains(after[i]));
                    }
                }
            }
        } else if s.selected_index < s.selected_tickets.len() {
            assert(after == s.selected_tickets.remove(s.selected_index as int));
        }
    }
}

fn is_chosen(selected: &Vec<usize>, ticket: usize) -> (b: bool)
    ensures
        b == selected@.contains(ticket),
{
    let mut i: usize = 0;
    while i < selected.len()
        invariant
            i <= selected.len(),
            forall|k: int| 0 <= k < i ==> selected@[k] != ticket,
        decreases selected.len() - i,
    {
        if selected[i] == ticket {
            return true;
        }
        i = i + 1;
    }
    false
}

impl TicketPicker {
    /// The page as it opens: nothing chosen, the cursor on the first
    /// category.
    pub fn new() -> (p: Self)
        ensures
            p@ == (PickerView {
                selected_tickets: Seq::empty(),
                selected_index: 0,
                is_right_panel: false,
                is_button_mode: false,
                button_focus: 0,
            }),
    {
        TicketPicker {
            selected_tickets: Vec::new(),
            selected_index: 0,
            is_right_panel: false,
            is_button_mode: false,
            button_focus: 0,
        }
    }

    /// The categories that are open to choose, of `count` that there are.
    pub fn open_tickets(&self, count: usize) -> (open: Vec<usize>)
        ensures
            open@ == available(self@.selected_tickets, count as nat),
    {
        let mut open: Vec<usize> = Vec::new();
        let mut i: usize = 0;
        while i < count
            invariant
                i <= count,
                open@ == available(self@.selected_tickets, i as nat),
            decreases count - i,
        {
            if !is_chosen(&self.selected_tickets, i) {
                open.push(i);
            }
            i = i + 1;
        }
        open
    }

    fn take_key(&mut self, key: Key, count: usize) -> (action: PickerAction)
        ensures
            (final(self)@, action) == picker_key(old(self)@, key, count),
    {
        match key {
            Key::Esc => {
                if self.is_button_mode {
                    self.is_button_mode = false;
                    self.button_focus = 0;
                    PickerAction::Stay
                } else {
                    PickerAction::LeavePage
                }
            },
            Key::Tab => {
                if !self.is_button_mode {
                    self.is_button_mode = true;
                    self.button_focus = 0;
                } else {
                    self.button_focus = (self.button_focus % 2 + 1) % 2;
                }
                PickerAction::Stay
            },
            Key::Up => {
                if !self.is_button_mode && self.selected_index > 0 {
                    self.selected_index = self.selected_index - 1;
                }
                PickerAction::Stay
            },
            Key::Down => {
                if !self.is_button_mode {
                    let n = if self.is_right_panel {
                        self.selected_tickets.len()
                    } else {
                        self.open_tickets(count).len()
                    };
                    let last = if n == 0 {
                        0
                    } else {
                        n - 1
                    };
                    if self.selected_index < last {
                        self.selected_index = self.selected_index + 1;
                    }
                }
                PickerAction::Stay
            },
            Key::Left | Key::Right => {
                if !self.is_button_mode {
                    if self.selected_tickets.len() == 0 {
                        if self.selected_index == 0 {
                            self.is_right_panel = false;
                        }
                    } else {
                        self.is_right_panel = !self.is_right_panel;
                        self.selected_index = 0;
                    }
                }
                PickerAction::Stay
            },
            Key::Enter => {
                if self.is_button_mode {
                    if self.button_focus == 0 {
                        if self.selected_tickets.len() > 0 {
                            PickerAction::Start
                        } else {
                            PickerAction::NothingSelected
                        }
                    } else if self.button_focus == 1 {
                        self.selected_tickets = Vec::new();
                        self.selected_index = 0;
                        PickerAction::Cleared
                    } else {
                        PickerAction::Stay
                    }
                } else if !self.is_right_panel {
                    let open = self.open_tickets(count);
                    if open.len() == 0 {
                        return PickerAction::NoneLeft;
                    }
                    if self.selected_index < open.len() {
                        self.selected_tickets.push(open[self.selected_index]);
                        if open.len() == 1 {
                            self.selected_index = 0;
                            self.is_right_panel = true;
                        } else if self.selected_index >= open.len() - 1 {
                            self.selected_index = open.len() - 2;
                        }
                    }
                    PickerAction::Stay
                } else {
                    if self.selected_index < self.selected_tickets.len() {
                        let _ = self.selected_tickets.remove(self.selected_index);
                        if self.selected_tickets.len() == 0 {
                            self.selected_index = 0;
                            self.is_right_panel = false;
                        } else if self.selected_index >= self.selected_tickets.len() {
                            self.selected_index = self.selected_tickets.len() - 1;
                        }
                    }
                    PickerAction::Stay
                }
            },
            _ => PickerAction::Stay,
        }
    }
}

impl PickerAction {
    /// The text that goes with the action, where it has one.
    pub fn message(&self) -> (m: Option<String>)
        ensures
            match m {
                Some(s) => Some(s@),
                None => None,
            } == action_text(*self),
    {
        match self {
            PickerAction::Start => Some(String::from_str("开始抢票...")),
            PickerAction::NothingSelected => Some(String::from_str("请先选择要抢的票种！")),
            PickerAction::Cleared => Some(String::from_str("已清空所有选择")),
            PickerAction::NoneLeft => Some(String::from_str("已经没有可选的票种了")),
            _ => None,
        }
    }
}

/// Takes a key on the page, where there are `count` categories.
pub fn handle_start_ticket_grabbing_input(
    timed_state: &mut TicketPicker,
    key: Key,
    count: usize,
) -> (action: PickerAction)
    ensures
        (final(timed_state)@, action) == picker_key(old(timed_state)@, key, count),
{
    timed_state.take_key(key, count)
}

} // verus!
