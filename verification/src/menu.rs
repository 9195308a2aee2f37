//! The main page and the login page: which entry is under the cursor, and
//! what the two input fields of the login hold.

use crate::keys::Key;
use crate::text::{chars_of, text_of};
use vstd::prelude::*;
use vstd::string::StringExecFns;

verus! {

/// The pages of the program.
#[derive(Clone, Copy, Debug, PartialEq, Eq, Structural)]
pub enum Page {
    Main,
    Login,
    Timed,
    Tickets,
    Setting,
}

/// The index of the last entry of the main page.
pub const LAST_ENTRY: usize = 4;

/// What the caller of the main page does after a key.
#[derive(Clone, Copy, Debug, PartialEq, Eq, Structural)]
pub enum MenuAction {
    /// Nothing.
    Stay,
    /// Show a page.
    Open(Page),
    /// End the program.
    Quit,
}

/// The entry under the cursor after a key: one up or one down, within the
/// entries.
pub open spec fn moved(selected: usize, key: Key) -> usize {
    match key {
        Key::Up => if selected > 0 {
            (selected - 1) as usize
        } else {
            selected
        },
        Key::Down => if selected < LAST_ENTRY {
            (selected + 1) as usize
        } else {
            selected
        },
        _ => selected,
    }
}

/// What choosing an entry of the main page does.
pub open spec fn entry_action(selected: usize) -> MenuAction {
    if selected == 0 {
        MenuAction::Open(Page::Login)
    } else if selected == 1 {
        MenuAction::Open(Page::Timed)
    } else if selected == 2 {
        MenuAction::Open(Page::Tickets)
    } else if selected == 3 {
        MenuAction::Open(Page::Setting)
    } else if selected == 4 {
        MenuAction::Quit
    } else {
        MenuAction::Stay
    }
}

/// Moves the cursor of the main page.
pub fn handle_key_input_main(selected: usize, key: Key) -> (r: usize)
    ensures
        r == moved(selected, key),
{
    match key {
        Key::Up => {
            if selected > 0 {
                selected - 1
            } else {
                selected
            }
        },
        Key::Down => {
            if selected < LAST_ENTRY {
                selected + 1
            } else {
                selected
            }
        },
        _ => selected,
    }
}

/// What choosing an entry of the main page does.
pub fn choose_entry(selected: usize) -> (a: MenuAction)
    ensures
        a == entry_action(selected),
{
    if selected == 0 {
        MenuAction::Open(Page::Login)
    } else if selected == 1 {
        MenuAction::Open(Page::Timed)
    } else if selected == 2 {
        MenuAction::Open(Page::Tickets)
    } else if selected == 3 {
        MenuAction::Open(Page::Setting)
    } else if selected == 4 {
        MenuAction::Quit
    } else {
        MenuAction::Stay
    }
}

/// The login page: two fields, of which one takes the input.
#[derive(Debug, PartialEq, Eq)]
pub struct LoginForm {
    /// The field that takes the input: 0 the token, 1 the user agent.
    pub active_input: usize,
    pub input_buffer: String,
    pub auth_token: String,
    pub user_agent: String,
}

/// The mathematical content of a [`LoginForm`].
#[verifier::ext_equal]
pub ghost struct LoginView {
    pub active_input: usize,
    pub input_buffer: Seq<char>,
    pub auth_token: Seq<char>,
    pub user_agent: Seq<char>,
}

impl View for LoginForm {
    type V = LoginView;

    open spec fn view(&self) -> LoginView {
        LoginView {
            active_input: self.active_input,
            input_buffer: self.input_buffer@,
            auth_token: self.auth_token@,
            user_agent: self.user_agent@,
        }
    }
}

/// What the caller of the login page does after a key.
#[derive(Debug, PartialEq, Eq)]
pub enum LoginAction {
    /// Nothing.
    Stay,
    /// Ask the service whether the token is good.
    Query { auth_token: String, user_agent: String },
}

/// The mathematical content of a [`LoginAction`].
pub ghost enum LoginActionView {
    Stay,
    Query { auth_token: Seq<char>, user_agent: Seq<char> },
}

impl View for LoginAction {
    type V = LoginActionView;

    open spec fn view(&self) -> LoginActionView {
        match self {
            LoginAction::Stay => LoginActionView::Stay,
            LoginAction::Query { auth_token, user_agent } => LoginActionView::Query {
                auth_token: auth_token@,
                user_agent: user_agent@,
            },
        }
    }
}

/// The login page after a key, and what its caller does. `Tab` changes the
/// field and keeps the input in the field that is left; `Enter` on an input
/// that is not empty keeps it in its field and asks the service; a character
/// is added to the input and `Backspace` takes the last one off.
pub open spec fn login_key(s: LoginView, key: Key) -> (LoginView, LoginActionView) {
    match key {
        Key::Tab => {
            let next = ((s.active_input % 2 + 1) % 2) as usize;
            if next == 0 {
                (
                    LoginView {
                        active_input: next,
                        user_agent: s.input_buffer,
                        input_buffer: Seq::empty(),
                        ..s
                    },
                    LoginActionView::Stay,
                )
            } else {
                (
                    LoginView {
                        active_input: next,
                        auth_token: s.input_buffer,
                        input_buffer: Seq::empty(),
                        ..s
                    },
                    LoginActionView::Stay,
                )
            }
        },
        Key::Enter => if s.input_buffer.len() == 0 {
            (s, LoginActionView::Stay)
        } else if s.active_input == 0 {
            (
                LoginView { auth_token: s.input_buffer, input_buffer: Seq::empty(), ..s },
                LoginActionView::Query { auth_token: s.input_buffer, user_agent: s.user_agent },
            )
        } else {
            (
                LoginView { user_agent: s.input_buffer, input_buffer: Seq::empty(), ..s },
                LoginActionView::Query { auth_token: s.auth_token, user_agent: s.input_buffer },
            )
        },
        Key::Char(c) => (
            LoginView { input_buffer: s.input_buffer.push(c), ..s },
            LoginActionView::Stay,
        ),
        Key::Backspace => if s.input_buffer.len() > 0 {
            (LoginView { input_buffer: s.input_buffer.drop_last(), ..s }, LoginActionView::Stay)
        } else {
            (s, LoginActionView::Stay)
        },
        _ => (s, LoginActionView::Stay),
    }
}

impl LoginForm {
    /// An empty form with the input in the token's field.
    pub fn new() -> (f: Self)
        ensures
            f@ == (LoginView {
                active_input: 0,
                input_buffer: Seq::empty(),
                auth_token: Seq::empty(),
                user_agent: Seq::empty(),
            }),
    {
        LoginForm {
            active_input: 0,
            input_buffer: String::new(),
            auth_token: String::new(),
            user_agent: String::new(),
        }
    }

    fn take_key(&mut self, key: Key) -> (action: LoginAction)
        ensures
            (final(self)@, action@) == login_key(old(self)@, key),
    {
        match key {
            Key::Tab => {
                self.active_input = (self.active_input % 2 + 1) % 2;
                if self.active_input == 0 {
                    self.user_agent = self.input_buffer.clone();
                } else {
                    self.auth_token = self.input_buffer.clone();
                }
                self.input_buffer = String::new();
                LoginAction::Stay
            },
            Key::Enter => {
                if self.input_buffer.as_str().unicode_len() == 0 {
                    return LoginAction::Stay;
                }
                if self.active_input == 0 {
                    self.auth_token = self.input_buffer.clone();
                } else {
                    self.user_agent = self.input_buffer.clone();
                }
                self.input_buffer = String::new();
                LoginAction::Query {
                    auth_token: self.auth_token.clone(),
                    user_agent: self.user_agent.clone(),
                }
            },
            Key::Char(c) => {
                self.input_buffer.push(c);
                LoginAction::Stay
            },
            Key::Backspace => {
                let chars = chars_of(self.input_buffer.as_str());
                if chars.len() > 0 {
                    self.input_buffer = text_of(&chars, 0, chars.len() - 1);
                    assert(self.input_buffer@ =~= old(self)@.input_buffer.drop_last());
                }
                LoginAction::Stay
            },
            _ => LoginAction::Stay,
        }
    }
}

/// Takes a key on the login page.
pub fn handle_login_input(state: &mut LoginForm, key: Key) -> (action: LoginAction)
    ensures
        (final(state)@, action@) == login_key(old(state)@, key),
{
    state.take_key(key)
}

} // verus!
