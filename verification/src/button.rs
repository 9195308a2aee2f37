//! The buttons of the ticket page: their themes, their states and the
//! colours that each state picks from a theme.

use vstd::prelude::*;

verus! {

/// A colour as red, green and blue.
#[derive(Clone, Copy, Debug, PartialEq, Eq, Structural)]
pub struct Rgb {
    pub red: u8,
    pub green: u8,
    pub blue: u8,
}

/// How a button is drawn.
#[derive(Clone, Copy, Debug, PartialEq, Eq, Structural)]
pub enum State {
    Normal,
    Selected,
    Active,
}

/// The four colours of a button.
#[derive(Clone, Copy, Debug, PartialEq, Eq, Structural)]
pub struct Theme {
    pub text: Rgb,
    pub background: Rgb,
    pub highlight: Rgb,
    pub shadow: Rgb,
}

/// The colours with which a button is drawn.
#[derive(Clone, Copy, Debug, PartialEq, Eq, Structural)]
pub struct Colors {
    pub background: Rgb,
    pub text: Rgb,
    pub shadow: Rgb,
    pub highlight: Rgb,
}

/// A button with its label.
#[derive(Debug, PartialEq, Eq)]
pub struct Button {
    label: String,
    theme: Theme,
    state: State,
}

/// The blue theme.
pub open spec fn blue_theme() -> Theme {
    Theme {
        text: Rgb { red: 16, green: 24, blue: 48 },
        background: Rgb { red: 48, green: 72, blue: 144 },
        highlight: Rgb { red: 64, green: 96, blue: 192 },
        shadow: Rgb { red: 32, green: 48, blue: 96 },
    }
}

/// The red theme.
pub open spec fn red_theme() -> Theme {
    Theme {
        text: Rgb { red: 48, green: 16, blue: 16 },
        background: Rgb { red: 144, green: 48, blue: 48 },
        highlight: Rgb { red: 192, green: 64, blue: 64 },
        shadow: Rgb { red: 96, green: 32, blue: 32 },
    }
}

/// The green theme.
pub open spec fn green_theme() -> Theme {
    Theme {
        text: Rgb { red: 16, green: 48, blue: 16 },
        background: Rgb { red: 48, green: 144, blue: 48 },
        highlight: Rgb { red: 64, green: 192, blue: 64 },
        shadow: Rgb { red: 32, green: 96, blue: 32 },
    }
}

/// The colours that a state picks from a theme: a selected button has the
/// highlight as its background, an active one has highlight and shadow
/// changed over.
pub open spec fn state_colors(theme: Theme, state: State) -> Colors {
    match state {
        State::Normal => Colors {
            background: theme.background,
            text: theme.text,
            shadow: theme.shadow,
            highlight: theme.highlight,
        },
        State::Selected => Colors {
            background: theme.highlight,
            text: theme.text,
            shadow: theme.shadow,
            highlight: theme.highlight,
        },
        State::Active => Colors {
            background: theme.background,
            text: theme.text,
            shadow: theme.highlight,
            highlight: theme.shadow,
        },
    }
}

/// How far from the left of `width` columns a label of `label_width` columns
/// begins when it is centred; 0 where it does not fit.
pub open spec fn centered(width: u16, label_width: u16) -> u16 {
    if label_width >= width {
        0
    } else {
        ((width - label_width) / 2) as u16
    }
}

/// The margin, in percent, on each side of a pop-up that takes `percent` of
/// its area; 0 where it takes all of it or more.
pub open spec fn margin(percent: u16) -> u16 {
    if percent >= 100 {
        0
    } else {
        ((100 - percent) / 2) as u16
    }
}

/// The blue theme.
pub fn blue() -> (t: Theme)
    ensures
        t == blue_theme(),
{
    Theme {
        text: Rgb { red: 16, green: 24, blue: 48 },
        background: Rgb { red: 48, green: 72, blue: 144 },
        highlight: Rgb { red: 64, green: 96, blue: 192 },
        shadow: Rgb { red: 32, green: 48, blue: 96 },
    }
}

/// The red theme.
pub fn red() -> (t: Theme)
    ensures
        t == red_theme(),
{
    Theme {
        text: Rgb { red: 48, green: 16, blue: 16 },
        background: Rgb { red: 144, green: 48, blue: 48 },
        highlight: Rgb { red: 192, green: 64, blue: 64 },
        shadow: Rgb { red: 96, green: 32, blue: 32 },
    }
}

/// The green theme.
pub fn green() -> (t: Theme)
    ensures
        t == green_theme(),
{
    Theme {
        text: Rgb { red: 16, green: 48, blue: 16 },
        background: Rgb { red: 48, green: 144, blue: 48 },
        highlight: Rgb { red: 64, green: 192, blue: 64 },
        shadow: Rgb { red: 32, green: 96, blue: 32 },
    }
}

/// How far from the left a centred label begins.
pub fn centered_offset(width: u16, label_width: u16) -> (x: u16)
    ensures
        x == centered(width, label_width),
{
    if label_width >= width {
        0
    } else {
        (width - label_width) / 2
    }
}

/// The margin, in percent, on each side of a pop-up.
pub fn popup_margin(percent: u16) -> (m: u16)
    ensures
        m == margin(percent),
{
    if percent >= 100 {
        0
    } else {
        (100 - percent) / 2
    }
}

impl Button {
    /// The label.
    pub closed spec fn label_view(&self) -> Seq<char> {
        self.label@
    }

    /// The theme.
    pub closed spec fn theme_view(&self) -> Theme {
        self.theme
    }

    /// The state.
    pub closed spec fn state_view(&self) -> State {
        self.state
    }

    /// A blue button in its normal state.
    pub fn new(label: String) -> (b: Self)
        ensures
            b.label_view() == label@,
            b.theme_view() == blue_theme(),
            b.state_view() == State::Normal,
    {
        Button { label, theme: blue(), state: State::Normal }
    }

    /// The button in another theme.
    pub fn theme(self, theme: Theme) -> (b: Self)
        ensures
            b.label_view() == self.label_view(),
            b.theme_view() == theme,
            b.state_view() == self.state_view(),
    {
        Button { label: self.label, theme, state: self.state }
    }

    /// The button in another state.
    pub fn state(self, state: State) -> (b: Self)
        ensures
            b.label_view() == self.label_view(),
            b.theme_view() == self.theme_view(),
            b.state_view() == state,
    {
        Button { label: self.label, theme: self.theme, state }
    }

    /// The label.
    pub fn label(&self) -> (l: &String)
        ensures
            l@ == self.label_view(),
    {
        &self.label
    }

    /// The colours with which the button is drawn.
    pub fn colors(&self) -> (c: Colors)
        ensures
            c == state_colors(self.theme_view(), self.state_view()),
    {
        let theme = self.theme;
        match self.state {
            State::Normal => Colors {
                background: theme.background,
                text: theme.text,
                shadow: theme.shadow,
                highlight: theme.highlight,
            },
            State::Selected => Colors {
                background: theme.highlight,
                text: theme.text,
                shadow: theme.shadow,
                highlight: theme.highlight,
            },
            State::Active => Colors {
                background: theme.background,
                text: theme.text,
                shadow: theme.highlight,
                highlight: theme.shadow,
            },
        }
    }
}

} // verus!
