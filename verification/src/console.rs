//! The console at the foot of every page: the messages received so far and
//! the window of them that fits the screen.

use crate::scan::{join, lines, lines_of, pieces_view};
use crate::text::chars_of;
use vstd::prelude::*;
use vstd::string::StringExecFns;

verus! {

/// How many lines of text fit a console that is `height` rows high: two
/// rows go to its frame.
pub open spec fn rows_for_text(height: u16) -> nat {
    if height >= 2 {
        (height - 2) as nat
    } else {
        0
    }
}

/// The lines that the console shows of the lines it holds: the empty ones
/// are left out, but for the last line.
pub open spec fn shown(all: Seq<Seq<char>>) -> Seq<Seq<char>> {
    shown_upto(all, all.len())
}

/// The lines that the console shows of the first `n` of the lines it holds.
pub open spec fn shown_upto(all: Seq<Seq<char>>, n: nat) -> Seq<Seq<char>>
    decreases n,
{
    if n == 0 || n > all.len() {
        Seq::empty()
    } else {
        let before = shown_upto(all, (n - 1) as nat);
        if all[n - 1].len() > 0 || n == all.len() {
            before.push(all[n - 1])
        } else {
            before
        }
    }
}

/// The first line of the window: the scroll position, but no further than
/// the end; with automatic scrolling the line from which the rest just
/// fits.
pub open spec fn window_start(total: nat, scroll: usize, rows: nat, auto_scroll: bool) -> nat {
    if auto_scroll {
        if total > rows {
            (total - rows) as nat
        } else {
            0
        }
    } else if scroll as nat > total {
        total
    } else {
        scroll as nat
    }
}

/// The line after the last line of the window.
pub open spec fn window_end(total: nat, start: nat, rows: nat) -> nat {
    if start + rows < total {
        start + rows
    } else {
        total
    }
}

/// The text that the console shows.
pub open spec fn visible_text(info: Seq<char>, scroll: usize, height: u16, auto_scroll: bool)
    -> Seq<char> {
    let all = shown(lines(info));
    let start = window_start(all.len(), scroll, rows_for_text(height), auto_scroll);
    let end = window_end(all.len(), start, rows_for_text(height));
    join(all.subrange(start as int, end as int), seq!['\n'])
}

/// Whether the console needs a scroll bar: it holds more lines than fit.
pub open spec fn overflows(info: Seq<char>, height: u16) -> bool {
    shown(lines(info)).len() > rows_for_text(height)
}

/// The console's text after a message was added: on a new line, unless the
/// console was empty.
pub open spec fn with_message(info: Seq<char>, message: Seq<char>) -> Seq<char> {
    if info.len() == 0 {
        message
    } else {
        info + seq!['\n'] + message
    }
}

/// The console.
#[derive(Debug, PartialEq, Eq)]
pub struct Console {
    /// Everything received so far.
    pub console_info: String,
    /// The first line shown, where the user scrolled.
    pub console_scroll: usize,
    /// Whether the window follows the newest line.
    pub auto_scroll: bool,
}

fn shown_lines(all: &Vec<Vec<char>>) -> (r: Vec<usize>)
    ensures
        r@.len() == shown(pieces_view(all@)).len(),
        forall|k: int|
            0 <= k < r@.len() ==> (#[trigger] r@[k]) < all.len() && all@[r@[k] as int]@ == shown(
                pieces_view(all@),
            )[k],
{
    let mut r: Vec<usize> = Vec::new();
    let mut i: usize = 0;
    let ghost p = pieces_view(all@);
    while i < all.len()
        invariant
            i <= all.len(),
            p == pieces_view(all@),
            r@.len() == shown_upto(p, i as nat).len(),
            forall|k: int|
                0 <= k < r@.len() ==> (#[trigger] r@[k]) < all.len() && all@[r@[k] as int]@
                    == shown_upto(p, i as nat)[k],
        decreases all.len() - i,
    {
        assert(p[i as int] == all@[i as int]@);
        if all[i].len() > 0 || i + 1 == all.len() {
            r.push(i);
        }
        i = i + 1;
    }
    r
}

impl Console {
    /// An empty console that follows the newest line.
    pub fn new() -> (c: Self)
        ensures
            c.console_info@ == Seq::<char>::empty(),
            c.console_scroll == 0,
            c.auto_scroll,
    {
        Console { console_info: String::new(), console_scroll: 0, auto_scroll: true }
    }

    /// Adds a message on a line of its own.
    pub fn add_console_message(&mut self, message: &str)
        ensures
            final(self).console_info@ == with_message(old(self).console_info@, message@),
            final(self).console_scroll == old(self).console_scroll,
            final(self).auto_scroll == old(self).auto_scroll,
    {
        if self.console_info.as_str().unicode_len() > 0 {
            self.console_info.push('\n');
        }
        self.console_info.append(message);
        assert(self.console_info@ =~= with_message(old(self).console_info@, message@));
    }

    /// The number of lines that the console shows, window or not.
    pub fn line_count(&self) -> (n: usize)
        ensures
            n == shown(lines(self.console_info@)).len(),
    {
        let chars = chars_of(self.console_info.as_str());
        let all = lines_of(&chars);
        shown_lines(&all).len()
    }

    /// Whether the console holds more lines than fit `height` rows.
    pub fn needs_scrollbar(&self, height: u16) -> (b: bool)
        ensures
            b == overflows(self.console_info@, height),
    {
        let chars = chars_of(self.console_info.as_str());
        let all = lines_of(&chars);
        let kept = shown_lines(&all);
        let rows: usize = if height >= 2 {
            (height - 2) as usize
        } else {
            0
        };
        kept.len() > rows
    }

    fn visible(&self, height: u16) -> (s: String)
        ensures
            s@ == visible_text(
                self.console_info@,
                self.console_scroll,
                height,
                self.auto_scroll,
            ),
    {
        let chars = chars_of(self.console_info.as_str());
        let all = lines_of(&chars);
        let kept = shown_lines(&all);
        let rows: usize = if height >= 2 {
            (height - 2) as usize
        } else {
            0
        };
        let total = kept.len();
        let start: usize = if self.auto_scroll {
            if total > rows {
                total - rows
            } else {
                0
            }
        } else if self.console_scroll > total {
            total
        } else {
            self.console_scroll
        };
        let end: usize = if rows < total - start {
            start + rows
        } else {
            total
        };
        let ghost window = shown(lines(self.console_info@)).subrange(start as int, end as int);
        let mut s = String::new();
        let mut i: usize = start;
        while i < end
            invariant
                start <= i <= end <= total,
                total == kept@.len(),
                total == shown(pieces_view(all@)).len(),
                pieces_view(all@) == lines(self.console_info@),
                forall|k: int|
                    0 <= k < kept@.len() ==> (#[trigger] kept@[k]) < all.len() && all@[kept@[k] as int]@
                        == shown(pieces_view(all@))[k],
                window == shown(lines(self.console_info@)).subrange(start as int, end as int),
                s@ == join(window.subrange(0, i - start), seq!['\n']),
            decreases end - i,
        {
            assert(window.subrange(0, i - start + 1).drop_last() =~= window.subrange(0, i - start));
            let line = &all[kept[i]];
            assert(line@ == window.subrange(0, i - start + 1).last());
            if i > start {
                s.push('\n');
            }
            let mut k: usize = 0;
            let ghost head = s@;
            while k < line.len()
                invariant
                    k <= line.len(),
                    s@ == head + line@.subrange(0, k as int),
                decreases line.len() - k,
            {
                s.push(line[k]);
                assert(s@ =~= head + line@.subrange(0, k + 1));
                k = k + 1;
            }
            assert(line@.subrange(0, k as int) =~= line@);
            assert(s@ =~= join(window.subrange(0, i - start + 1), seq!['\n']));
            i = i + 1;
        }
        assert(window.subrange(0, i - start) =~= window);
        s
    }
}

/// The text that a console of `height` rows shows: the lines of the window,
/// with line feeds between them.
pub fn render_console(state: &Console, height: u16) -> (s: String)
    ensures
        s@ == visible_text(state.console_info@, state.console_scroll, height, state.auto_scroll),
{
    state.visible(height)
}

} // verus!
