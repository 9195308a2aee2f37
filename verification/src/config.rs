//! The settings of the command-line runner: the numbers of the settings
//! file, the daily trigger time, and the account file's content.

use crate::clock::{parsed_time, read_time, TimeOfDay};
use crate::error::ErrorKind;
use crate::number::{parse_unsigned, read_unsigned};
use crate::plan::{ClaimTarget, ClaimTargetView};
use crate::scan::{
    begins_with, lines, lines_of, pieces_view, slice_of, split_first, split_once, starts_with,
    trim, trimmed,
};
use crate::text::{chars_of, text_of};
use vstd::prelude::*;

verus! {

/// The numbers that size the runner.
#[derive(Clone, Copy, Debug, PartialEq, Eq, Structural)]
pub struct AppConfig {
    /// How many requests may be on their way at once.
    pub thread: usize,
    /// The worker threads of the runtime.
    pub thread_num: usize,
    /// The requests sent at each trigger.
    pub send_num: usize,
}

/// The headers that an account file supplies.
#[derive(Debug, PartialEq, Eq)]
pub struct HeaderConfig {
    pub auth_token: String,
    pub user_agent: String,
}

/// The claim that an account file asks for.
#[derive(Debug, PartialEq, Eq)]
pub struct BodyConfig {
    pub community_id: String,
    pub red_pack_task_id: String,
    pub zone_id: String,
}

/// An account file.
#[derive(Debug, PartialEq, Eq)]
pub struct ConfigFile {
    pub header: HeaderConfig,
    pub body: BodyConfig,
}

impl Clone for HeaderConfig {
    fn clone(&self) -> (r: Self)
        ensures
            r.auth_token@ == self.auth_token@,
            r.user_agent@ == self.user_agent@,
    {
        HeaderConfig { auth_token: self.auth_token.clone(), user_agent: self.user_agent.clone() }
    }
}

impl Clone for BodyConfig {
    fn clone(&self) -> (r: Self)
        ensures
            r.community_id@ == self.community_id@,
            r.red_pack_task_id@ == self.red_pack_task_id@,
            r.zone_id@ == self.zone_id@,
    {
        BodyConfig {
            community_id: self.community_id.clone(),
            red_pack_task_id: self.red_pack_task_id.clone(),
            zone_id: self.zone_id.clone(),
        }
    }
}

impl BodyConfig {
    /// The target that the account file asks to claim.
    pub fn target(&self) -> (t: ClaimTarget)
        ensures
            t@ == (ClaimTargetView {
                community_id: self.community_id@,
                zone: self.zone_id@,
                task_id: self.red_pack_task_id@,
            }),
    {
        ClaimTarget {
            community_id: self.community_id.clone(),
            zone: self.zone_id.clone(),
            task_id: self.red_pack_task_id.clone(),
        }
    }
}

/// The key and the value that a line of the settings file defines: the line
/// is trimmed, an empty line and one that begins with `#` define nothing,
/// and else the text is cut at its first `=` and both sides are trimmed.
pub open spec fn ini_entry(line: Seq<char>) -> Option<(Seq<char>, Seq<char>)> {
    let t = trim(line);
    if t.len() == 0 || t[0] == '#' {
        None
    } else {
        match split_once(t, '=') {
            Some((k, v)) => Some((trim(k), trim(v))),
            None => None,
        }
    }
}

/// The value that the lines give to `key`: that of the last line which
/// defines it.
pub open spec fn ini_lookup(lines: Seq<Seq<char>>, key: Seq<char>) -> Option<Seq<char>>
    decreases lines.len(),
{
    if lines.len() == 0 {
        None
    } else {
        match ini_entry(lines.last()) {
            Some((k, v)) if k == key => Some(v),
            _ => ini_lookup(lines.drop_last(), key),
        }
    }
}

/// The number that the lines give to `key`, or `default` where they give
/// none or what they give is no number that fits.
pub open spec fn ini_number(lines: Seq<Seq<char>>, key: Seq<char>, default: usize) -> usize {
    match ini_lookup(lines, key) {
        Some(v) => match parse_unsigned(v, usize::MAX as nat) {
            Some(n) => n as usize,
            None => default,
        },
        None => default,
    }
}

/// The settings that the text of a settings file gives.
pub open spec fn ini_config(content: Seq<char>) -> AppConfig {
    AppConfig {
        thread: ini_number(lines(content), "thread"@, 10),
        thread_num: ini_number(lines(content), "thread_num"@, 2),
        send_num: ini_number(lines(content), "send_num"@, 1),
    }
}

/// The trigger time that a line sets: what follows `time=` at the start of
/// the trimmed line, trimmed again.
pub open spec fn time_entry(line: Seq<char>) -> Option<Seq<char>> {
    let t = trim(line);
    if starts_with(t, "time="@) {
        Some(trim(t.subrange(5, t.len() as int)))
    } else {
        None
    }
}

/// The trigger time that the lines set: that of the last line which sets
/// one.
pub open spec fn time_lookup(lines: Seq<Seq<char>>) -> Option<Seq<char>>
    decreases lines.len(),
{
    if lines.len() == 0 {
        None
    } else {
        match time_entry(lines.last()) {
            Some(v) => Some(v),
            None => time_lookup(lines.drop_last()),
        }
    }
}

/// The trigger time where the settings file sets none.
pub open spec fn default_trigger() -> TimeOfDay {
    TimeOfDay { hour: 18, minute: 59, second: 59 }
}

/// The text of the trigger time that a settings file sets.
pub open spec fn trigger_text(content: Seq<char>) -> Seq<char> {
    match time_lookup(lines(content)) {
        Some(v) => v,
        None => "18:59:59"@,
    }
}

/// The trigger time that is chosen: the default where none is set, the time
/// that was read where one is set, and an error where one is set that could
/// not be read.
pub open spec fn chosen(is_set: bool, read: Option<TimeOfDay>) -> Result<TimeOfDay, ErrorKind> {
    if !is_set {
        Ok(default_trigger())
    } else {
        match read {
            Some(t) => Ok(t),
            None => Err(ErrorKind::InvalidTarget),
        }
    }
}

/// The daily trigger time that a settings file sets: the default where it
/// sets none, and an error where what it sets is no hour, minute and second.
pub open spec fn trigger_time(content: Seq<char>) -> Result<TimeOfDay, ErrorKind> {
    match time_lookup(lines(content)) {
        None => Ok(default_trigger()),
        Some(text) => chosen(true, parsed_time(text, "%H:%M:%S"@)),
    }
}

fn same_chars(a: &Vec<char>, b: &Vec<char>) -> (r: bool)
    ensures
        r == (a@ == b@),
{
    if a.len() != b.len() {
        return false;
    }
    let r = begins_with(a, b);
    assert(a@.subrange(0, b@.len() as int) =~= a@);
    r
}

fn entry_of(line: &Vec<char>) -> (r: Option<(Vec<char>, Vec<char>)>)
    ensures
        match r {
            Some(e) => Some((e.0@, e.1@)),
            None => None,
        } == ini_entry(line@),
{
    let t = trimmed(line);
    if t.len() == 0 || t[0] == '#' {
        return None;
    }
    match split_first(&t, '=') {
        Some((k, v)) => Some((trimmed(&k), trimmed(&v))),
        None => None,
    }
}

fn lookup(lines: &Vec<Vec<char>>, key: &str) -> (r: Option<Vec<char>>)
    ensures
        match r {
            Some(v) => Some(v@),
            None => None,
        } == ini_lookup(pieces_view(lines@), key@),
{
    let key_chars = chars_of(key);
    let mut i: usize = lines.len();
    assert(pieces_view(lines@).subrange(0, i as int) =~= pieces_view(lines@));
    while i > 0
        invariant
            i <= lines.len(),
            key_chars@ == key@,
            ini_lookup(pieces_view(lines@), key@) == ini_lookup(
                pieces_view(lines@).subrange(0, i as int),
                key@,
            ),
        decreases i,
    {
        assert(pieces_view(lines@).subrange(0, i as int).last() == lines@[i - 1]@);
        assert(pieces_view(lines@).subrange(0, i as int).drop_last() =~= pieces_view(
            lines@,
        ).subrange(0, i - 1));
        match entry_of(&lines[i - 1]) {
            Some((k, v)) => {
                if same_chars(&k, &key_chars) {
                    return Some(v);
                }
            },
            None => {},
        }
        i = i - 1;
    }
    assert(pieces_view(lines@).subrange(0, 0) =~= Seq::<Seq<char>>::empty());
    None
}

fn number(lines: &Vec<Vec<char>>, key: &str, default: usize) -> (n: usize)
    ensures
        n == ini_number(pieces_view(lines@), key@, default),
{
    match lookup(lines, key) {
        Some(v) => match read_unsigned(&v, usize::MAX as u64) {
            Some(n) => n as usize,
            None => default,
        },
        None => default,
    }
}

impl AppConfig {
    /// Reads the settings from the text of a settings file. A key that the
    /// text does not define, or defines as no number, has its default: 10
    /// for `thread`, 2 for `thread_num`, 1 for `send_num`.
    pub fn from_ini(content: &str) -> (c: AppConfig)
        ensures
            c == ini_config(content@),
    {
        let chars = chars_of(content);
        let ls = lines_of(&chars);
        AppConfig {
            thread: number(&ls, "thread", 10),
            thread_num: number(&ls, "thread_num", 2),
            send_num: number(&ls, "send_num", 1),
        }
    }
}

fn time_of_line(line: &Vec<char>) -> (r: Option<Vec<char>>)
    ensures
        match r {
            Some(v) => Some(v@),
            None => None,
        } == time_entry(line@),
{
    let t = trimmed(line);
    let prefix = chars_of("time=");
    proof {
        reveal_strlit("time=");
    }
    if begins_with(&t, &prefix) {
        let rest = slice_of(&t, 5, t.len());
        Some(trimmed(&rest))
    } else {
        None
    }
}

/// The trigger time that a settings file sets, as it stands there: what the
/// last `time=` line gives, if there is one.
pub fn read_trigger_setting(content: &str) -> (r: Option<String>)
    ensures
        match r {
            Some(s) => Some(s@),
            None => None,
        } == time_lookup(lines(content@)),
{
    let chars = chars_of(content);
    let ls = lines_of(&chars);
    let mut i: usize = ls.len();
    assert(lines(content@).subrange(0, i as int) =~= lines(content@));
    while i > 0
        invariant
            i <= ls.len(),
            pieces_view(ls@) == lines(content@),
            time_lookup(lines(content@)) == time_lookup(lines(content@).subrange(0, i as int)),
        decreases i,
    {
        assert(lines(content@).subrange(0, i as int).last() == ls@[i - 1]@);
        assert(lines(content@).subrange(0, i as int).drop_last() =~= lines(content@).subrange(
            0,
            i - 1,
        ));
        match time_of_line(&ls[i - 1]) {
            Some(v) => {
                return Some(text_of(&v, 0, v.len()));
            },
            None => {},
        }
        i = i - 1;
    }
    assert(lines(content@).subrange(0, 0) =~= Seq::<Seq<char>>::empty());
    None
}

/// The text of the trigger time that a settings file sets: what the last
/// `time=` line gives, or `18:59:59`.
pub fn read_trigger_text(content: &str) -> (s: String)
    ensures
        s@ == trigger_text(content@),
{
    match read_trigger_setting(content) {
        Some(s) => s,
        None => "18:59:59".to_owned(),
    }
}

/// The trigger time that is chosen: 18:59:59 where none is set, the time
/// that was read where one is set, and `InvalidTarget` where one is set that
/// could not be read.
pub fn chosen_trigger(is_set: bool, read: Option<TimeOfDay>) -> (r: Result<TimeOfDay, ErrorKind>)
    ensures
        r == chosen(is_set, read),
{
    if !is_set {
        Ok(TimeOfDay { hour: 18, minute: 59, second: 59 })
    } else {
        match read {
            Some(t) => Ok(t),
            None => Err(ErrorKind::InvalidTarget),
        }
    }
}

/// The daily trigger time that a settings file sets: 18:59:59 where it sets
/// none. A time that is set but cannot be read as hour, minute and second
/// is an error, not another time.
pub fn read_trigger_time(content: &str) -> (r: Result<TimeOfDay, ErrorKind>)
    ensures
        r == trigger_time(content@),
{
    match read_trigger_setting(content) {
        None => chosen_trigger(false, None),
        Some(text) => chosen_trigger(true, read_time(text.as_str(), "%H:%M:%S")),
    }
}

} // verus!
