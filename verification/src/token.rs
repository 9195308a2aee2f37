//! The stored accounts: which one is active, how a new one is taken in, and
//! how they are listed.

use crate::scan::{begins_with, matches_at, slice_of, starts_with};
use crate::text::{chars_of, text_of};
use vstd::prelude::*;
use vstd::string::StringExecFns;

verus! {

/// One stored account.
#[derive(Debug, PartialEq, Eq)]
pub struct TokenRecord {
    pub auth_token: String,
    pub mobile_phone: String,
    pub user_agent: String,
    pub active: bool,
}

/// The mathematical content of a [`TokenRecord`].
pub ghost struct TokenRecordView {
    pub auth_token: Seq<char>,
    pub mobile_phone: Seq<char>,
    pub user_agent: Seq<char>,
    pub active: bool,
}

impl View for TokenRecord {
    type V = TokenRecordView;

    open spec fn view(&self) -> TokenRecordView {
        TokenRecordView {
            auth_token: self.auth_token@,
            mobile_phone: self.mobile_phone@,
            user_agent: self.user_agent@,
            active: self.active,
        }
    }
}

/// The stored accounts, in the order in which they were added.
#[derive(Debug, PartialEq, Eq)]
pub struct TokenStorage {
    pub records: Vec<TokenRecord>,
}

impl View for TokenStorage {
    type V = Seq<TokenRecordView>;

    open spec fn view(&self) -> Seq<TokenRecordView> {
        self.records@.map_values(|r: TokenRecord| r@)
    }
}

/// The index of the first active record at or after `from`.
pub open spec fn first_active(records: Seq<TokenRecordView>, from: int) -> Option<int>
    decreases records.len() - from,
{
    if from < 0 || from >= records.len() {
        None
    } else if records[from].active {
        Some(from)
    } else {
        first_active(records, from + 1)
    }
}

/// Whether a record at or after `from` is for the phone number.
pub open spec fn knows_phone(records: Seq<TokenRecordView>, phone: Seq<char>, from: int) -> bool
    decreases records.len() - from,
{
    if from < 0 || from >= records.len() {
        false
    } else if records[from].mobile_phone == phone {
        true
    } else {
        knows_phone(records, phone, from + 1)
    }
}

/// The records after an account was offered: one whose phone number is
/// known changes nothing; another is added at the end, active exactly if it
/// is the first.
pub open spec fn remembered(
    records: Seq<TokenRecordView>,
    token: Seq<char>,
    phone: Seq<char>,
    user_agent: Seq<char>,
) -> Seq<TokenRecordView> {
    if knows_phone(records, phone, 0) {
        records
    } else {
        records.push(
            TokenRecordView {
                auth_token: token,
                mobile_phone: phone,
                user_agent,
                active: records.len() == 0,
            },
        )
    }
}

/// The records after the one at `index` changed between active and not; an
/// index past the end changes nothing.
pub open spec fn toggled(records: Seq<TokenRecordView>, index: int) -> Seq<TokenRecordView> {
    if 0 <= index < records.len() {
        records.update(index, TokenRecordView { active: !records[index].active, ..records[index] })
    } else {
        records
    }
}

/// The line that lists a record: a mark for active or not, then the phone
/// number.
pub open spec fn label_of(record: TokenRecordView) -> Seq<char> {
    if record.active {
        "[*] "@ + record.mobile_phone
    } else {
        "[ ] "@ + record.mobile_phone
    }
}

/// A text without `prefix` at its start, as often as it stands there.
pub open spec fn strip_all(s: Seq<char>, prefix: Seq<char>) -> Seq<char>
    decreases s.len(),
{
    if prefix.len() > 0 && starts_with(s, prefix) {
        strip_all(s.subrange(prefix.len() as int, s.len() as int), prefix)
    } else {
        s
    }
}

/// What a line of the list says: whether it marks an active account, and
/// the text behind the marks.
pub open spec fn label_parts(label: Seq<char>) -> (bool, Seq<char>) {
    (starts_with(label, "[*]"@), strip_all(strip_all(label, "[*] "@), "[ ] "@))
}

/// The lines that list the records.
pub open spec fn labels_of(records: Seq<TokenRecordView>) -> Seq<Seq<char>> {
    records.map_values(|r: TokenRecordView| label_of(r))
}

/// The views of a sequence of texts.
pub open spec fn texts_view(texts: Seq<String>) -> Seq<Seq<char>> {
    texts.map_values(|s: String| s@)
}

impl TokenStorage {
    /// No account.
    pub fn new() -> (s: Self)
        ensures
            s@ == Seq::<TokenRecordView>::empty(),
    {
        let s = TokenStorage { records: Vec::new() };
        assert(s@ =~= Seq::<TokenRecordView>::empty());
        s
    }

    /// The index of the first active record.
    pub fn active_index(&self) -> (r: Option<usize>)
        ensures
            match r {
                Some(i) => Some(i as int),
                None => None,
            } == first_active(self@, 0),
            r matches Some(i) ==> i < self.records.len(),
    {
        let mut i: usize = 0;
        while i < self.records.len()
            invariant
                i <= self.records.len(),
                first_active(self@, 0) == first_active(self@, i as int),
            decreases self.records.len() - i,
        {
            if self.records[i].active {
                return Some(i);
            }
            i = i + 1;
        }
        None
    }

    /// Whether an account with this phone number is stored.
    pub fn knows(&self, phone: &str) -> (b: bool)
        ensures
            b == knows_phone(self@, phone@, 0),
    {
        let mut i: usize = 0;
        while i < self.records.len()
            invariant
                i <= self.records.len(),
                knows_phone(self@, phone@, 0) == knows_phone(self@, phone@, i as int),
            decreases self.records.len() - i,
        {
            if same_text(self.records[i].mobile_phone.as_str(), phone) {
                return true;
            }
            i = i + 1;
        }
        false
    }

    /// Takes in an account after a login: nothing changes where its phone
    /// number is known; else it is added at the end, active exactly if it is
    /// the first. Returns whether it was added.
    pub fn remember(&mut self, token: &str, phone: &str, user_agent: &str) -> (added: bool)
        ensures
            final(self)@ == remembered(old(self)@, token@, phone@, user_agent@),
            added == !knows_phone(old(self)@, phone@, 0),
    {
        if self.knows(phone) {
            return false;
        }
        let active = self.records.len() == 0;
        let record = TokenRecord {
            auth_token: String::from_str(token),
            mobile_phone: String::from_str(phone),
            user_agent: String::from_str(user_agent),
            active,
        };
        self.records.push(record);
        assert(self@ =~= remembered(old(self)@, token@, phone@, user_agent@));
        true
    }

    /// Changes the account at `index` between active and not. Returns
    /// whether there is such an account.
    pub fn toggle(&mut self, index: usize) -> (found: bool)
        ensures
            final(self)@ == toggled(old(self)@, index as int),
            found == (index < old(self)@.len()),
    {
        if index < self.records.len() {
            let r = &self.records[index];
            let changed = TokenRecord {
                auth_token: r.auth_token.clone(),
                mobile_phone: r.mobile_phone.clone(),
                user_agent: r.user_agent.clone(),
                active: !r.active,
            };
            self.records.set(index, changed);
            assert(self@ =~= toggled(old(self)@, index as int));
            true
        } else {
            false
        }
    }

    /// The lines that list the accounts: `[*]` before the phone number of an
    /// active one, `[ ]` before that of another.
    pub fn labels(&self) -> (ls: Vec<String>)
        ensures
            texts_view(ls@) == labels_of(self@),
    {
        let mut ls: Vec<String> = Vec::new();
        let mut i: usize = 0;
        while i < self.records.len()
            invariant
                i <= self.records.len(),
                texts_view(ls@) == labels_of(self@).subrange(0, i as int),
            decreases self.records.len() - i,
        {
            let mut line = if self.records[i].active {
                String::from_str("[*] ")
            } else {
                String::from_str("[ ] ")
            };
            line.append(self.records[i].mobile_phone.as_str());
            let ghost before = ls@;
            ls.push(line);
            assert(texts_view(ls@) =~= texts_view(before).push(line@));
            assert(texts_view(ls@) =~= labels_of(self@).subrange(0, i + 1));
            i = i + 1;
        }
        assert(labels_of(self@).subrange(0, i as int) =~= labels_of(self@));
        ls
    }
}

/// The token of the first active account among the stored ones.
pub fn read_saved_token(storage: &TokenStorage) -> (r: Option<String>)
    ensures
        match first_active(storage@, 0) {
            Some(i) => r matches Some(t) && t@ == storage@[i].auth_token,
            None => r is None,
        },
{
    match storage.active_index() {
        Some(i) => Some(storage.records[i].auth_token.clone()),
        None => None,
    }
}

/// The user agent of the first active account among the stored ones.
pub fn read_saved_user_agent(storage: &TokenStorage) -> (r: Option<String>)
    ensures
        match first_active(storage@, 0) {
            Some(i) => r matches Some(t) && t@ == storage@[i].user_agent,
            None => r is None,
        },
{
    match storage.active_index() {
        Some(i) => Some(storage.records[i].user_agent.clone()),
        None => None,
    }
}

fn stripped(s: Vec<char>, prefix: &Vec<char>) -> (r: Vec<char>)
    ensures
        r@ == strip_all(s@, prefix@),
{
    let mut from: usize = 0;
    if prefix.len() == 0 {
        return s;
    }
    assert(s@.subrange(0, s.len() as int) =~= s@);
    while matches_at(&s, prefix, from)
        invariant
            from <= s.len(),
            prefix.len() > 0,
            strip_all(s@, prefix@) == strip_all(s@.subrange(from as int, s.len() as int), prefix@),
        decreases s.len() - from,
    {
        let ghost rest = s@.subrange(from as int, s.len() as int);
        assert(rest.subrange(0, prefix.len() as int) =~= s@.subrange(
            from as int,
            from + prefix.len(),
        ));
        assert(rest.subrange(prefix.len() as int, rest.len() as int) =~= s@.subrange(
            from + prefix.len(),
            s.len() as int,
        ));
        from = from + prefix.len();
    }
    proof {
        let rest = s@.subrange(from as int, s.len() as int);
        if prefix.len() <= rest.len() {
            assert(rest.subrange(0, prefix.len() as int) =~= s@.subrange(
                from as int,
                from + prefix.len(),
            ));
        }
    }
    slice_of(&s, from, s.len())
}

/// Reads a line of the list: whether it marks an active account, and the
/// text behind the marks.
pub fn split_label(label: &str) -> (r: (bool, String))
    ensures
        r.0 == label_parts(label@).0,
        r.1@ == label_parts(label@).1,
{
    proof {
        reveal_strlit("[*]");
        reveal_strlit("[*] ");
        reveal_strlit("[ ] ");
    }
    let chars = chars_of(label);
    let active = begins_with(&chars, &chars_of("[*]"));
    let rest = stripped(stripped(chars, &chars_of("[*] ")), &chars_of("[ ] "));
    (active, text_of(&rest, 0, rest.len()))
}

/// Whether two texts hold the same characters.
pub fn same_text(a: &str, b: &str) -> (r: bool)
    ensures
        r == (a@ == b@),
{
    let x = String::from_str(a);
    let y = String::from_str(b);
    x == y
}

} // verus!
