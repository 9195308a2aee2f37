//! Scanning text: white space, separators, pieces and lines, as `str` has
//! them.

use vstd::prelude::*;

verus! {

/// Whether a character is white space.
pub open spec fn is_space(c: char) -> bool {
    let n = c as u32;
    n == 0x20 || (0x09 <= n && n <= 0x0d) || n == 0x85 || n == 0xa0 || n == 0x1680 || (0x2000 <= n
        && n <= 0x200a) || n == 0x2028 || n == 0x2029 || n == 0x202f || n == 0x205f || n == 0x3000
}

/// Whether a character is white space.
pub fn space(c: char) -> (b: bool)
    ensures
        b == is_space(c),
{
    let n = c as u32;
    n == 0x20 || (0x09 <= n && n <= 0x0d) || n == 0x85 || n == 0xa0 || n == 0x1680 || (0x2000 <= n
        && n <= 0x200a) || n == 0x2028 || n == 0x2029 || n == 0x202f || n == 0x205f || n == 0x3000
}

/// The first index at or after `from` that holds `c`; the length where none
/// does.
pub open spec fn find_char(s: Seq<char>, c: char, from: int) -> int
    decreases s.len() - from,
{
    if from < 0 || from >= s.len() {
        s.len() as int
    } else if s[from] == c {
        from
    } else {
        find_char(s, c, from + 1)
    }
}

/// The first index at or after `from` that holds no white space; the length
/// where none does.
pub open spec fn skip_spaces(s: Seq<char>, from: int) -> int
    decreases s.len() - from,
{
    if from < 0 || from >= s.len() {
        s.len() as int
    } else if !is_space(s[from]) {
        from
    } else {
        skip_spaces(s, from + 1)
    }
}

/// The first index at or after `from` that holds white space; the length
/// where none does.
pub open spec fn find_space(s: Seq<char>, from: int) -> int
    decreases s.len() - from,
{
    if from < 0 || from >= s.len() {
        s.len() as int
    } else if is_space(s[from]) {
        from
    } else {
        find_space(s, from + 1)
    }
}

/// The end of the text before `to` once the white space at its end is taken
/// off: the largest index up to `to` that is 0 or follows a character that
/// is no white space.
pub open spec fn skip_spaces_back(s: Seq<char>, to: int) -> int
    decreases to,
{
    if to <= 0 || to > s.len() {
        0
    } else if !is_space(s[to - 1]) {
        to
    } else {
        skip_spaces_back(s, to - 1)
    }
}

/// A text without the white space at its start and at its end.
pub open spec fn trim(s: Seq<char>) -> Seq<char> {
    let a = skip_spaces(s, 0);
    let b = skip_spaces_back(s, s.len() as int);
    if a >= b {
        Seq::empty()
    } else {
        s.subrange(a, b)
    }
}

/// The pieces of a text between the occurrences of `sep` from `start` on,
/// where the text up to `at` holds no further `sep`.
pub open spec fn split_scan(s: Seq<char>, sep: char, start: int, at: int) -> Seq<Seq<char>>
    decreases s.len() - at,
{
    if at < 0 || at >= s.len() {
        seq![s.subrange(start, s.len() as int)]
    } else if s[at] == sep {
        seq![s.subrange(start, at)] + split_scan(s, sep, at + 1, at + 1)
    } else {
        split_scan(s, sep, start, at + 1)
    }
}

/// The pieces of a text between the occurrences of `sep`: one more than
/// there are occurrences, empty ones included.
pub open spec fn split(s: Seq<char>, sep: char) -> Seq<Seq<char>> {
    split_scan(s, sep, 0, 0)
}

/// Texts joined with a separator between each two.
pub open spec fn join(pieces: Seq<Seq<char>>, sep: Seq<char>) -> Seq<char>
    decreases pieces.len(),
{
    if pieces.len() == 0 {
        Seq::empty()
    } else if pieces.len() == 1 {
        pieces[0]
    } else {
        join(pieces.drop_last(), sep) + sep + pieces.last()
    }
}

/// Whether no piece holds the character.
pub open spec fn free_of(pieces: Seq<Seq<char>>, c: char) -> bool {
    forall|i: int, k: int|
        0 <= i < pieces.len() && 0 <= k < pieces[i].len() ==> (#[trigger] pieces[i][k]) != c
}

/// A text without the carriage return at its end, where it has one.
pub open spec fn strip_cr(s: Seq<char>) -> Seq<char> {
    if s.len() > 0 && s.last() == '\r' {
        s.drop_last()
    } else {
        s
    }
}

/// The lines of a text: it is split at each line feed, a carriage return
/// before a line feed goes with it, and what follows the last line feed is a
/// line only if it is not empty.
pub open spec fn lines(s: Seq<char>) -> Seq<Seq<char>> {
    let pieces = split(s, '\n');
    let ended = Seq::new((pieces.len() - 1) as nat, |i: int| strip_cr(pieces[i]));
    if pieces.last().len() == 0 {
        ended
    } else {
        ended.push(pieces.last())
    }
}

/// The text before the first `sep` and the text after it; `None` where the
/// text holds no `sep`.
pub open spec fn split_once(s: Seq<char>, sep: char) -> Option<(Seq<char>, Seq<char>)> {
    let j = find_char(s, sep, 0);
    if j >= s.len() {
        None
    } else {
        Some((s.subrange(0, j), s.subrange(j + 1, s.len() as int)))
    }
}

/// Whether a text begins with `prefix`.
pub open spec fn starts_with(s: Seq<char>, prefix: Seq<char>) -> bool {
    prefix.len() <= s.len() && s.subrange(0, prefix.len() as int) == prefix
}

/// Whether `needle` occurs in a text at index `at`.
pub open spec fn occurs_at(s: Seq<char>, needle: Seq<char>, at: int) -> bool {
    0 <= at && at + needle.len() <= s.len() && s.subrange(at, at + needle.len()) == needle
}

/// Whether `needle` occurs in a text.
pub open spec fn contains_text(s: Seq<char>, needle: Seq<char>) -> bool {
    exists|at: int| occurs_at(s, needle, at)
}

/// The first run of characters that are no white space; `None` where the
/// text has none.
pub open spec fn first_word(s: Seq<char>) -> Option<Seq<char>> {
    let a = skip_spaces(s, 0);
    if a >= s.len() {
        None
    } else {
        Some(s.subrange(a, find_space(s, a)))
    }
}

/// The views of a sequence of character vectors.
pub open spec fn pieces_view(pieces: Seq<Vec<char>>) -> Seq<Seq<char>> {
    pieces.map_values(|p: Vec<char>| p@)
}

/// Where a scan for a character ends: at or after its start, within the
/// text, on the character if it ends in the text, and past no earlier one.
pub proof fn lemma_find_char(s: Seq<char>, c: char, from: int)
    requires
        0 <= from <= s.len(),
    ensures
        from <= find_char(s, c, from) <= s.len(),
        find_char(s, c, from) < s.len() ==> s[find_char(s, c, from)] == c,
        forall|k: int| from <= k < find_char(s, c, from) ==> s[k] != c,
    decreases s.len() - from,
{
    if from < s.len() && s[from] != c {
        lemma_find_char(s, c, from + 1);
    }
}

/// Where a scan over white space ends.
pub proof fn lemma_skip_spaces(s: Seq<char>, from: int)
    requires
        0 <= from <= s.len(),
    ensures
        from <= skip_spaces(s, from) <= s.len(),
        skip_spaces(s, from) < s.len() ==> !is_space(s[skip_spaces(s, from)]),
        forall|k: int| from <= k < skip_spaces(s, from) ==> is_space(s[k]),
    decreases s.len() - from,
{
    if from < s.len() && is_space(s[from]) {
        lemma_skip_spaces(s, from + 1);
    }
}

/// Where a scan for white space ends.
pub proof fn lemma_find_space(s: Seq<char>, from: int)
    requires
        0 <= from <= s.len(),
    ensures
        from <= find_space(s, from) <= s.len(),
        find_space(s, from) < s.len() ==> is_space(s[find_space(s, from)]),
        forall|k: int| from <= k < find_space(s, from) ==> !is_space(s[k]),
    decreases s.len() - from,
{
    if from < s.len() && !is_space(s[from]) {
        lemma_find_space(s, from + 1);
    }
}

/// Where a backward scan over white space ends.
pub proof fn lemma_skip_spaces_back(s: Seq<char>, to: int)
    requires
        0 <= to <= s.len(),
    ensures
        0 <= skip_spaces_back(s, to) <= to,
        skip_spaces_back(s, to) > 0 ==> !is_space(s[skip_spaces_back(s, to) - 1]),
        forall|k: int| skip_spaces_back(s, to) <= k < to ==> is_space(s[k]),
    decreases to,
{
    if to > 0 && is_space(s[to - 1]) {
        lemma_skip_spaces_back(s, to - 1);
    }
}

proof fn lemma_join_first(pieces: Seq<Seq<char>>, sep: Seq<char>)
    requires
        pieces.len() >= 2,
    ensures
        join(pieces, sep) == pieces[0] + sep + join(pieces.drop_first(), sep),
    decreases pieces.len(),
{
    let front = pieces.drop_last();
    let back = pieces.drop_first();
    if pieces.len() == 2 {
        assert(front.len() == 1 && back.len() == 1);
        assert(join(front, sep) == pieces[0]);
        assert(join(back, sep) == pieces[1]);
    } else {
        lemma_join_first(front, sep);
        assert(front.drop_first() =~= back.drop_last());
        assert(front[0] == pieces[0]);
        assert(back.last() == pieces.last());
        assert(join(pieces, sep) =~= pieces[0] + sep + join(back, sep));
    }
}

proof fn lemma_split_scan(s: Seq<char>, sep: char, start: int, at: int)
    requires
        0 <= start <= at <= s.len(),
        forall|k: int| start <= k < at ==> s[k] != sep,
    ensures
        split_scan(s, sep, start, at).len() >= 1,
        join(split_scan(s, sep, start, at), seq![sep]) == s.subrange(start, s.len() as int),
        free_of(split_scan(s, sep, start, at), sep),
    decreases s.len() - at,
{
    if at >= s.len() {
        assert(split_scan(s, sep, start, at)[0] == s.subrange(start, s.len() as int));
    } else if s[at] == sep {
        let rest = split_scan(s, sep, at + 1, at + 1);
        lemma_split_scan(s, sep, at + 1, at + 1);
        let all = seq![s.subrange(start, at)] + rest;
        assert(split_scan(s, sep, start, at) == all);
        lemma_join_first(all, seq![sep]);
        assert(all.drop_first() =~= rest);
        assert(all[0] == s.subrange(start, at));
        assert(join(all, seq![sep]) =~= s.subrange(start, s.len() as int));
        assert forall|i: int, k: int| 0 <= i < all.len() && 0 <= k < all[i].len() implies (
        #[trigger] all[i][k]) != sep by {
            if i > 0 {
                assert(all[i] == rest[i - 1]);
                assert(rest[i - 1][k] != sep);
            }
        }
    } else {
        lemma_split_scan(s, sep, start, at + 1);
    }
}

/// Cutting a text at a separator loses nothing and leaves no separator
/// behind: the pieces, joined with the separator between each two, are the
/// text again, and no piece holds the separator.
pub proof fn lemma_split_joins(s: Seq<char>, sep: char)
    ensures
        split(s, sep).len() >= 1,
        join(split(s, sep), seq![sep]) == s,
        free_of(split(s, sep), sep),
{
    lemma_split_scan(s, sep, 0, 0);
    assert(s.subrange(0, s.len() as int) =~= s);
}

proof fn lemma_split_skip(s: Seq<char>, sep: char, start: int, at: int, to: int)
    requires
        0 <= at <= to <= s.len(),
        forall|k: int| at <= k < to ==> s[k] != sep,
    ensures
        split_scan(s, sep, start, at) == split_scan(s, sep, start, to),
    decreases to - at,
{
    if at < to {
        lemma_split_skip(s, sep, start, at + 1, to);
    }
}

proof fn lemma_split_shift(a: Seq<char>, b: Seq<char>, sep: char, start: int, at: int)
    requires
        0 <= start <= at <= b.len(),
    ensures
        split_scan(a + b, sep, a.len() + start, a.len() + at) == split_scan(b, sep, start, at),
    decreases b.len() - at,
{
    let s = a + b;
    if at >= b.len() {
        assert(s.subrange(a.len() + start, s.len() as int) =~= b.subrange(start, b.len() as int));
    } else {
        assert(s[a.len() + at] == b[at]);
        if b[at] == sep {
            lemma_split_shift(a, b, sep, at + 1, at + 1);
            assert(s.subrange(a.len() + start, a.len() + at) =~= b.subrange(start, at));
        } else {
            lemma_split_shift(a, b, sep, start, at + 1);
        }
    }
}

/// The empty text is one empty piece.
pub proof fn lemma_split_empty(sep: char)
    ensures
        split(Seq::<char>::empty(), sep) == seq![Seq::<char>::empty()],
{
    let empty = Seq::<char>::empty();
    assert(empty.subrange(0, 0) =~= empty);
}

/// Joining pieces that hold no separator and cutting the text at the
/// separator gives the pieces again.
pub proof fn lemma_join_splits(pieces: Seq<Seq<char>>, sep: char)
    requires
        pieces.len() >= 1,
        free_of(pieces, sep),
    ensures
        split(join(pieces, seq![sep]), sep) == pieces,
    decreases pieces.len(),
{
    let t = join(pieces, seq![sep]);
    let first = pieces[0];
    assert forall|k: int| 0 <= k < first.len() implies first[k] != sep by {
        assert(pieces[0][k] != sep);
    }
    if pieces.len() == 1 {
        assert(t == first);
        lemma_split_skip(t, sep, 0, 0, t.len() as int);
        assert(t.subrange(0, t.len() as int) =~= t);
        assert(split(t, sep) =~= pieces);
    } else {
        let rest = pieces.drop_first();
        lemma_join_first(pieces, seq![sep]);
        let tail = join(rest, seq![sep]);
        assert(free_of(rest, sep)) by {
            assert forall|i: int, k: int| 0 <= i < rest.len() && 0 <= k < rest[i].len() implies (
            #[trigger] rest[i][k]) != sep by {
                assert(rest[i] == pieces[i + 1]);
                assert(pieces[i + 1][k] != sep);
            }
        }
        lemma_join_splits(rest, sep);
        let head = first + seq![sep];
        assert(t =~= head + tail);
        assert forall|k: int| 0 <= k < first.len() implies t[k] != sep by {
            assert(t[k] == first[k]);
        }
        lemma_split_skip(t, sep, 0, 0, first.len() as int);
        assert(t[first.len() as int] == sep);
        lemma_split_shift(head, tail, sep, 0, 0);
        assert(t.subrange(0, first.len() as int) =~= first);
        assert(split(t, sep) =~= seq![first] + split(tail, sep));
        assert(split(t, sep) =~= pieces);
    }
}

/// The first index at or after `from` that holds `c`.
pub fn position(s: &Vec<char>, c: char, from: usize) -> (j: usize)
    ensures
        j == find_char(s@, c, from as int),
        from <= s.len() ==> from <= j <= s.len(),
        j < s.len() ==> s@[j as int] == c,
        forall|k: int| from <= k < j ==> s@[k] != c,
{
    if from >= s.len() {
        return s.len();
    }
    proof {
        lemma_find_char(s@, c, from as int);
    }
    let mut j: usize = from;
    while j < s.len() && s[j] != c
        invariant
            from <= j <= s.len(),
            find_char(s@, c, from as int) == find_char(s@, c, j as int),
        decreases s.len() - j,
    {
        j = j + 1;
    }
    j
}

/// The first index at or after `from` that holds no white space.
pub fn after_spaces(s: &Vec<char>, from: usize) -> (j: usize)
    ensures
        j == skip_spaces(s@, from as int),
        from <= s.len() ==> from <= j <= s.len(),
        j < s.len() ==> !is_space(s@[j as int]),
        forall|k: int| from <= k < j ==> is_space(s@[k]),
{
    if from >= s.len() {
        return s.len();
    }
    proof {
        lemma_skip_spaces(s@, from as int);
    }
    let mut j: usize = from;
    while j < s.len() && space(s[j])
        invariant
            from <= j <= s.len(),
            skip_spaces(s@, from as int) == skip_spaces(s@, j as int),
        decreases s.len() - j,
    {
        j = j + 1;
    }
    j
}

/// The first index at or after `from` that holds white space.
pub fn next_space(s: &Vec<char>, from: usize) -> (j: usize)
    ensures
        j == find_space(s@, from as int),
        from <= s.len() ==> from <= j <= s.len(),
        j < s.len() ==> is_space(s@[j as int]),
        forall|k: int| from <= k < j ==> !is_space(s@[k]),
{
    if from >= s.len() {
        return s.len();
    }
    proof {
        lemma_find_space(s@, from as int);
    }
    let mut j: usize = from;
    while j < s.len() && !space(s[j])
        invariant
            from <= j <= s.len(),
            find_space(s@, from as int) == find_space(s@, j as int),
        decreases s.len() - j,
    {
        j = j + 1;
    }
    j
}

/// The end of the text before `to` without the white space at its end.
pub fn before_spaces(s: &Vec<char>, to: usize) -> (j: usize)
    ensures
        j == skip_spaces_back(s@, to as int),
        j <= to,
        to <= s.len() && j > 0 ==> !is_space(s@[j - 1]),
        to <= s.len() ==> forall|k: int| j <= k < to ==> is_space(s@[k]),
{
    if to > s.len() {
        return 0;
    }
    proof {
        lemma_skip_spaces_back(s@, to as int);
    }
    let mut j: usize = to;
    while j > 0 && space(s[j - 1])
        invariant
            j <= to <= s.len(),
            skip_spaces_back(s@, to as int) == skip_spaces_back(s@, j as int),
        decreases j,
    {
        j = j - 1;
    }
    j
}

/// A copy of the characters from `from` up to `to`.
pub(crate) fn slice_of(s: &Vec<char>, from: usize, to: usize) -> (r: Vec<char>)
    requires
        from <= to <= s.len(),
    ensures
        r@ == s@.subrange(from as int, to as int),
{
    let mut r: Vec<char> = Vec::new();
    let mut i: usize = from;
    while i < to
        invariant
            from <= i <= to <= s.len(),
            r@ == s@.subrange(from as int, i as int),
        decreases to - i,
    {
        r.push(s[i]);
        assert(r@ =~= s@.subrange(from as int, i + 1));
        i = i + 1;
    }
    r
}

/// The text without the white space at its start and at its end.
pub fn trimmed(s: &Vec<char>) -> (r: Vec<char>)
    ensures
        r@ == trim(s@),
{
    let a = after_spaces(s, 0);
    let b = before_spaces(s, s.len());
    if a >= b {
        Vec::new()
    } else {
        slice_of(s, a, b)
    }
}

/// The pieces of a text between the occurrences of `sep`.
pub fn split_on(s: &Vec<char>, sep: char) -> (pieces: Vec<Vec<char>>)
    ensures
        pieces_view(pieces@) == split(s@, sep),
        pieces@.len() >= 1,
{
    let mut pieces: Vec<Vec<char>> = Vec::new();
    let mut start: usize = 0;
    let mut at: usize = 0;
    while at < s.len()
        invariant
            start <= at <= s.len(),
            split(s@, sep) == pieces_view(pieces@) + split_scan(s@, sep, start as int, at as int),
        decreases s.len() - at,
    {
        if s[at] == sep {
            let piece = slice_of(s, start, at);
            let ghost before = pieces@;
            pieces.push(piece);
            assert(pieces_view(pieces@) =~= pieces_view(before).push(piece@));
            assert(split(s@, sep) =~= pieces_view(pieces@) + split_scan(
                s@,
                sep,
                at + 1,
                at + 1,
            ));
            start = at + 1;
        }
        at = at + 1;
    }
    let piece = slice_of(s, start, s.len());
    let ghost before = pieces@;
    pieces.push(piece);
    assert(pieces_view(pieces@) =~= pieces_view(before).push(piece@));
    assert(pieces_view(pieces@) =~= split(s@, sep));
    pieces
}

/// The lines of a text.
pub fn lines_of(s: &Vec<char>) -> (ls: Vec<Vec<char>>)
    ensures
        pieces_view(ls@) == lines(s@),
{
    let pieces = split_on(s, '\n');
    let n = pieces.len() - 1;
    let mut ls: Vec<Vec<char>> = Vec::new();
    let mut i: usize = 0;
    while i < n
        invariant
            i <= n,
            n + 1 == pieces.len(),
            pieces_view(pieces@) == split(s@, '\n'),
            pieces_view(ls@) == Seq::new(i as nat, |k: int| strip_cr(split(s@, '\n')[k])),
        decreases n - i,
    {
        let p = &pieces[i];
        assert(p@ == pieces_view(pieces@)[i as int]);
        let line = if p.len() > 0 && p[p.len() - 1] == '\r' {
            slice_of(p, 0, p.len() - 1)
        } else {
            slice_of(p, 0, p.len())
        };
        assert(line@ =~= strip_cr(p@));
        let ghost before = ls@;
        ls.push(line);
        assert(pieces_view(ls@) =~= pieces_view(before).push(line@));
        assert(pieces_view(ls@) =~= Seq::new(
            (i + 1) as nat,
            |k: int| strip_cr(split(s@, '\n')[k]),
        ));
        i = i + 1;
    }
    let last = &pieces[n];
    assert(last@ == pieces_view(pieces@)[n as int]);
    assert(pieces_view(pieces@).last() == last@);
    if last.len() > 0 {
        let line = slice_of(last, 0, last.len());
        assert(line@ =~= last@);
        let ghost before = ls@;
        ls.push(line);
        assert(pieces_view(ls@) =~= pieces_view(before).push(line@));
    }
    ls
}

/// The text before the first `sep` and the text after it.
pub fn split_first(s: &Vec<char>, sep: char) -> (r: Option<(Vec<char>, Vec<char>)>)
    ensures
        match r {
            Some(p) => Some((p.0@, p.1@)),
            None => None,
        } == split_once(s@, sep),
{
    let j = position(s, sep, 0);
    if j >= s.len() {
        None
    } else {
        Some((slice_of(s, 0, j), slice_of(s, j + 1, s.len())))
    }
}

/// Whether the text begins with `prefix`.
pub fn begins_with(s: &Vec<char>, prefix: &Vec<char>) -> (b: bool)
    ensures
        b == starts_with(s@, prefix@),
{
    if prefix.len() > s.len() {
        return false;
    }
    let mut i: usize = 0;
    while i < prefix.len()
        invariant
            i <= prefix.len() <= s.len(),
            s@.subrange(0, i as int) == prefix@.subrange(0, i as int),
        decreases prefix.len() - i,
    {
        if s[i] != prefix[i] {
            assert(s@.subrange(0, prefix.len() as int)[i as int] != prefix@[i as int]);
            return false;
        }
        assert(s@.subrange(0, i + 1) =~= s@.subrange(0, i as int).push(s@[i as int]));
        assert(prefix@.subrange(0, i + 1) =~= prefix@.subrange(0, i as int).push(prefix@[i as int]));
        i = i + 1;
    }
    assert(prefix@.subrange(0, i as int) =~= prefix@);
    true
}

/// Whether `needle` occurs in the text at index `at`.
pub fn matches_at(s: &Vec<char>, needle: &Vec<char>, at: usize) -> (b: bool)
    ensures
        b == occurs_at(s@, needle@, at as int),
{
    if at > s.len() || needle.len() > s.len() - at {
        return false;
    }
    let mut i: usize = 0;
    while i < needle.len()
        invariant
            i <= needle.len(),
            at + needle.len() <= s.len(),
            s@.subrange(at as int, at + i) == needle@.subrange(0, i as int),
        decreases needle.len() - i,
    {
        if s[at + i] != needle[i] {
            assert(s@.subrange(at as int, at + needle.len())[i as int] != needle@[i as int]);
            return false;
        }
        assert(s@.subrange(at as int, at + i + 1) =~= s@.subrange(at as int, at + i).push(
            s@[at + i],
        ));
        assert(needle@.subrange(0, i + 1) =~= needle@.subrange(0, i as int).push(needle@[i as int]));
        i = i + 1;
    }
    assert(needle@.subrange(0, i as int) =~= needle@);
    true
}

/// Whether `needle` occurs in the text.
pub fn holds_text(s: &Vec<char>, needle: &Vec<char>) -> (b: bool)
    ensures
        b == contains_text(s@, needle@),
{
    if needle.len() > s.len() {
        assert forall|at: int| !occurs_at(s@, needle@, at) by {}
        return false;
    }
    if needle.len() == 0 {
        assert(occurs_at(s@, needle@, 0)) by {
            assert(s@.subrange(0, 0) =~= needle@);
        }
        return true;
    }
    let last = s.len() - needle.len();
    let mut at: usize = 0;
    while at <= last
        invariant
            at <= last + 1,
            last < usize::MAX,
            last + needle.len() == s.len(),
            forall|k: int| 0 <= k < at ==> !occurs_at(s@, needle@, k),
        decreases last + 1 - at,
    {
        if matches_at(s, needle, at) {
            return true;
        }
        at = at + 1;
    }
    assert forall|k: int| !occurs_at(s@, needle@, k) by {}
    false
}

/// The first run of characters that are no white space.
pub fn leading_word(s: &Vec<char>) -> (r: Option<Vec<char>>)
    ensures
        match r {
            Some(w) => Some(w@),
            None => None,
        } == first_word(s@),
{
    let a = after_spaces(s, 0);
    if a >= s.len() {
        None
    } else {
        let b = next_space(s, a);
        Some(slice_of(s, a, b))
    }
}

} // verus!
