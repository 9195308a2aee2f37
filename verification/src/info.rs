//! The answer of the coupon centre: its zones and the tasks under each, the
//! one-line summary that is made of it, and what is read back from such a
//! summary.

use crate::number::{
    all_digits, is_digit, lemma_decimal_is_digits, lemma_written_reads_back, parse_i64, read_i64,
};
use crate::plan::{TicketCategory, ZoneTasks, ZoneTasksView};
use crate::scan::{
    free_of, join, lemma_join_splits, lemma_split_empty, pieces_view, split, split_on,
};
use crate::text::{chars_of, decimal, push_signed_decimal, signed_decimal, text_of};
use vstd::prelude::*;
use vstd::string::StringExecFns;

verus! {

/// One task of a zone.
#[derive(Clone, Copy, Debug, PartialEq, Eq, Structural)]
pub struct RedItem {
    pub red_pack_task_id: i64,
}

/// One zone of the coupon centre.
#[derive(Debug, PartialEq, Eq)]
pub struct ZoneRed {
    pub red_list: Vec<RedItem>,
    pub zone_name: String,
}

/// The zones of the coupon centre.
#[derive(Debug, PartialEq, Eq)]
pub struct InfoObject {
    pub zone_red_list: Vec<ZoneRed>,
}

/// The payload of an answer.
#[derive(Debug, PartialEq, Eq)]
pub struct InfoData {
    pub object: InfoObject,
}

/// The answer of the coupon centre to a query for one community.
#[derive(Debug, PartialEq, Eq)]
pub struct InfoResponse {
    pub object: InfoObject,
    pub response_code: String,
    pub response_msg: String,
    pub success: bool,
}

/// The task identifiers of a zone, written in decimal.
pub open spec fn id_texts(items: Seq<RedItem>) -> Seq<Seq<char>> {
    items.map_values(|r: RedItem| signed_decimal(r.red_pack_task_id as int))
}

/// A zone in the summary: its name, a colon, and its task identifiers with
/// commas between them.
pub open spec fn zone_text(zone: ZoneRed) -> Seq<char> {
    zone.zone_name@ + seq![':'] + join(id_texts(zone.red_list@), seq![','])
}

/// The summary of the zones: one text for each, with semicolons between
/// them.
pub open spec fn summary_text(zones: Seq<ZoneRed>) -> Seq<char> {
    join(zones.map_values(|z: ZoneRed| zone_text(z)), seq![';'])
}

/// The numbers among the pieces, in order; a piece that is no number is
/// passed over.
pub open spec fn numbers_in(pieces: Seq<Seq<char>>) -> Seq<i64>
    decreases pieces.len(),
{
    if pieces.len() == 0 {
        Seq::empty()
    } else {
        let before = numbers_in(pieces.drop_last());
        match parse_i64(pieces.last()) {
            Some(v) => before.push(v as i64),
            None => before,
        }
    }
}

/// The category that one piece of a summary describes: the piece must hold
/// exactly one colon.
pub open spec fn category_in(piece: Seq<char>) -> Option<(Seq<char>, Seq<i64>)> {
    let parts = split(piece, ':');
    if parts.len() == 2 {
        Some((parts[0], numbers_in(split(parts[1], ','))))
    } else {
        None
    }
}

/// The categories that the pieces of a summary describe, in order.
pub open spec fn categories_in(pieces: Seq<Seq<char>>) -> Seq<(Seq<char>, Seq<i64>)>
    decreases pieces.len(),
{
    if pieces.len() == 0 {
        Seq::empty()
    } else {
        let before = categories_in(pieces.drop_last());
        match category_in(pieces.last()) {
            Some(c) => before.push(c),
            None => before,
        }
    }
}

/// The categories that a summary describes.
pub open spec fn summary_categories(summary: Seq<char>) -> Seq<(Seq<char>, Seq<i64>)> {
    categories_in(split(summary, ';'))
}

/// The view of a sequence of categories: name and task identifiers of each.
pub open spec fn categories_view(categories: Seq<TicketCategory>) -> Seq<(Seq<char>, Seq<i64>)> {
    categories.map_values(|c: TicketCategory| (c.name@, c.task_ids@))
}

/// The index of the first category at or after `from` with the given name.
pub open spec fn find_category(
    categories: Seq<(Seq<char>, Seq<i64>)>,
    name: Seq<char>,
    from: int,
) -> Option<int>
    decreases categories.len() - from,
{
    if from < 0 || from >= categories.len() {
        None
    } else if categories[from].0 == name {
        Some(from)
    } else {
        find_category(categories, name, from + 1)
    }
}

/// The categories after one fetched category was taken in: the first
/// category of that name gets the fetched identifiers, unless there are
/// none.
pub open spec fn refreshed_with(
    categories: Seq<(Seq<char>, Seq<i64>)>,
    fetched: (Seq<char>, Seq<i64>),
) -> Seq<(Seq<char>, Seq<i64>)> {
    match find_category(categories, fetched.0, 0) {
        Some(i) if fetched.1.len() > 0 => categories.update(i, (categories[i].0, fetched.1)),
        _ => categories,
    }
}

/// The categories after the fetched ones were taken in, in order.
pub open spec fn refreshed(
    categories: Seq<(Seq<char>, Seq<i64>)>,
    fetched: Seq<(Seq<char>, Seq<i64>)>,
) -> Seq<(Seq<char>, Seq<i64>)>
    decreases fetched.len(),
{
    if fetched.len() == 0 {
        categories
    } else {
        refreshed_with(refreshed(categories, fetched.drop_last()), fetched.last())
    }
}

/// Whether a text holds the character nowhere.
pub open spec fn lacks(s: Seq<char>, c: char) -> bool {
    forall|k: int| 0 <= k < s.len() ==> s[k] != c
}

/// The task identifiers of a zone.
pub open spec fn zone_ids(items: Seq<RedItem>) -> Seq<i64> {
    items.map_values(|r: RedItem| r.red_pack_task_id)
}

/// The name and the task identifiers of each zone.
pub open spec fn zones_content(zones: Seq<ZoneRed>) -> Seq<(Seq<char>, Seq<i64>)> {
    zones.map_values(|z: ZoneRed| (z.zone_name@, zone_ids(z.red_list@)))
}

proof fn lemma_free_of(pieces: Seq<Seq<char>>, c: char)
    requires
        forall|i: int| 0 <= i < pieces.len() ==> lacks(#[trigger] pieces[i], c),
    ensures
        free_of(pieces, c),
{
    assert forall|i: int, k: int| 0 <= i < pieces.len() && 0 <= k < pieces[i].len() implies (
    #[trigger] pieces[i][k]) != c by {
        assert(lacks(pieces[i], c));
    }
}

proof fn lemma_join_lacks(pieces: Seq<Seq<char>>, sep: char, c: char)
    requires
        forall|i: int| 0 <= i < pieces.len() ==> lacks(#[trigger] pieces[i], c),
        sep != c,
    ensures
        lacks(join(pieces, seq![sep]), c),
    decreases pieces.len(),
{
    if pieces.len() == 1 {
        assert(lacks(pieces[0], c));
    } else if pieces.len() > 1 {
        let front = pieces.drop_last();
        assert forall|i: int| 0 <= i < front.len() implies lacks(#[trigger] front[i], c) by {
            assert(front[i] == pieces[i]);
        }
        lemma_join_lacks(front, sep, c);
        assert(lacks(pieces.last(), c)) by {
            assert(pieces.last() == pieces[pieces.len() - 1]);
        }
    }
}

proof fn lemma_id_text_is_plain(n: i64, c: char)
    requires
        c == ',' || c == ':' || c == ';',
    ensures
        lacks(signed_decimal(n as int), c),
{
    let t = signed_decimal(n as int);
    if n < 0 {
        lemma_decimal_is_digits((-n) as nat);
        let digits = decimal((-n) as nat);
        assert forall|k: int| 0 <= k < t.len() implies t[k] != c by {
            if k > 0 {
                assert(t[k] == digits[k - 1]);
                assert(is_digit(digits[k - 1]));
            }
        }
    } else {
        lemma_decimal_is_digits(n as nat);
        assert forall|k: int| 0 <= k < t.len() implies t[k] != c by {
            assert(is_digit(t[k]));
        }
    }
}

proof fn lemma_id_texts_are_plain(items: Seq<RedItem>, c: char)
    requires
        c == ',' || c == ':' || c == ';',
    ensures
        forall|i: int| 0 <= i < id_texts(items).len() ==> lacks(#[trigger] id_texts(items)[i], c),
{
    assert forall|i: int| 0 <= i < id_texts(items).len() implies lacks(
        #[trigger] id_texts(items)[i],
        c,
    ) by {
        lemma_id_text_is_plain(items[i].red_pack_task_id, c);
    }
}

proof fn lemma_numbers_read_back(items: Seq<RedItem>)
    ensures
        numbers_in(id_texts(items)) == zone_ids(items),
    decreases items.len(),
{
    if items.len() > 0 {
        let front = items.drop_last();
        lemma_numbers_read_back(front);
        assert(id_texts(items).drop_last() =~= id_texts(front));
        let n = items.last().red_pack_task_id;
        assert(id_texts(items).last() == signed_decimal(n as int));
        lemma_written_reads_back(n as int, 0, 0);
        assert(zone_ids(items) =~= zone_ids(front).push(n));
    } else {
        assert(zone_ids(items) =~= Seq::<i64>::empty());
    }
}

proof fn lemma_zone_reads_back(zone: ZoneRed)
    requires
        lacks(zone.zone_name@, ':'),
    ensures
        category_in(zone_text(zone)) == Some((zone.zone_name@, zone_ids(zone.red_list@))),
{
    let name = zone.zone_name@;
    let texts = id_texts(zone.red_list@);
    let ids_text = join(texts, seq![',']);
    lemma_id_texts_are_plain(zone.red_list@, ':');
    lemma_join_lacks(texts, ',', ':');
    let parts = seq![name, ids_text];
    assert(parts.drop_last() =~= seq![name]);
    assert(join(seq![name], seq![':']) == name);
    assert(parts.last() == ids_text);
    assert(join(parts, seq![':']) =~= zone_text(zone));
    assert forall|i: int| 0 <= i < parts.len() implies lacks(#[trigger] parts[i], ':') by {}
    lemma_free_of(parts, ':');
    lemma_join_splits(parts, ':');
    lemma_numbers_read_back(zone.red_list@);
    if texts.len() > 0 {
        lemma_id_texts_are_plain(zone.red_list@, ',');
        lemma_free_of(texts, ',');
        lemma_join_splits(texts, ',');
    } else {
        let empty = Seq::<char>::empty();
        lemma_split_empty(',');
        assert(ids_text =~= empty);
        assert(seq![empty].drop_last() =~= Seq::<Seq<char>>::empty());
        assert(numbers_in(seq![empty].drop_last()) =~= Seq::<i64>::empty());
        assert(seq![empty].last() == empty);
        assert(parse_i64(empty) is None);
        assert(numbers_in(seq![empty]) =~= Seq::<i64>::empty());
    }
}

proof fn lemma_zones_read_back(zones: Seq<ZoneRed>)
    requires
        forall|i: int| 0 <= i < zones.len() ==> lacks((#[trigger] zones[i]).zone_name@, ':'),
    ensures
        categories_in(zones.map_values(|z: ZoneRed| zone_text(z))) == zones_content(zones),
    decreases zones.len(),
{
    let texts = zones.map_values(|z: ZoneRed| zone_text(z));
    if zones.len() > 0 {
        let front = zones.drop_last();
        assert forall|i: int| 0 <= i < front.len() implies lacks(
            (#[trigger] front[i]).zone_name@,
            ':',
        ) by {
            assert(front[i] == zones[i]);
        }
        lemma_zones_read_back(front);
        assert(texts.drop_last() =~= front.map_values(|z: ZoneRed| zone_text(z)));
        assert(zones.last() == zones[zones.len() - 1]);
        lemma_zone_reads_back(zones.last());
        assert(zones_content(zones) =~= zones_content(front).push(
            (zones.last().zone_name@, zone_ids(zones.last().red_list@)),
        ));
    } else {
        assert(zones_content(zones) =~= Seq::<(Seq<char>, Seq<i64>)>::empty());
    }
}

/// What is summed up reads back: where no zone's name holds a colon or a
/// semicolon, the categories read from the summary of the zones are the
/// zones' names, each with its task identifiers.
pub proof fn lemma_summary_reads_back(zones: Seq<ZoneRed>)
    requires
        forall|i: int|
            0 <= i < zones.len() ==> lacks((#[trigger] zones[i]).zone_name@, ':') && lacks(
                zones[i].zone_name@,
                ';',
            ),
    ensures
        summary_categories(summary_text(zones)) == zones_content(zones),
{
    let texts = zones.map_values(|z: ZoneRed| zone_text(z));
    lemma_zones_read_back(zones);
    if zones.len() > 0 {
        assert forall|i: int| 0 <= i < texts.len() implies lacks(#[trigger] texts[i], ';') by {
            let z = zones[i];
            let ids = id_texts(z.red_list@);
            lemma_id_texts_are_plain(z.red_list@, ';');
            lemma_join_lacks(ids, ',', ';');
            assert(lacks(z.zone_name@, ';'));
            assert(texts[i] == zone_text(z));
        }
        lemma_free_of(texts, ';');
        lemma_join_splits(texts, ';');
    } else {
        let empty = Seq::<char>::empty();
        assert(summary_text(zones) =~= empty);
        lemma_split_empty(';');
        lemma_split_empty(':');
        assert(category_in(empty) is None);
        assert(seq![empty].drop_last() =~= Seq::<Seq<char>>::empty());
        assert(categories_in(seq![empty].drop_last()) =~= Seq::<(Seq<char>, Seq<i64>)>::empty());
        assert(seq![empty].last() == empty);
        assert(categories_in(seq![empty]) =~= Seq::<(Seq<char>, Seq<i64>)>::empty());
        assert(zones_content(zones) =~= Seq::<(Seq<char>, Seq<i64>)>::empty());
    }
}

/// Taking in fetched categories changes neither the number of the known
/// categories nor their names nor their order.
pub proof fn lemma_refresh_keeps_names(
    categories: Seq<(Seq<char>, Seq<i64>)>,
    fetched: Seq<(Seq<char>, Seq<i64>)>,
)
    ensures
        refreshed(categories, fetched).len() == categories.len(),
        forall|i: int|
            0 <= i < categories.len() ==> (#[trigger] refreshed(categories, fetched)[i]).0
                == categories[i].0,
    decreases fetched.len(),
{
    if fetched.len() > 0 {
        lemma_refresh_keeps_names(categories, fetched.drop_last());
        let before = refreshed(categories, fetched.drop_last());
        lemma_find_category(before, fetched.last().0, 0);
    }
}

proof fn lemma_find_category(categories: Seq<(Seq<char>, Seq<i64>)>, name: Seq<char>, from: int)
    requires
        0 <= from,
    ensures
        find_category(categories, name, from) matches Some(i) ==> from <= i < categories.len()
            && categories[i].0 == name,
    decreases categories.len() - from,
{
    if from < categories.len() && categories[from].0 != name {
        lemma_find_category(categories, name, from + 1);
    }
}

fn push_zone(out: &mut String, zone: &ZoneRed)
    ensures
        final(out)@ == old(out)@ + zone_text(*zone),
{
    let ghost start = out@;
    out.append(zone.zone_name.as_str());
    out.push(':');
    let ghost head = out@;
    let mut i: usize = 0;
    while i < zone.red_list.len()
        invariant
            i <= zone.red_list.len(),
            head == start + zone.zone_name@ + seq![':'],
            out@ == head + join(id_texts(zone.red_list@).subrange(0, i as int), seq![',']),
        decreases zone.red_list.len() - i,
    {
        let ghost texts = id_texts(zone.red_list@);
        assert(texts.subrange(0, i + 1).drop_last() =~= texts.subrange(0, i as int));
        assert(texts.subrange(0, i + 1).last() == signed_decimal(
            zone.red_list@[i as int].red_pack_task_id as int,
        ));
        if i > 0 {
            out.push(',');
        }
        push_signed_decimal(out, zone.red_list[i].red_pack_task_id);
        assert(out@ =~= head + join(texts.subrange(0, i + 1), seq![',']));
        i = i + 1;
    }
    assert(id_texts(zone.red_list@).subrange(0, i as int) =~= id_texts(zone.red_list@));
    assert(out@ =~= start + zone_text(*zone));
}

/// The summary of an answer of the coupon centre: for each zone its name, a
/// colon and its task identifiers with commas between them; semicolons
/// between the zones.
pub fn get_info(response: &InfoResponse) -> (s: String)
    ensures
        s@ == summary_text(response.object.zone_red_list@),
{
    let zones = &response.object.zone_red_list;
    let ghost texts = zones@.map_values(|z: ZoneRed| zone_text(z));
    let mut out = String::new();
    let mut i: usize = 0;
    while i < zones.len()
        invariant
            i <= zones.len(),
            texts == zones@.map_values(|z: ZoneRed| zone_text(z)),
            out@ == join(texts.subrange(0, i as int), seq![';']),
        decreases zones.len() - i,
    {
        assert(texts.subrange(0, i + 1).drop_last() =~= texts.subrange(0, i as int));
        assert(texts.subrange(0, i + 1).last() == zone_text(zones@[i as int]));
        if i > 0 {
            out.push(';');
        }
        push_zone(&mut out, &zones[i]);
        assert(out@ =~= join(texts.subrange(0, i + 1), seq![';']));
        i = i + 1;
    }
    assert(texts.subrange(0, i as int) =~= texts);
    out
}

fn numbers_of(pieces: &Vec<Vec<char>>) -> (ids: Vec<i64>)
    ensures
        ids@ == numbers_in(pieces_view(pieces@)),
{
    let mut ids: Vec<i64> = Vec::new();
    let mut i: usize = 0;
    while i < pieces.len()
        invariant
            i <= pieces.len(),
            ids@ == numbers_in(pieces_view(pieces@).subrange(0, i as int)),
        decreases pieces.len() - i,
    {
        let ghost p = pieces_view(pieces@);
        assert(p.subrange(0, i + 1).drop_last() =~= p.subrange(0, i as int));
        assert(p.subrange(0, i + 1).last() == pieces@[i as int]@);
        match read_i64(&pieces[i]) {
            Some(v) => {
                ids.push(v);
            },
            None => {},
        }
        i = i + 1;
    }
    assert(pieces_view(pieces@).subrange(0, i as int) =~= pieces_view(pieces@));
    ids
}

fn category_of(piece: &Vec<char>) -> (r: Option<TicketCategory>)
    ensures
        match r {
            Some(c) => Some((c.name@, c.task_ids@)),
            None => None,
        } == category_in(piece@),
{
    let parts = split_on(piece, ':');
    if parts.len() == 2 {
        assert(pieces_view(parts@)[0] == parts@[0]@);
        assert(pieces_view(parts@)[1] == parts@[1]@);
        let ids = numbers_of(&split_on(&parts[1], ','));
        Some(TicketCategory { name: text_of(&parts[0], 0, parts[0].len()), task_ids: ids })
    } else {
        None
    }
}

/// Reads the categories that a summary describes: the summary is cut at its
/// semicolons, and a piece with exactly one colon gives a category whose
/// identifiers are the numbers after the colon.
pub fn parse_categories(summary: &str) -> (r: Vec<TicketCategory>)
    ensures
        categories_view(r@) == summary_categories(summary@),
{
    let chars = chars_of(summary);
    let pieces = split_on(&chars, ';');
    let mut r: Vec<TicketCategory> = Vec::new();
    let mut i: usize = 0;
    while i < pieces.len()
        invariant
            i <= pieces.len(),
            pieces_view(pieces@) == split(summary@, ';'),
            categories_view(r@) == categories_in(pieces_view(pieces@).subrange(0, i as int)),
        decreases pieces.len() - i,
    {
        let ghost p = pieces_view(pieces@);
        assert(p.subrange(0, i + 1).drop_last() =~= p.subrange(0, i as int));
        assert(p.subrange(0, i + 1).last() == pieces@[i as int]@);
        match category_of(&pieces[i]) {
            Some(c) => {
                let ghost before = r@;
                r.push(c);
                assert(categories_view(r@) =~= categories_view(before).push((c.name@, c.task_ids@)));
            },
            None => {},
        }
        i = i + 1;
    }
    assert(pieces_view(pieces@).subrange(0, i as int) =~= pieces_view(pieces@));
    r
}

fn category_index(categories: &Vec<TicketCategory>, name: &String) -> (r: Option<usize>)
    ensures
        match r {
            Some(i) => Some(i as int),
            None => None,
        } == find_category(categories_view(categories@), name@, 0),
        r matches Some(i) ==> i < categories.len(),
{
    let mut i: usize = 0;
    while i < categories.len()
        invariant
            i <= categories.len(),
            find_category(categories_view(categories@), name@, 0) == find_category(
                categories_view(categories@),
                name@,
                i as int,
            ),
        decreases categories.len() - i,
    {
        if categories[i].name == *name {
            return Some(i);
        }
        i = i + 1;
    }
    None
}

fn copy_ids(ids: &Vec<i64>) -> (r: Vec<i64>)
    ensures
        r@ == ids@,
{
    let mut r: Vec<i64> = Vec::new();
    let mut i: usize = 0;
    while i < ids.len()
        invariant
            i <= ids.len(),
            r@ == ids@.subrange(0, i as int),
        decreases ids.len() - i,
    {
        r.push(ids[i]);
        i = i + 1;
    }
    assert(r@ =~= ids@);
    r
}

/// Takes fetched categories into the known ones: each fetched category
/// that has identifiers replaces the identifiers of the first known
/// category of its name. Names and order of the known categories stay.
pub fn refresh_categories(categories: &mut Vec<TicketCategory>, fetched: &Vec<TicketCategory>)
    ensures
        categories_view(final(categories)@) == refreshed(
            categories_view(old(categories)@),
            categories_view(fetched@),
        ),
{
    let mut k: usize = 0;
    while k < fetched.len()
        invariant
            k <= fetched.len(),
            categories_view(categories@) == refreshed(
                categories_view(old(categories)@),
                categories_view(fetched@).subrange(0, k as int),
            ),
        decreases fetched.len() - k,
    {
        let ghost f = categories_view(fetched@);
        assert(f.subrange(0, k + 1).drop_last() =~= f.subrange(0, k as int));
        assert(f.subrange(0, k + 1).last() == (fetched@[k as int].name@, fetched@[k as int].task_ids@));
        match category_index(categories, &fetched[k].name) {
            Some(i) => {
                if fetched[k].task_ids.len() > 0 {
                    let ghost before = categories@;
                    let name = categories[i].name.clone();
                    let ids = copy_ids(&fetched[k].task_ids);
                    categories.set(i, TicketCategory { name, task_ids: ids });
                    assert(categories_view(categories@) =~= categories_view(before).update(
                        i as int,
                        (before[i as int].name@, fetched@[k as int].task_ids@),
                    ));
                }
            },
            None => {},
        }
        k = k + 1;
    }
    assert(categories_view(fetched@).subrange(0, k as int) =~= categories_view(fetched@));
}

} // verus!
