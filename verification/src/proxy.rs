//! The proxies that requests may go through.

use crate::scan::{pieces_view, split, split_on};
use crate::text::{chars_of, text_of};
use crate::token::texts_view;
use vstd::prelude::*;

verus! {

/// A list of proxies.
#[derive(Debug, PartialEq, Eq)]
pub struct ProxyConfig {
    pub proxy_list: Vec<String>,
}

impl ProxyConfig {
    /// A configuration with the given proxies.
    pub fn new(proxy_list: Vec<String>) -> (c: Self)
        ensures
            c.proxy_list == proxy_list,
    {
        ProxyConfig { proxy_list }
    }

    /// The proxies that the text of a fetched proxy list names: its pieces
    /// between line feeds, each as it stands.
    pub fn get_proxy(&self, body: &str) -> (list: Vec<String>)
        ensures
            texts_view(list@) == split(body@, '\n'),
    {
        let chars = chars_of(body);
        let pieces = split_on(&chars, '\n');
        let mut list: Vec<String> = Vec::new();
        let mut i: usize = 0;
        while i < pieces.len()
            invariant
                i <= pieces.len(),
                pieces_view(pieces@) == split(body@, '\n'),
                texts_view(list@) == split(body@, '\n').subrange(0, i as int),
            decreases pieces.len() - i,
        {
            let line = text_of(&pieces[i], 0, pieces[i].len());
            assert(line@ =~= pieces@[i as int]@);
            assert(pieces_view(pieces@)[i as int] == pieces@[i as int]@);
            let ghost before = list@;
            list.push(line);
            assert(texts_view(list@) =~= texts_view(before).push(line@));
            assert(texts_view(list@) =~= split(body@, '\n').subrange(0, i + 1));
            i = i + 1;
        }
        assert(split(body@, '\n').subrange(0, i as int) =~= split(body@, '\n'));
        list
    }
}

} // verus!
