//! kickit: an immutable init system with sandboxed services, and its
//! control tool ktctl. This crate holds the logic both share.

pub mod text;
pub mod console;
pub mod zstd;
pub mod state;
pub mod socket;
pub mod init;
pub mod ktctl;

use vstd::prelude::*;
use std::collections::VecDeque;
use crate::text::join_seq;

verus! {

/// Raw bytes
pub type Data = Vec<u8>;

/// Raw bytes, taken from the front
pub type DequeData = VecDeque<u8>;

/// A string that is not resized
pub type BoxedStr = String;

/// The version of the package, as the init reports it to ktctl over its
/// core socket
pub const PKG_VERSION: &'static str = "0.1.0";

/// The version of kickit, as it is shown (builds are not marked stable)
pub const VERSION: &'static str = "0.1.0 (unstable)";

/// Where the important files for kickit live
pub const PREFIX: &'static str = "/usr/lib/kickit";

/// An iterator over texts that appends a delimiter to each item but the last
#[derive(Clone, Debug)]
pub struct DelimIter {
    delim: &'static str,
    items: Vec<String>,
    next: usize,
}

/// What is left of a delimited iterator: the delimiter, and the items still
/// to come
pub struct DelimIterView {
    pub delim: Seq<char>,
    pub rest: Seq<Seq<char>>,
}

impl View for DelimIter {
    type V = DelimIterView;

    closed spec fn view(&self) -> DelimIterView {
        DelimIterView {
            delim: self.delim@,
            rest: if self.next <= self.items@.len() {
                crate::text::strings(self.items@).skip(self.next as int)
            } else {
                Seq::empty()
            },
        }
    }
}

/// The text the next item of `rest` comes out as: followed by the delimiter
/// unless it is the last
pub open spec fn delim_piece(delim: Seq<char>, rest: Seq<Seq<char>>) -> Seq<char>
    recommends
        rest.len() > 0,
{
    if rest.len() > 1 {
        rest[0] + delim
    } else {
        rest[0]
    }
}

impl DelimIter {
    /// The next item, followed by the delimiter unless it is the last
    pub fn next(&mut self) -> (r: Option<String>)
        ensures
            match r {
                None => old(self)@.rest.len() == 0 && final(self)@ == old(self)@,
                Some(s) => old(self)@.rest.len() > 0 && s@ == delim_piece(
                    old(self)@.delim,
                    old(self)@.rest,
                ) && final(self)@ == (DelimIterView {
                    delim: old(self)@.delim,
                    rest: old(self)@.rest.drop_first(),
                }),
            },
    {
        if self.next >= self.items.len() {
            return None;
        }
        let ghost before = crate::text::strings(self.items@).skip(self.next as int);
        let mut out = self.items[self.next].clone();
        if self.next + 1 < self.items.len() {
            out.append(self.delim);
        }
        self.next = self.next + 1;
        proof {
            assert(crate::text::strings(self.items@).skip(self.next as int) =~= before.drop_first());
        }
        Some(out)
    }
}

/// An iterator that appends `delim` to each of `inner` but the last
pub fn delim_iter(inner: Vec<String>, delim: &'static str) -> (r: DelimIter)
    ensures
        r@ == (DelimIterView { delim: delim@, rest: crate::text::strings(inner@) }),
{
    let r = DelimIter { delim, items: inner, next: 0 };
    assert(crate::text::strings(r.items@).skip(0) =~= crate::text::strings(r.items@));
    r
}

/// The texts a delimited iterator gives from a state on
pub open spec fn delim_pieces(delim: Seq<char>, rest: Seq<Seq<char>>) -> Seq<Seq<char>>
    decreases rest.len(),
{
    if rest.len() == 0 {
        Seq::empty()
    } else {
        seq![delim_piece(delim, rest)] + delim_pieces(delim, rest.drop_first())
    }
}

/// The texts one after the other
pub open spec fn concat(pieces: Seq<Seq<char>>) -> Seq<char>
    decreases pieces.len(),
{
    if pieces.len() == 0 {
        Seq::empty()
    } else {
        pieces[0] + concat(pieces.drop_first())
    }
}

proof fn lemma_join_first(items: Seq<Seq<char>>, delim: Seq<char>)
    requires
        items.len() >= 2,
    ensures
        join_seq(items, delim) == items[0] + delim + join_seq(items.drop_first(), delim),
    decreases items.len(),
{
    if items.len() == 2 {
        assert(items.drop_last().len() == 1);
        assert(items.drop_first().len() == 1);
        assert(join_seq(items.drop_last(), delim) == items[0]);
        assert(join_seq(items.drop_first(), delim) == items[1]);
    } else {
        let init = items.drop_last();
        lemma_join_first(init, delim);
        assert(init.drop_first() =~= items.drop_first().drop_last());
        assert(items.drop_first().last() == items.last());
        assert(join_seq(items.drop_first(), delim) == join_seq(items.drop_first().drop_last(), delim)
            + delim + items.last());
        assert(join_seq(items, delim) =~= items[0] + delim + join_seq(items.drop_first(), delim));
    }
}

/// The texts of a delimited iterator, one after the other, are its items
/// joined with the delimiter.
pub proof fn law_delim_iter_joins(items: Seq<Seq<char>>, delim: Seq<char>)
    ensures
        concat(delim_pieces(delim, items)) == join_seq(items, delim),
    decreases items.len(),
{
    if items.len() == 0 {
    } else if items.len() == 1 {
        assert(items.drop_first() =~= Seq::<Seq<char>>::empty());
        reveal_with_fuel(delim_pieces, 2);
        reveal_with_fuel(concat, 2);
        assert(delim_pieces(delim, items) =~= seq![items[0]]);
        assert(concat(delim_pieces(delim, items)) =~= items[0]);
    } else {
        law_delim_iter_joins(items.drop_first(), delim);
        lemma_join_first(items, delim);
        let ps = delim_pieces(delim, items);
        assert(ps[0] == items[0] + delim);
        assert(ps.drop_first() =~= delim_pieces(delim, items.drop_first()));
        assert(concat(ps) =~= items[0] + delim + join_seq(items.drop_first(), delim));
    }
}

/// Doing nothing with a value
pub trait TrashUnused {
    fn trash(&self) {
    }
}

impl<S> TrashUnused for S {
}

/// A vector that may be empty, as an option
pub trait OptionEmptyVec: Sized {
    spec fn spec_is_empty(&self) -> bool;

    /// `None` when there is nothing in it, else the vector itself
    fn empty_none(self) -> (r: Option<Self>)
        ensures
            r is None <==> self.spec_is_empty(),
            r matches Some(v) ==> v == self,
    ;
}

impl<T> OptionEmptyVec for Vec<T> {
    open spec fn spec_is_empty(&self) -> bool {
        self@.len() == 0
    }

    fn empty_none(self) -> (r: Option<Self>) {
        if self.len() == 0 {
            None
        } else {
            Some(self)
        }
    }
}

/// Taking several items off the front of a queue at once
pub trait DumpVec<T>: Sized {
    spec fn spec_items(&self) -> Seq<T>;

    /// The first `size` items, removed from the queue
    fn dump_front(&mut self, size: usize) -> (r: Vec<T>)
        requires
            old(self).spec_items().len() >= size,
        ensures
            r@ == old(self).spec_items().take(size as int),
            final(self).spec_items() == old(self).spec_items().skip(size as int),
    ;
}

impl<T> DumpVec<T> for VecDeque<T> {
    open spec fn spec_items(&self) -> Seq<T> {
        self@
    }

    fn dump_front(&mut self, size: usize) -> (r: Vec<T>) {
        let ghost start = self@;
        let mut out: Vec<T> = Vec::new();
        let mut i: usize = 0;
        while i < size
            invariant
                0 <= i <= size,
                size <= start.len(),
                out@ == start.take(i as int),
                self@ == start.skip(i as int),
            decreases size - i,
        {
            let item = self.pop_front();
            match item {
                Some(x) => {
                    out.push(x);
                },
                None => {
                    assert(false);
                },
            }
            proof {
                assert(out@ =~= start.take(i + 1));
                assert(self@ =~= start.skip(i + 1));
            }
            i = i + 1;
        }
        out
    }
}

} // verus!
