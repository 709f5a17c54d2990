use vstd::prelude::*;

use crate::join::{join_texts, lemma_join_extend};
use crate::render::Render;

verus! {

/// A sequence of items, borrowed, rendered with a separator between
/// each two neighbours.
#[derive(Clone, Copy, Debug)]
pub struct Joined<I, S> {
    pub iter: I,
    pub sepr: S,
}

/// A container whose items can be read in order through a shared
/// reference, and rendered.
pub trait IntoIteratorByRefExt {
    type Item: Render;

    /// The items, in order.
    spec fn items(&self) -> Seq<Self::Item>;

    /// The number of items.
    fn item_count(&self) -> (r: usize)
        ensures
            r == self.items().len(),
    ;

    /// The item at position `i`.
    fn item_at(&self, i: usize) -> (r: &Self::Item)
        requires
            i < self.items().len(),
        ensures
            *r == self.items()[i as int],
    ;

    /// The items joined with `sepr`, rendered when asked.
    fn joined<S: Render>(&self, sepr: S) -> (r: Joined<&Self, S>)
        ensures
            r.iter == self,
            r.sepr == sepr,
    ;
}

/// The texts of the items, in order.
pub open spec fn item_texts<C: IntoIteratorByRefExt + ?Sized>(c: &C) -> Seq<Seq<char>> {
    c.items().map_values(|x: C::Item| x.text())
}

impl<'a, C: IntoIteratorByRefExt + ?Sized, S: Render> Render for Joined<&'a C, S> {
    open spec fn text(&self) -> Seq<char> {
        join_texts(item_texts(self.iter), self.sepr.text())
    }

    fn write_to(&self, out: &mut String) {
        let ghost texts = item_texts(self.iter);
        let ghost start = out@;
        let count = self.iter.item_count();
        if count == 0 {
            assert(texts.take(0) =~= Seq::empty());
        } else {
            self.iter.item_at(0).write_to(out);
            assert(texts.take(1) =~= seq![texts[0]]);
            let mut i: usize = 1;
            while i < count
                invariant
                    1 <= i <= count,
                    count == texts.len(),
                    texts == item_texts(self.iter),
                    out@ == start + join_texts(texts.take(i as int), self.sepr.text()),
                decreases count - i,
            {
                self.sepr.write_to(out);
                self.iter.item_at(i).write_to(out);
                proof {
                    lemma_join_extend(texts, self.sepr.text(), i as int);
                }
                i = i + 1;
            }
        }
        assert(texts.take(count as int) =~= texts);
    }
}

impl<'a, C: IntoIteratorByRefExt + ?Sized, S: Render> Joined<&'a C, S> {
    /// The rendered text as a `String`.
    pub fn to_string(&self) -> (r: String)
        ensures
            r@ == self.text(),
    {
        let mut out = String::new();
        self.write_to(&mut out);
        out
    }
}

/// Joining no items, whatever the separator, renders as empty text.
pub proof fn lemma_joined_empty<'a, C: IntoIteratorByRefExt + ?Sized, S: Render>(j: Joined<&'a C, S>)
    requires
        j.iter.items().len() == 0,
    ensures
        j.text() == Seq::<char>::empty(),
{
}

/// Joining one item renders as that item's text, with no separator.
pub proof fn lemma_joined_single<'a, C: IntoIteratorByRefExt + ?Sized, S: Render>(j: Joined<&'a C, S>)
    requires
        j.iter.items().len() == 1,
    ensures
        j.text() == j.iter.items()[0].text(),
{
}

impl<T: Render> IntoIteratorByRefExt for Vec<T> {
    type Item = T;

    open spec fn items(&self) -> Seq<T> {
        self@
    }

    fn item_count(&self) -> (r: usize) {
        self.len()
    }

    fn item_at(&self, i: usize) -> (r: &T) {
        &self[i]
    }

    fn joined<S: Render>(&self, sepr: S) -> (r: Joined<&Self, S>) {
        Joined { iter: self, sepr }
    }
}

impl<T: Render> IntoIteratorByRefExt for [T] {
    type Item = T;

    open spec fn items(&self) -> Seq<T> {
        self@
    }

    fn item_count(&self) -> (r: usize) {
        self.len()
    }

    fn item_at(&self, i: usize) -> (r: &T) {
        &self[i]
    }

    fn joined<S: Render>(&self, sepr: S) -> (r: Joined<&Self, S>) {
        Joined { iter: self, sepr }
    }
}

impl<T: Render, const N: usize> IntoIteratorByRefExt for [T; N] {
    type Item = T;

    open spec fn items(&self) -> Seq<T> {
        self@
    }

    fn item_count(&self) -> (r: usize) {
        N
    }

    fn item_at(&self, i: usize) -> (r: &T) {
        &self[i]
    }

    fn joined<S: Render>(&self, sepr: S) -> (r: Joined<&Self, S>) {
        Joined { iter: self, sepr }
    }
}

} // verus!
