use vstd::prelude::*;
use vstd::std_specs::iter::IteratorSpec;

use crate::join::{join_texts, lemma_join_extend};
use crate::render::Render;

verus! {

/// Wraps a single-pass sequence so that it can be driven to completion
/// and is fused: once the wrapped sequence reports that it has no more
/// elements, the slot is left empty and the sequence is never asked again.
///
/// Each call takes the sequence out of its slot, advances it, and puts it
/// back only if it produced an element. The adapter is driven through an
/// exclusive borrow, so no two calls can overlap.
pub struct Consumed<I> {
    state: Option<I>,
}

impl<I> View for Consumed<I> {
    /// The held sequence, or `None` once exhausted.
    type V = Option<I>;

    closed spec fn view(&self) -> Option<I> {
        self.state
    }
}

impl<I> Consumed<I> {
    /// Wraps a not-yet-started sequence.
    pub fn new(iter: I) -> (r: Self)
        ensures
            r@ == Some(iter),
    {
        Consumed { state: Some(iter) }
    }

    /// Whether the adapter is exhausted for good.
    pub fn is_exhausted(&self) -> (r: bool)
        ensures
            r == (self@ is None),
    {
        self.state.is_none()
    }
}

impl<I> Default for Consumed<I> {
    /// An adapter that is already exhausted.
    fn default() -> (r: Self)
        ensures
            r@ is None,
    {
        Consumed { state: None }
    }
}

/// Relies on Iterator::size_hint: the held sequence's own estimate of
/// what remains, which it computes without producing an element.
#[verifier::external_body]
fn inner_size_hint<I: Iterator>(iter: &I) -> (usize, Option<usize>) {
    iter.size_hint()
}

impl<I: Iterator> Consumed<I> {
    /// Whether the held sequence follows the iterator laws and has a
    /// measure that each produced element lowers, so that it ends.
    pub open spec fn is_finite(&self) -> bool {
        match self@ {
            None => true,
            Some(it) => it.obeys_prophetic_iter_laws() && it.decrease() is Some,
        }
    }

    /// What a drive of the adapter to the end still counts down from.
    pub open spec fn steps_left(&self) -> nat {
        match self@ {
            None => 0,
            Some(it) => it.decrease()->0 + 1,
        }
    }

    /// Estimate of the number of elements left, as `(lower, upper)`.
    /// An exhausted adapter reports `(0, Some(0))`; otherwise the held
    /// sequence's own estimate is returned. Nothing is produced.
    pub fn size_hint(&self) -> (r: (usize, Option<usize>))
        ensures
            self@ is None ==> r == (0usize, Some(0usize)),
    {
        match &self.state {
            None => (0, Some(0)),
            Some(iter) => inner_size_hint(iter),
        }
    }

    /// The lower bound of `size_hint`: the exact count of what is left
    /// for a sequence whose length is known.
    pub fn len(&self) -> (r: usize)
        ensures
            self@ is None ==> r == 0,
    {
        self.size_hint().0
    }

    /// Produces the next element of the held sequence. When the sequence
    /// reports that it has none, it is dropped and every later call
    /// returns `None` without asking it again.
    pub fn next(&mut self) -> (r: Option<I::Item>)
        ensures
            old(self)@ is None ==> r is None && final(self)@ is None,
            r is None ==> final(self)@ is None,
            r is Some ==> final(self)@ is Some,
            old(self)@ is Some && old(self)@->0.obeys_prophetic_iter_laws() && r is Some ==> {
                let (a, b) = (old(self)@->0, final(self)@->0);
                &&& b.decrease() is Some == a.decrease() is Some
                &&& a.decrease() is Some ==> decreases_to!(a.decrease()->0 => b.decrease()->0)
            },
            old(self)@ is Some && old(self)@->0.obeys_prophetic_iter_laws() ==> {
                let it = old(self)@->0;
                if it.remaining().len() > 0 {
                    &&& r == Some(it.remaining()[0])
                    &&& final(self)@->0.obeys_prophetic_iter_laws()
                    &&& final(self)@->0.remaining() == it.remaining().drop_first()
                } else {
                    r is None
                }
            },
    {
        match self.state.take() {
            None => None,
            Some(mut iter) => {
                let item = iter.next();
                if item.is_some() {
                    self.state = Some(iter);
                }
                item
            }
        }
    }
}

impl<I: Iterator> Consumed<I> where I::Item: Render {
    /// Drives the adapter to the end, writing each element's text into
    /// `out` with `sepr` between each two of them. The adapter is left
    /// exhausted, so a second call writes nothing.
    pub fn write_joined<S: Render>(&mut self, sepr: &S, out: &mut String)
        requires
            old(self).is_finite(),
        ensures
            final(self)@ is None,
            old(self)@ is None ==> final(out)@ == old(out)@,
            old(self)@ is Some ==> final(out)@ == old(out)@ + join_texts(
                old(self)@->0.remaining().map_values(|x: I::Item| x.text()),
                sepr.text(),
            ),
    {
        let ghost texts = if self@ is Some {
            self@->0.remaining().map_values(|x: I::Item| x.text())
        } else {
            Seq::empty()
        };
        let ghost start = out@;
        let ghost mut k: int = 0;
        let mut first = true;
        loop
            invariant
                self.is_finite(),
                self@ is Some ==> old(self)@ is Some,
                self@ is Some ==> self@->0.remaining().map_values(|x: I::Item| x.text())
                    == texts.skip(k as int),
                0 <= k <= texts.len(),
                self@ is None ==> k == texts.len(),
                first == (k == 0),
                out@ == start + join_texts(texts.take(k as int), sepr.text()),
            ensures
                self@ is None,
            decreases self.steps_left(),
        {
            let ghost before = self@;
            match self.next() {
                None => {
                    proof {
                        if before is Some {
                            assert(texts.skip(k as int).len() == 0);
                        }
                    }
                    break;
                }
                Some(item) => {
                    proof {
                        assert(texts.skip(k as int)[0] == texts[k as int]);
                    }
                    if !first {
                        sepr.write_to(out);
                    }
                    item.write_to(out);
                    proof {
                        if k > 0 {
                            lemma_join_extend(texts, sepr.text(), k as int);
                        } else {
                            assert(texts.take(1) =~= seq![texts[0]]);
                        }
                        assert(texts.skip(k + 1) =~= texts.skip(k as int).drop_first());
                    }
                    proof {
                        k = k + 1;
                    }
                    first = false;
                }
            }
        }
        proof {
            if old(self)@ is Some {
                assert(texts.take(texts.len() as int) =~= texts);
            } else {
                assert(texts.take(0) =~= Seq::empty());
            }
        }
    }

    /// The text of the remaining elements joined with `sepr`, see `write_joined`.
    pub fn joined<S: Render>(&mut self, sepr: S) -> (r: String)
        requires
            old(self).is_finite(),
        ensures
            final(self)@ is None,
            old(self)@ is None ==> r@ == Seq::<char>::empty(),
            old(self)@ is Some ==> r@ == join_texts(
                old(self)@->0.remaining().map_values(|x: I::Item| x.text()),
                sepr.text(),
            ),
    {
        let mut out = String::new();
        self.write_joined(&sepr, &mut out);
        out
    }
}

} // verus!
