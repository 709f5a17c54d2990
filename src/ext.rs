use vstd::prelude::*;

use crate::consumed::Consumed;
use crate::render::Render;
use crate::repeated::Repeated;

verus! {

/// Repetition for any renderable value.
pub trait DisplayExt: Render + Sized {
    /// The value rendered `n` times in a row.
    fn repeated(&self, n: usize) -> (r: Repeated<'_, Self>)
        ensures
            *r.display == *self,
            r.n == n,
    ;
}

impl<T: Render> DisplayExt for T {
    fn repeated(&self, n: usize) -> (r: Repeated<'_, Self>) {
        Repeated { display: self, n }
    }
}

/// Wrapping for any sequence.
pub trait IntoIteratorExt: Iterator + Sized {
    /// The sequence wrapped in a fused, self-exhausting adapter.
    fn consumed(self) -> (r: Consumed<Self>)
        ensures
            r@ == Some(self),
    ;
}

impl<I: Iterator> IntoIteratorExt for I {
    fn consumed(self) -> (r: Consumed<Self>) {
        Consumed::new(self)
    }
}

} // verus!
