use vstd::prelude::*;

use crate::render::Render;

verus! {

/// `s` written `n` times in a row, with nothing between.
pub open spec fn repeat_text(s: Seq<char>, n: nat) -> Seq<char>
    decreases n,
{
    if n == 0 {
        seq![]
    } else {
        repeat_text(s, (n - 1) as nat) + s
    }
}

/// Repeating a value no times renders as empty text, and once as its own text.
pub proof fn lemma_repeat_none_or_once(s: Seq<char>)
    ensures
        repeat_text(s, 0) == Seq::<char>::empty(),
        repeat_text(s, 1) == s,
{
    assert(repeat_text(s, 1) == repeat_text(s, 0) + s);
    assert(Seq::<char>::empty() + s =~= s);
}

/// A value rendered a given number of times in a row.
#[derive(Clone, Copy, Debug)]
pub struct Repeated<'ds, D> {
    pub display: &'ds D,
    pub n: usize,
}

impl<'ds, D: Render> Render for Repeated<'ds, D> {
    open spec fn text(&self) -> Seq<char> {
        repeat_text(self.display.text(), self.n as nat)
    }

    fn write_to(&self, out: &mut String) {
        let ghost start = out@;
        let mut i: usize = 0;
        while i < self.n
            invariant
                i <= self.n,
                out@ == start + repeat_text(self.display.text(), i as nat),
            decreases self.n - i,
        {
            self.display.write_to(out);
            i = i + 1;
            assert(out@ =~= start + repeat_text(self.display.text(), i as nat));
        }
    }
}

impl<'ds, D: Render> Repeated<'ds, D> {
    /// The rendered text as a `String`.
    pub fn to_string(&self) -> (r: String)
        ensures
            r@ == self.text(),
    {
        let mut out = String::new();
        self.write_to(&mut out);
        out
    }
}

} // verus!
