use vstd::prelude::*;

verus! {

/// The texts joined in order, with `sep` between each two neighbours
/// and none before the first or after the last.
pub open spec fn join_texts(texts: Seq<Seq<char>>, sep: Seq<char>) -> Seq<char>
    decreases texts.len(),
{
    if texts.len() == 0 {
        seq![]
    } else if texts.len() == 1 {
        texts[0]
    } else {
        join_texts(texts.drop_last(), sep) + sep + texts.last()
    }
}

/// Joining one more text onto a non-empty prefix adds the separator and that text.
pub proof fn lemma_join_extend(texts: Seq<Seq<char>>, sep: Seq<char>, k: int)
    requires
        1 <= k < texts.len(),
    ensures
        join_texts(texts.take(k + 1), sep) == join_texts(texts.take(k), sep) + sep + texts[k],
{
    assert(texts.take(k + 1).drop_last() =~= texts.take(k));
}

} // verus!
