//! Two small notions on ranges of integers that the models of the renderer
//! and of the footnote linker are built from: what a function yields over a
//! range, joined in order, and the first place in a range where a predicate
//! holds.

use vstd::prelude::*;

verus! {

/// `f(from) + f(from + 1) + ... + f(to - 1)`; empty where the range is.
pub open spec fn concat_range<B>(from: int, to: int, f: spec_fn(int) -> Seq<B>) -> Seq<B>
    decreases to - from,
{
    if to <= from {
        Seq::empty()
    } else {
        concat_range(from, to - 1, f) + f(to - 1)
    }
}

/// The least `i` with `from <= i < to` and `p(i)`, if there is one.
pub open spec fn first_in_range(from: int, to: int, p: spec_fn(int) -> bool) -> Option<int>
    decreases to - from,
{
    if to <= from {
        None
    } else if p(from) {
        Some(from)
    } else {
        first_in_range(from + 1, to, p)
    }
}

/// What `first_in_range` finds lies in the range, satisfies the predicate, and
/// nothing before it does; where it finds nothing, nothing in the range does.
pub proof fn lemma_first_in_range(from: int, to: int, p: spec_fn(int) -> bool)
    ensures
        match first_in_range(from, to, p) {
            Some(i) => from <= i < to && p(i) && forall|j: int| from <= j < i ==> !#[trigger] p(j),
            None => forall|j: int| from <= j < to ==> !#[trigger] p(j),
        },
    decreases to - from,
{
    if to > from && !p(from) {
        lemma_first_in_range(from + 1, to, p);
    }
}

/// Joining over a range falls into the part before `mid` and the part from
/// it.
pub proof fn lemma_concat_range_split<B>(from: int, mid: int, to: int, f: spec_fn(int) -> Seq<B>)
    requires
        from <= mid <= to,
    ensures
        concat_range(from, to, f) == concat_range(from, mid, f) + concat_range(mid, to, f),
    decreases to - mid,
{
    if mid < to {
        lemma_concat_range_split(from, mid, to - 1, f);
    }
}

/// Joining over a range depends only on what the function yields in the
/// range.
pub proof fn lemma_concat_range_same<B>(
    from: int,
    to: int,
    f: spec_fn(int) -> Seq<B>,
    g: spec_fn(int) -> Seq<B>,
)
    requires
        forall|i: int| from <= i < to ==> #[trigger] f(i) == g(i),
    ensures
        concat_range(from, to, f) == concat_range(from, to, g),
    decreases to - from,
{
    if to > from {
        lemma_concat_range_same(from, to - 1, f, g);
    }
}

/// Where every piece of the range is one item, the whole has one item for
/// each place of the range, in the order of the places.
pub proof fn lemma_concat_range_singles<B>(from: int, to: int, f: spec_fn(int) -> Seq<B>)
    requires
        from <= to,
        forall|i: int| from <= i < to ==> #[trigger] f(i).len() == 1,
    ensures
        concat_range(from, to, f).len() == to - from,
        forall|i: int| from <= i < to ==> concat_range(from, to, f)[i - from] == #[trigger] f(i)[0],
    decreases to - from,
{
    if to > from {
        lemma_concat_range_singles(from, to - 1, f);
        assert forall|i: int| from <= i < to implies concat_range(from, to, f)[i - from]
            == #[trigger] f(i)[0] by {
            if i < to - 1 {
                assert(concat_range(from, to - 1, f)[i - from] == f(i)[0]);
            }
        }
    }
}

} // verus!
