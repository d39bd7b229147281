//! Finding the first element of a sequence that meets a condition.

use vstd::prelude::*;

verus! {

/// Position of the first of `items` that meets `wanted`, or the number of
/// `items` where none does.
pub open spec fn first_position<T>(items: Seq<T>, wanted: spec_fn(T) -> bool) -> int
    decreases items.len(),
{
    if items.len() == 0 || wanted(items[0]) {
        0
    } else {
        1 + first_position(items.drop_first(), wanted)
    }
}

/// The first position lies within the sequence or at its end, nothing before
/// it meets the condition, and what stands there does.
pub proof fn lemma_first_position<T>(items: Seq<T>, wanted: spec_fn(T) -> bool)
    ensures
        0 <= first_position(items, wanted) <= items.len(),
        forall|i: int| 0 <= i < first_position(items, wanted) ==> !wanted(#[trigger] items[i]),
        first_position(items, wanted) < items.len() ==> wanted(items[first_position(items, wanted)]),
    decreases items.len(),
{
    if items.len() > 0 && !wanted(items[0]) {
        let rest = items.drop_first();
        lemma_first_position(rest, wanted);
        assert forall|i: int| 0 <= i < first_position(items, wanted) implies !wanted(
            #[trigger] items[i],
        ) by {
            if i > 0 {
                assert(items[i] == rest[i - 1]);
            }
        }
    }
}

/// A position with nothing before it that meets the condition, and which
/// either meets it or is the end, is the first position.
pub proof fn lemma_first_position_is<T>(items: Seq<T>, wanted: spec_fn(T) -> bool, at: int)
    requires
        0 <= at <= items.len(),
        forall|i: int| 0 <= i < at ==> !wanted(#[trigger] items[i]),
        at < items.len() ==> wanted(items[at]),
    ensures
        first_position(items, wanted) == at,
    decreases at,
{
    if at > 0 {
        let rest = items.drop_first();
        assert(!wanted(items[0]));
        assert forall|i: int| 0 <= i < at - 1 implies !wanted(#[trigger] rest[i]) by {
            assert(rest[i] == items[i + 1]);
        }
        lemma_first_position_is(rest, wanted, at - 1);
    }
}

} // verus!
