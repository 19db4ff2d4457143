use vstd::prelude::*;

verus! {

/// Picking and mapping the items of a sequence with one more item at its
/// end: the item's image follows where it has one.
pub proof fn lemma_filter_map_push<A, B>(items: Seq<A>, last: A, f: spec_fn(A) -> Option<B>)
    ensures
        items.push(last).filter_map(f) == match f(last) {
            Some(image) => items.filter_map(f).push(image),
            None => items.filter_map(f),
        },
{
    assert(items.push(last).drop_last() =~= items);
    match f(last) {
        Some(image) => {
            assert(items.filter_map(f) + seq![image] =~= items.filter_map(f).push(image));
        },
        None => {},
    }
}

/// Picking and mapping goes item by item: over two sequences laid end to
/// end it gives what it gives over the first, followed by what it gives
/// over the second.
pub proof fn lemma_filter_map_concat<A, B>(first: Seq<A>, second: Seq<A>, f: spec_fn(A) -> Option<B>)
    ensures
        (first + second).filter_map(f) == first.filter_map(f) + second.filter_map(f),
    decreases second.len(),
{
    if second.len() == 0 {
        assert(first + second =~= first);
        assert(first.filter_map(f) + second.filter_map(f) =~= first.filter_map(f));
    } else {
        let front = second.drop_last();
        lemma_filter_map_concat(first, front, f);
        assert(first + second =~= (first + front).push(second.last()));
        assert(second =~= front.push(second.last()));
        lemma_filter_map_push(first + front, second.last(), f);
        lemma_filter_map_push(front, second.last(), f);
        assert((first + second).filter_map(f) =~= first.filter_map(f) + second.filter_map(f));
    }
}

} // verus!
