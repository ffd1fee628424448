//! Facts about sequences.
use vstd::prelude::*;

verus! {

/// The values that are there, in their order.
pub open spec fn flattened<T>(s: Seq<Option<T>>) -> Seq<T>
    decreases s.len(),
{
    if s.len() == 0 {
        Seq::empty()
    } else {
        match s.last() {
            Some(x) => flattened(s.drop_last()).push(x),
            None => flattened(s.drop_last()),
        }
    }
}

/// A value in a list, or nothing.
pub open spec fn listed<T>(value: Option<T>) -> Seq<T> {
    match value {
        Some(v) => seq![v],
        None => Seq::empty(),
    }
}

/// What is there among the first `i + 1` is what is there among the first `i`, and
/// then the next one.
pub proof fn flattened_next<T>(s: Seq<Option<T>>, i: int)
    requires
        0 <= i < s.len(),
    ensures
        flattened(s.subrange(0, i + 1)) == (match s[i] {
            Some(x) => flattened(s.subrange(0, i)).push(x),
            None => flattened(s.subrange(0, i)),
        }),
{
    let part = s.subrange(0, i + 1);
    assert(part.last() == s[i]);
    assert(part.drop_last() =~= s.subrange(0, i));
}

/// A sequence up to its end is the sequence.
pub proof fn whole_prefix<T>(s: Seq<T>)
    ensures
        s.subrange(0, s.len() as int) == s,
        s.subrange(0, 0) == Seq::<T>::empty(),
{
    assert(s.subrange(0, s.len() as int) =~= s);
    assert(s.subrange(0, 0) =~= Seq::<T>::empty());
}

/// The first `i + 1` items are the first `i` and the next one.
pub proof fn prefix_next<T>(s: Seq<T>, i: int)
    requires
        0 <= i < s.len(),
    ensures
        s.subrange(0, i + 1) == s.subrange(0, i).push(s[i]),
        s.subrange(0, i + 1).drop_last() == s.subrange(0, i),
        s.subrange(0, i + 1).last() == s[i],
{
    assert(s.subrange(0, i + 1) =~= s.subrange(0, i).push(s[i]));
    assert(s.subrange(0, i + 1).drop_last() =~= s.subrange(0, i));
}

/// What is there stays in its order: one more value comes at the end, and one that is not
/// there changes nothing.
pub proof fn what_is_there_stays_in_order<T>(s: Seq<Option<T>>, x: T)
    ensures
        flattened(s.push(Some(x))) == flattened(s).push(x),
        flattened(s.push(None)) == flattened(s),
        flattened(Seq::<Option<T>>::empty()).len() == 0,
{
    assert(s.push(Some(x)).drop_last() =~= s);
    assert(s.push(None).drop_last() =~= s);
}

/// Where everything is there, nothing is left out.
pub proof fn nothing_there_is_left_out<T>(s: Seq<Option<T>>)
    requires
        forall|i: int| 0 <= i < s.len() ==> #[trigger] s[i] is Some,
    ensures
        flattened(s).len() == s.len(),
        forall|i: int| 0 <= i < s.len() ==> Some(#[trigger] flattened(s)[i]) == s[i],
    decreases s.len(),
{
    if s.len() > 0 {
        let rest = s.drop_last();
        assert forall|i: int| 0 <= i < rest.len() implies #[trigger] rest[i] is Some by {
            assert(rest[i] == s[i]);
        }
        nothing_there_is_left_out(rest);
        assert(s[s.len() - 1] is Some);
        assert forall|i: int| 0 <= i < s.len() implies Some(#[trigger] flattened(s)[i]) == s[i] by {
            if i < rest.len() {
                assert(flattened(s)[i] == flattened(rest)[i]);
                assert(rest[i] == s[i]);
            }
        }
    }
}

/// Each value that is there is kept, and nothing else is.
pub proof fn each_that_is_there_is_kept<T>(s: Seq<Option<T>>, i: int, x: T)
    ensures
        0 <= i < s.len() && s[i] == Some(x) ==> flattened(s).contains(x),
        flattened(s).contains(x) ==> s.contains(Some(x)),
    decreases s.len(),
{
    if s.len() > 0 {
        let rest = s.drop_last();
        each_that_is_there_is_kept(rest, i, x);
        if flattened(rest).contains(x) {
            let k = choose|k: int| 0 <= k < flattened(rest).len() && flattened(rest)[k] == x;
            assert(flattened(s)[k] == x);
            let j = choose|j: int| 0 <= j < rest.len() && rest[j] == Some(x);
            assert(s[j] == Some(x));
        }
        if s.last() is Some {
            assert(flattened(s).last() == s.last()->0);
        }
        if 0 <= i < s.len() && s[i] == Some(x) && i < s.len() - 1 {
            assert(rest[i] == Some(x));
        }
        if flattened(s).contains(x) && !flattened(rest).contains(x) {
            let k = choose|k: int| 0 <= k < flattened(s).len() && flattened(s)[k] == x;
            if k < flattened(rest).len() {
                assert(flattened(rest)[k] == x);
            }
            assert(s.last() == Some(x));
        }
    }
}

} // verus!
