//! Values kept under numbers, in the order of the numbers.
use vstd::prelude::*;

verus! {

/// Whether the numbers ascend.
pub open spec fn ascending<V>(s: Seq<(u32, V)>) -> bool {
    forall|i: int, j: int| 0 <= i < j < s.len() ==> (#[trigger] s[i]).0 < (#[trigger] s[j]).0
}

/// The value under a number.
pub open spec fn slot<V>(s: Seq<(u32, V)>, index: u32) -> Option<V>
    decreases s.len(),
{
    if s.len() == 0 {
        None
    } else if s[0].0 == index {
        Some(s[0].1)
    } else {
        slot(s.drop_first(), index)
    }
}

/// The values with `value` under a number, in place of what was there.
pub open spec fn with_slot<V>(s: Seq<(u32, V)>, index: u32, value: V) -> Seq<(u32, V)>
    decreases s.len(),
{
    if s.len() == 0 || s[0].0 > index {
        seq![(index, value)] + s
    } else if s[0].0 == index {
        seq![(index, value)] + s.drop_first()
    } else {
        seq![s[0]] + with_slot(s.drop_first(), index, value)
    }
}

/// What stands where, given the position before which all numbers are smaller.
pub proof fn slot_by_position<V>(s: Seq<(u32, V)>, index: u32, p: int, value: V)
    requires
        ascending(s),
        0 <= p <= s.len(),
        forall|j: int| 0 <= j < p ==> (#[trigger] s[j]).0 < index,
        p < s.len() ==> s[p].0 >= index,
    ensures
        slot(s, index) == (if p < s.len() && s[p].0 == index {
            Some(s[p].1)
        } else {
            None
        }),
        with_slot(s, index, value) == (if p < s.len() && s[p].0 == index {
            s.update(p, (index, value))
        } else {
            s.insert(p, (index, value))
        }),
    decreases s.len(),
{
    if s.len() > 0 {
        let tail = s.drop_first();
        assert forall|i: int, j: int| 0 <= i < j < tail.len() implies (#[trigger] tail[i]).0 < (
        #[trigger] tail[j]).0 by {
            assert(s[i + 1].0 < s[j + 1].0);
        }
        if p > 0 {
            assert forall|j: int| 0 <= j < p - 1 implies (#[trigger] tail[j]).0 < index by {
                assert(s[j + 1].0 < index);
            }
            slot_by_position(tail, index, p - 1, value);
            if p < s.len() && s[p].0 == index {
                assert(with_slot(s, index, value) =~= s.update(p, (index, value)));
            } else {
                assert(with_slot(s, index, value) =~= s.insert(p, (index, value)));
            }
        } else if s[0].0 == index {
            assert(with_slot(s, index, value) =~= s.update(p, (index, value)));
        } else {
            assert(with_slot(s, index, value) =~= s.insert(p, (index, value)));
            no_slot_below(s, index);
        }
    } else {
        assert(with_slot(s, index, value) =~= s.insert(p, (index, value)));
    }
}

proof fn no_slot_below<V>(s: Seq<(u32, V)>, index: u32)
    requires
        forall|j: int| 0 <= j < s.len() ==> (#[trigger] s[j]).0 > index,
    ensures
        slot(s, index) is None,
    decreases s.len(),
{
    if s.len() > 0 {
        let tail = s.drop_first();
        assert forall|j: int| 0 <= j < tail.len() implies (#[trigger] tail[j]).0 > index by {
            assert(s[j + 1].0 > index);
        }
        no_slot_below(tail, index);
    }
}

/// Setting a value keeps the numbers in their order; it is then found under its
/// number, and every other value where it was.
pub proof fn setting_a_slot<V>(s: Seq<(u32, V)>, index: u32, value: V, other: u32)
    requires
        ascending(s),
    ensures
        ascending(with_slot(s, index, value)),
        slot(with_slot(s, index, value), index) == Some(value),
        other != index ==> slot(with_slot(s, index, value), other) == slot(s, other),
    decreases s.len(),
{
    let changed = with_slot(s, index, value);
    if s.len() == 0 || s[0].0 > index {
        assert(changed.drop_first() =~= s);
    } else {
        let tail = s.drop_first();
        assert forall|i: int, j: int| 0 <= i < j < tail.len() implies (#[trigger] tail[i]).0 < (
        #[trigger] tail[j]).0 by {
            assert(s[i + 1].0 < s[j + 1].0);
        }
        if s[0].0 == index {
            assert(changed.drop_first() =~= tail);
        } else {
            let rest = with_slot(tail, index, value);
            setting_a_slot(tail, index, value, other);
            assert(changed.drop_first() =~= rest);
            with_slot_numbers(tail, index, value);
            assert forall|i: int, j: int| 0 <= i < j < changed.len() implies (
            #[trigger] changed[i]).0 < (#[trigger] changed[j]).0 by {
                if i > 0 {
                    assert(rest[i - 1].0 < rest[j - 1].0);
                } else {
                    assert(changed[j] == rest[j - 1]);
                    if rest[j - 1].0 != index {
                        let k = choose|k: int|
                            0 <= k < tail.len() && tail[k].0 == rest[j - 1].0;
                        assert(s[k + 1].0 > s[0].0);
                    }
                }
            }
        }
    }
}

proof fn with_slot_numbers<V>(s: Seq<(u32, V)>, index: u32, value: V)
    ensures
        forall|j: int|
            0 <= j < with_slot(s, index, value).len() ==> (#[trigger] with_slot(
                s,
                index,
                value,
            )[j]).0 == index || exists|k: int|
                0 <= k < s.len() && s[k].0 == with_slot(s, index, value)[j].0,
    decreases s.len(),
{
    let changed = with_slot(s, index, value);
    if s.len() == 0 || s[0].0 > index {
        assert forall|j: int| 0 <= j < changed.len() implies (#[trigger] changed[j]).0 == index
            || exists|k: int| 0 <= k < s.len() && s[k].0 == changed[j].0 by {
            if j > 0 {
                assert(s[j - 1].0 == changed[j].0);
            }
        }
    } else {
        let tail = s.drop_first();
        with_slot_numbers(tail, index, value);
        assert forall|j: int| 0 <= j < changed.len() implies (#[trigger] changed[j]).0 == index
            || exists|k: int| 0 <= k < s.len() && s[k].0 == changed[j].0 by {
            if j == 0 {
                assert(s[0].0 == changed[0].0);
            } else if s[0].0 == index {
                assert(s[j].0 == changed[j].0);
            } else {
                let rest = with_slot(tail, index, value);
                assert(changed[j] == rest[j - 1]);
                if rest[j - 1].0 != index {
                    let k = choose|k: int| 0 <= k < tail.len() && tail[k].0 == rest[j - 1].0;
                    assert(s[k + 1].0 == changed[j].0);
                }
            }
        }
    }
}

/// The position before which all numbers are smaller.
pub fn slot_position<T>(slots: &Vec<(u32, T)>, index: u32) -> (r: usize)
    ensures
        r <= slots@.len(),
        forall|j: int| 0 <= j < r ==> (#[trigger] slots@[j]).0 < index,
        r < slots@.len() ==> slots@[r as int].0 >= index,
{
    let mut i: usize = 0;
    while i < slots.len() && slots[i].0 < index
        invariant
            i <= slots@.len(),
            forall|j: int| 0 <= j < i ==> (#[trigger] slots@[j]).0 < index,
        decreases slots@.len() - i,
    {
        i = i + 1;
    }
    i
}

/// Setting a value takes no more room where its number was there, and one more place
/// where it was not.
pub proof fn setting_takes_one_place<V>(s: Seq<(u32, V)>, index: u32, value: V)
    requires
        ascending(s),
    ensures
        slot(s, index) is Some ==> with_slot(s, index, value).len() == s.len(),
        slot(s, index) is None ==> with_slot(s, index, value).len() == s.len() + 1,
    decreases s.len(),
{
    if s.len() > 0 {
        if s[0].0 > index {
            no_slot_below(s, index);
        } else if s[0].0 < index {
            assert(ascending(s.drop_first()));
            setting_takes_one_place(s.drop_first(), index, value);
        }
    }
}

} // verus!
