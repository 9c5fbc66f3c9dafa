use std::collections::VecDeque;
use vstd::prelude::*;

verus! {

/// The buffer after appending `v` and dropping from the front until at most
/// `max_size` values remain.
pub open spec fn pushed<T>(h: Seq<T>, v: T, max_size: nat) -> Seq<T> {
    let full = h.push(v);
    if full.len() > max_size {
        full.subrange(full.len() - max_size, full.len() as int)
    } else {
        full
    }
}

/// The buffer after pushing each of `vals` in order.
pub open spec fn pushed_all<T>(h: Seq<T>, vals: Seq<T>, max_size: nat) -> Seq<T>
    decreases vals.len(),
{
    if vals.len() == 0 {
        h
    } else {
        pushed(pushed_all(h, vals.drop_last(), max_size), vals.last(), max_size)
    }
}

/// The last `n` values of `s` (all of them when it is shorter).
pub open spec fn last_n<T>(s: Seq<T>, n: nat) -> Seq<T> {
    if s.len() > n {
        s.subrange(s.len() - n, s.len() as int)
    } else {
        s
    }
}

/// Appends a value to a bounded history and drops the oldest values beyond
/// `max_size`; the history stays oldest-first.
pub fn update_history<T>(history: &mut VecDeque<T>, new_value: T, max_size: usize)
    ensures
        final(history)@ == pushed(old(history)@, new_value, max_size as nat),
{
    history.push_back(new_value);
    while history.len() > max_size
        invariant
            last_n(history@, max_size as nat) == pushed(old(history)@, new_value, max_size as nat),
        decreases history@.len(),
    {
        let ghost before = history@;
        let _ = history.pop_front();
        assert(last_n(history@, max_size as nat) =~= last_n(before, max_size as nat));
    }
    assert(last_n(history@, max_size as nat) == history@);
}

/// A history of `len` zeros, so that a chart always has `len` points.
pub fn zero_history_u64(len: usize) -> (r: VecDeque<u64>)
    ensures
        r@ == Seq::new(len as nat, |i: int| 0u64),
{
    let mut r: VecDeque<u64> = VecDeque::new();
    let mut i: usize = 0;
    while i < len
        invariant
            i <= len,
            r@ == Seq::new(i as nat, |j: int| 0u64),
        decreases len - i,
    {
        r.push_back(0);
        i = i + 1;
        assert(r@ =~= Seq::new(i as nat, |j: int| 0u64));
    }
    r
}

/// A history of `len` zeros, so that a chart always has `len` points.
pub fn zero_history_u32(len: usize) -> (r: VecDeque<u32>)
    ensures
        r@ == Seq::new(len as nat, |i: int| 0u32),
{
    let mut r: VecDeque<u32> = VecDeque::new();
    let mut i: usize = 0;
    while i < len
        invariant
            i <= len,
            r@ == Seq::new(i as nat, |j: int| 0u32),
        decreases len - i,
    {
        r.push_back(0);
        i = i + 1;
        assert(r@ =~= Seq::new(i as nat, |j: int| 0u32));
    }
    r
}

/// Pushing values one at a time into a bounded history keeps exactly the
/// last `max_size` of everything it held and received, oldest first, as soon
/// as one value was pushed (or from the start, when it began within bounds).
pub proof fn lemma_pushed_all_keeps_latest<T>(h: Seq<T>, vals: Seq<T>, max_size: nat)
    requires
        h.len() <= max_size || vals.len() > 0,
    ensures
        pushed_all(h, vals, max_size) == last_n(h + vals, max_size),
    decreases vals.len(),
{
    if vals.len() == 0 {
        assert(h + vals =~= h);
    } else if vals.len() == 1 {
        assert(vals.drop_last() =~= Seq::<T>::empty());
        assert(pushed_all(h, vals.drop_last(), max_size) == h);
        assert(h + vals =~= h.push(vals.last()));
        assert(pushed(h, vals.last(), max_size) =~= last_n(h.push(vals.last()), max_size));
    } else {
        lemma_pushed_all_keeps_latest(h, vals.drop_last(), max_size);
        let prev = h + vals.drop_last();
        assert(h + vals =~= prev.push(vals.last()));
        assert(pushed(last_n(prev, max_size), vals.last(), max_size) =~= last_n(
            prev.push(vals.last()),
            max_size,
        ));
    }
}

/// After at least `max_size` pushes, with `max_size` at least one, a history
/// of any starting length has exactly `max_size` values: the most recent
/// ones, oldest first.
pub proof fn lemma_history_after_many_pushes<T>(h: Seq<T>, vals: Seq<T>, max_size: nat)
    requires
        max_size >= 1,
        vals.len() >= max_size,
    ensures
        pushed_all(h, vals, max_size).len() == max_size,
        pushed_all(h, vals, max_size) == vals.subrange(
            vals.len() - max_size,
            vals.len() as int,
        ),
{
    lemma_pushed_all_keeps_latest(h, vals, max_size);
    let all = h + vals;
    assert(last_n(all, max_size) =~= vals.subrange(vals.len() - max_size, vals.len() as int));
}

} // verus!
