//! Cyclic cursor arithmetic over a bounded sequence: the next and the
//! previous index for an optional selection over indices `0 .. len`.

use vstd::prelude::*;

verus! {

/// Lifts an optional machine index to an optional mathematical one.
pub open spec fn sel_view(sel: Option<usize>) -> Option<int> {
    match sel {
        Option::None => Option::None,
        Option::Some(i) => Option::Some(i as int),
    }
}

/// A selection is valid for a list of `n` entries when, if present, it lies
/// within `0 .. n`.
pub open spec fn sel_valid(sel: Option<int>, n: int) -> bool {
    match sel {
        Option::None => true,
        Option::Some(i) => 0 <= i < n,
    }
}

/// The index after `sel` in cyclic order over `0 .. n`: the start when
/// nothing is selected, the start again after the last index, and the
/// successor otherwise.
pub open spec fn advance_spec(sel: Option<int>, n: int) -> int {
    match sel {
        Option::None => 0,
        Option::Some(i) => if i == n - 1 {
            0
        } else {
            i + 1
        },
    }
}

/// The index before `sel` in cyclic order over `0 .. n`: the last index when
/// nothing is selected, the last index again before the start, and the
/// predecessor otherwise.
pub open spec fn retreat_spec(sel: Option<int>, n: int) -> int {
    match sel {
        Option::None => n - 1,
        Option::Some(i) => if i == 0 {
            n - 1
        } else {
            i - 1
        },
    }
}

/// Moves the selection one step towards the end of the list, wrapping to the
/// start; an absent selection starts at the first index.
pub fn advance(sel: Option<usize>, len: usize) -> (next: usize)
    requires
        len >= 1,
        sel_valid(sel_view(sel), len as int),
    ensures
        next == advance_spec(sel_view(sel), len as int),
        next < len,
{
    match sel {
        None => 0,
        Some(i) => if i == len - 1 {
            0
        } else {
            i + 1
        },
    }
}

/// Moves the selection one step towards the start of the list, wrapping to
/// the end; an absent selection starts at the last index.
pub fn retreat(sel: Option<usize>, len: usize) -> (prev: usize)
    requires
        len >= 1,
        sel_valid(sel_view(sel), len as int),
    ensures
        prev == retreat_spec(sel_view(sel), len as int),
        prev < len,
{
    match sel {
        None => len - 1,
        Some(i) => if i == 0 {
            len - 1
        } else {
            i - 1
        },
    }
}

/// Law: from a selected index, moving down then up — or up then down —
/// returns to it, including across the wrap boundary, where
/// `advance(n - 1) == 0` and `retreat(0) == n - 1`. An absent selection is
/// the one exception: the first move lands on a concrete index, and the
/// opposite move then continues from there instead of restoring "no
/// selection".
pub proof fn lemma_advance_retreat_inverse(i: int, n: int)
    requires
        n >= 1,
        0 <= i < n,
    ensures
        retreat_spec(Option::Some(advance_spec(Option::Some(i), n)), n) == i,
        advance_spec(Option::Some(retreat_spec(Option::Some(i), n)), n) == i,
{
}

/// The selection after `k` repetitions of `advance` over `0 .. n`, starting
/// from `sel`.
pub open spec fn advance_times(sel: Option<int>, n: int, k: nat) -> Option<int>
    decreases k,
{
    if k == 0 {
        sel
    } else {
        Option::Some(advance_spec(advance_times(sel, n, (k - 1) as nat), n))
    }
}

/// Law, first half: starting from no selection, the `k`-th repetition of
/// `advance` over `0 .. n` selects index `k - 1`, for `1 <= k <= n` — the
/// `n` repetitions visit every index exactly once, in order.
pub proof fn lemma_advance_visits_each(n: int, k: nat)
    requires
        n >= 1,
        1 <= k <= n,
    ensures
        advance_times(Option::None, n, k) == Option::Some((k - 1) as int),
    decreases k,
{
    if k == 1 {
        assert(advance_times(Option::None, n, 0) == Option::<int>::None);
    } else {
        lemma_advance_visits_each(n, (k - 1) as nat);
    }
}

/// Law, second half: after those `n` repetitions have visited every index,
/// one more repetition of `advance` returns the selection to index 0 — the
/// cycle closes.
pub proof fn lemma_advance_full_cycle(n: int)
    requires
        n >= 1,
    ensures
        advance_times(Option::None, n, n as nat) == Option::Some(n - 1),
        advance_times(Option::None, n, (n + 1) as nat) == Option::Some(0int),
{
    lemma_advance_visits_each(n, n as nat);
}

} // verus!
