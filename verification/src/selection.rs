//! Moving a selection through a list, round and round.
//!
//! The menu and both panes select one entry of a list by its index.  Moving
//! past the last entry leads to the first, and moving above the first leads
//! to the last.  An index into an empty list is 0.

use vstd::prelude::*;

verus! {

/// `selected` points into a list of `len` entries, or is 0 where the list is
/// empty.
pub open spec fn in_range(selected: nat, len: nat) -> bool {
    if len == 0 {
        selected == 0
    } else {
        selected < len
    }
}

/// The index `selected` brought back into a list of `len` entries: the last
/// entry where it pointed past the end, 0 where the list is empty.
pub open spec fn clamp_index(selected: nat, len: nat) -> nat {
    if len == 0 {
        0
    } else if selected >= len {
        (len - 1) as nat
    } else {
        selected
    }
}

/// The index below `selected` in a list of `len` entries, the first entry
/// following the last.
pub open spec fn index_down(selected: nat, len: nat) -> nat {
    if selected + 1 >= len {
        0
    } else {
        selected + 1
    }
}

/// The index above `selected` in a list of `len` entries, the last entry
/// following the first.
pub open spec fn index_up(selected: nat, len: nat) -> nat {
    if len == 0 {
        0
    } else if selected == 0 {
        (len - 1) as nat
    } else {
        (selected - 1) as nat
    }
}

/// The index after `times` moves down.
pub open spec fn index_down_times(selected: nat, len: nat, times: nat) -> nat
    decreases times,
{
    if times == 0 {
        selected
    } else {
        index_down(index_down_times(selected, len, (times - 1) as nat), len)
    }
}

/// The index after `times` moves up.
pub open spec fn index_up_times(selected: nat, len: nat, times: nat) -> nat
    decreases times,
{
    if times == 0 {
        selected
    } else {
        index_up(index_up_times(selected, len, (times - 1) as nat), len)
    }
}

/// Where `times` moves down lead, for no more moves than the list has
/// entries: forward by `times`, less one round where that passes the end.
pub proof fn lemma_index_down_times(selected: nat, len: nat, times: nat)
    requires
        selected < len,
        times <= len,
    ensures
        index_down_times(selected, len, times) == if selected + times < len {
            selected + times
        } else {
            (selected + times - len) as nat
        },
    decreases times,
{
    if times > 0 {
        lemma_index_down_times(selected, len, (times - 1) as nat);
    }
}

/// Where `times` moves up lead, for no more moves than the list has
/// entries: back by `times`, plus one round where that passes the start.
pub proof fn lemma_index_up_times(selected: nat, len: nat, times: nat)
    requires
        selected < len,
        times <= len,
    ensures
        index_up_times(selected, len, times) == if times <= selected {
            (selected - times) as nat
        } else {
            (selected + len - times) as nat
        },
    decreases times,
{
    if times > 0 {
        lemma_index_up_times(selected, len, (times - 1) as nat);
    }
}

/// In a list that is not empty, as many moves down as the list has entries
/// lead back to where they began.
pub proof fn lemma_down_round_trip(selected: nat, len: nat)
    requires
        selected < len,
    ensures
        index_down_times(selected, len, len) == selected,
{
    lemma_index_down_times(selected, len, len);
}

/// In a list that is not empty, as many moves up as the list has entries
/// lead back to where they began.
pub proof fn lemma_up_round_trip(selected: nat, len: nat)
    requires
        selected < len,
    ensures
        index_up_times(selected, len, len) == selected,
{
    lemma_index_up_times(selected, len, len);
}

/// A move down and a move up undo each other, and neither leaves the list.
pub proof fn lemma_moves_stay_in_range(selected: nat, len: nat)
    requires
        in_range(selected, len),
    ensures
        in_range(index_down(selected, len), len),
        in_range(index_up(selected, len), len),
        index_up(index_down(selected, len), len) == selected,
        index_down(index_up(selected, len), len) == selected,
        in_range(clamp_index(selected, len), len),
        clamp_index(selected, len) == selected,
{
}

/// Moves `selected` one entry down in a list of `len` entries.
pub fn step_down(selected: usize, len: usize) -> (next: usize)
    ensures
        next == index_down(selected as nat, len as nat),
{
    if len == 0 || selected >= len - 1 {
        0
    } else {
        selected + 1
    }
}

/// Moves `selected` one entry up in a list of `len` entries.
pub fn step_up(selected: usize, len: usize) -> (next: usize)
    ensures
        next == index_up(selected as nat, len as nat),
{
    if len == 0 {
        0
    } else if selected == 0 {
        len - 1
    } else {
        selected - 1
    }
}

/// Brings `selected` back into a list of `len` entries.
pub fn clamp(selected: usize, len: usize) -> (next: usize)
    ensures
        next == clamp_index(selected as nat, len as nat),
        in_range(next as nat, len as nat),
{
    if len == 0 {
        0
    } else if selected >= len {
        len - 1
    } else {
        selected
    }
}

} // verus!
