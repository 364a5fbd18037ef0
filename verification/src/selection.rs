//! Moving a selection through the positions of a list, around its ends.

use vstd::prelude::*;

verus! {

/// The last position in a list of `len` items, and 0 for an empty list.
pub open spec fn last_position(len: usize) -> usize {
    if len > 0 {
        (len - 1) as usize
    } else {
        0
    }
}

/// The position after `selected` in a list of `len` items: the next one, the first
/// one following the last, and the first one where nothing is selected.
pub open spec fn position_after(selected: Option<usize>, len: usize) -> usize {
    match selected {
        Some(i) => ((i + 1) % (len as int)) as usize,
        None => 0,
    }
}

/// The position before `selected` in a list of `len` items: the one before, the last
/// one preceding the first, and the last one where nothing is selected.
pub open spec fn position_before(selected: Option<usize>, len: usize) -> usize {
    match selected {
        Some(i) => if i == 0 {
            last_position(len)
        } else {
            (i - 1) as usize
        },
        None => last_position(len),
    }
}

/// Whether a selection, if there is one, lies within a list of `len` items.
pub open spec fn in_range(selected: Option<usize>, len: usize) -> bool {
    match selected {
        Some(i) => i < len,
        None => true,
    }
}

/// Computes the position after `selected` in a list of `len` items.
pub fn step_forward(selected: Option<usize>, len: usize) -> (pos: usize)
    requires
        selected is Some ==> len > 0,
    ensures
        pos == position_after(selected, len),
        len > 0 ==> pos < len,
{
    match selected {
        Some(i) => {
            assert((i + 1) % (len as int) == ((i % len) + 1) % (len as int)) by (nonlinear_arith)
                requires
                    len > 0,
                    i >= 0,
            ;
            ((i % len) + 1) % len
        },
        None => 0,
    }
}

/// Computes the position before `selected` in a list of `len` items.
pub fn step_back(selected: Option<usize>, len: usize) -> (pos: usize)
    ensures
        pos == position_before(selected, len),
        in_range(selected, len) && len > 0 ==> pos < len,
{
    let last: usize = if len > 0 {
        len - 1
    } else {
        0
    };
    match selected {
        Some(i) => if i == 0 {
            last
        } else {
            i - 1
        },
        None => last,
    }
}

/// Stepping forward from the last position of a list leads to the first, and stepping
/// back from the first leads to the last.
pub proof fn lemma_steps_wrap_around(len: usize)
    requires
        len > 0,
    ensures
        position_after(Some(last_position(len)), len) == 0,
        position_before(Some(0), len) == last_position(len),
{
    assert((len - 1 + 1) % (len as int) == 0) by (nonlinear_arith)
        requires
            len > 0,
    ;
}

/// Within a list, a step forward and a step back undo each other.
pub proof fn lemma_steps_undo(i: usize, len: usize)
    requires
        i < len,
    ensures
        position_before(Some(position_after(Some(i), len)), len) == i,
        position_after(Some(position_before(Some(i), len)), len) == i,
{
    if i + 1 < len {
        assert((i + 1) % (len as int) == i + 1) by (nonlinear_arith)
            requires
                0 <= i + 1 < len,
        ;
    } else {
        assert((i + 1) % (len as int) == 0) by (nonlinear_arith)
            requires
                i + 1 == len,
                len > 0,
        ;
    }
    if i > 0 {
        assert((i - 1 + 1) % (len as int) == i) by (nonlinear_arith)
            requires
                0 <= i < len,
        ;
    } else {
        assert((len - 1 + 1) % (len as int) == 0) by (nonlinear_arith)
            requires
                len > 0,
        ;
    }
}

} // verus!
