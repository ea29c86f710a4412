use vstd::prelude::*;
use vstd::arithmetic::div_mod::{
    lemma_mod_add_multiples_vanish,
    lemma_mod_self_0,
    lemma_small_mod,
};

verus! {

/// The index that stands for "no selection": what both moves give on an empty list.
pub const NO_SELECTION: usize = 0;

/// The index a list cursor stands on once clamped into a list of `len` items:
/// an index past the end counts as the last item.
pub open spec fn clamped_index(len: int, i: int) -> int {
    if i >= len && len > 0 {
        len - 1
    } else {
        i
    }
}

/// Where the cursor goes on a "down" move: the next item, wrapping to the first.
/// An empty list has no selection: `NO_SELECTION`.
pub open spec fn down_index(len: int, i: int) -> int {
    if len == 0 {
        NO_SELECTION as int
    } else {
        (clamped_index(len, i) + 1) % len
    }
}

/// Where the cursor goes on an "up" move: the previous item, wrapping to the last.
/// An empty list has no selection: `NO_SELECTION`.
pub open spec fn up_index(len: int, i: int) -> int {
    if len == 0 {
        NO_SELECTION as int
    } else {
        (clamped_index(len, i) + len - 1) % len
    }
}

/// Index of the item after `current` in a list of `length` items.
pub fn next_index_on_down(length: usize, current: usize) -> (r: usize)
    ensures
        r == down_index(length as int, current as int),
        length > 0 ==> r < length,
        length == 0 ==> r == NO_SELECTION,
{
    if length == 0 {
        NO_SELECTION
    } else if current >= length - 1 {
        proof {
            lemma_mod_self_0(length as int);
        }
        0
    } else {
        proof {
            lemma_small_mod((current + 1) as nat, length as nat);
        }
        current + 1
    }
}

/// Index of the item before `current` in a list of `length` items.
pub fn next_index_on_up(length: usize, current: usize) -> (r: usize)
    ensures
        r == up_index(length as int, current as int),
        length > 0 ==> r < length,
        length == 0 ==> r == NO_SELECTION,
{
    if length == 0 {
        NO_SELECTION
    } else if current >= length {
        if length == 1 {
            proof {
                lemma_small_mod(0, 1);
            }
            0
        } else {
            proof {
                lemma_mod_add_multiples_vanish(length - 2, length as int);
                lemma_small_mod((length - 2) as nat, length as nat);
            }
            length - 2
        }
    } else if current == 0 {
        proof {
            lemma_small_mod((length - 1) as nat, length as nat);
        }
        length - 1
    } else {
        proof {
            lemma_mod_add_multiples_vanish(current - 1, length as int);
            lemma_small_mod((current - 1) as nat, length as nat);
        }
        current - 1
    }
}

/// Cursor move on "down" over `selection_data`, from `selection_index`.
/// Without a current index the cursor goes to the first item.
pub fn on_down_press_handler<T>(selection_data: &[T], selection_index: Option<usize>) -> (r: usize)
    ensures
        r == match selection_index {
            Some(i) => down_index(selection_data@.len() as int, i as int),
            None => 0,
        },
{
    match selection_index {
        Some(i) => next_index_on_down(selection_data.len(), i),
        None => 0,
    }
}

/// Cursor move on "up" over `selection_data`, from `selection_index`.
/// Without a current index the cursor goes to the first item.
pub fn on_up_press_handler<T>(selection_data: &[T], selection_index: Option<usize>) -> (r: usize)
    ensures
        r == match selection_index {
            Some(i) => up_index(selection_data@.len() as int, i as int),
            None => 0,
        },
{
    match selection_index {
        Some(i) => next_index_on_up(selection_data.len(), i),
        None => 0,
    }
}

/// On a list of `len > 0` items and a valid index `i`, "down" is `(i + 1) % len`
/// and "up" is `(i - 1 + len) % len`, and each move undoes the other.
pub proof fn lemma_down_up_round_trip(len: int, i: int)
    requires
        0 <= i < len,
    ensures
        down_index(len, i) == (i + 1) % len,
        up_index(len, i) == (i - 1 + len) % len,
        up_index(len, down_index(len, i)) == i,
        down_index(len, up_index(len, i)) == i,
{
    lemma_mod_add_multiples_vanish(i - 1, len);
    if i == len - 1 {
        lemma_mod_self_0(len);
        lemma_small_mod((len - 1) as nat, len as nat);
    } else {
        lemma_small_mod((i + 1) as nat, len as nat);
        lemma_mod_add_multiples_vanish(i, len);
        lemma_small_mod(i as nat, len as nat);
    }
    if i == 0 {
        lemma_small_mod((len - 1) as nat, len as nat);
        lemma_mod_self_0(len);
    } else {
        lemma_small_mod((i - 1) as nat, len as nat);
        lemma_small_mod(i as nat, len as nat);
    }
}

} // verus!
