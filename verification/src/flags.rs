//! The capability flags of an item: a mask of independent bits.

use vstd::prelude::*;

verus! {

/// The item can be selected.
pub const ITEM_IS_SELECTABLE: i32 = 1;

/// The item can be edited.
pub const ITEM_IS_EDITABLE: i32 = 2;

/// The item reacts to the user.
pub const ITEM_IS_ENABLED: i32 = 32;

/// The flags of an item whose model says nothing else: enabled and selectable.
pub const DEFAULT_ITEM_FLAGS: i32 = 33;

/// The three capabilities are independent bits, and the default mask is
/// the union of two of them: it does not say that an item can be edited.
pub proof fn lemma_flag_masks()
    ensures
        ITEM_IS_SELECTABLE & ITEM_IS_EDITABLE == 0,
        ITEM_IS_SELECTABLE & ITEM_IS_ENABLED == 0,
        ITEM_IS_EDITABLE & ITEM_IS_ENABLED == 0,
        DEFAULT_ITEM_FLAGS == ITEM_IS_SELECTABLE | ITEM_IS_ENABLED,
        DEFAULT_ITEM_FLAGS & ITEM_IS_EDITABLE == 0,
{
    assert(1i32 & 2i32 == 0) by (bit_vector);
    assert(1i32 & 32i32 == 0) by (bit_vector);
    assert(2i32 & 32i32 == 0) by (bit_vector);
    assert(33i32 == 1i32 | 32i32) by (bit_vector);
    assert(33i32 & 2i32 == 0) by (bit_vector);
}

} // verus!
