//! The collision layers that tell the kinds of areas apart.
//!
//! An area's layer mask has one bit per layer; the engine reports it as a
//! 32-bit mask, and an area belongs to a layer when that layer's bit is set.

use vstd::prelude::*;

verus! {

/// The layer that enemy planes occupy.
pub const ENEMY_LAYER: u32 = 2;

/// The layer that the player's bullets occupy.
pub const BULLET_LAYER: u32 = 3;

/// The layer that the player's plane occupies.
pub const PLAYER_LAYER: u32 = 4;

/// Whether bit `bit` of `mask` is set.
pub open spec fn has_layer(mask: u32, bit: u32) -> bool {
    (mask >> bit) % 2 == 1
}

/// A mask made of one layer's bit belongs to that layer and to no other.
pub proof fn lemma_single_layer_mask(bit: u32, other: u32)
    requires
        bit < 32,
        other < 32,
    ensures
        has_layer(1u32 << bit, bit),
        other != bit ==> !has_layer(1u32 << bit, other),
{
    assert(((1u32 << bit) >> bit) % 2 == 1) by (bit_vector)
        requires
            bit < 32,
    ;
    assert(other != bit ==> ((1u32 << bit) >> other) % 2 == 0) by (bit_vector)
        requires
            bit < 32,
            other < 32,
    ;
}

/// Whether an area with layer mask `mask` belongs to layer `bit`.
pub fn on_layer(mask: u32, bit: u32) -> (on: bool)
    requires
        bit < 32,
    ensures
        on == has_layer(mask, bit),
{
    let on = mask & (1u32 << bit) != 0;
    assert(on == ((mask >> bit) % 2 == 1)) by (bit_vector)
        requires
            bit < 32,
            on == (mask & (1u32 << bit) != 0),
    ;
    on
}

} // verus!
