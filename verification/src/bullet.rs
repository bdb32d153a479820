//! A bullet fired by the player: it flies straight ahead until it hits an
//! enemy.

use vstd::prelude::*;
use crate::layers::{has_layer, on_layer, ENEMY_LAYER};

verus! {

/// How far a bullet travels forward each second, in pixels.
pub const BULLET_SPEED: u32 = 400;

pub struct Bullet;

impl Bullet {
    pub fn new() -> Bullet {
        Bullet
    }

    /// Whether an area entering the bullet uses it up: it does exactly when
    /// the area is an enemy, and the bullet then disappears.
    pub fn area_entered(&self, area_layers: u32) -> (spent: bool)
        ensures
            spent == has_layer(area_layers, ENEMY_LAYER),
    {
        on_layer(area_layers, ENEMY_LAYER)
    }
}

} // verus!
