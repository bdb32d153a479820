//! An enemy plane: it flies towards the player, faster on later stages, and
//! is shot down by the player's bullets.

use vstd::prelude::*;
use crate::game_state::GameState;
use crate::layers::{has_layer, on_layer, BULLET_LAYER};

verus! {

/// An enemy's speed before the stage is taken into account, in pixels per
/// second.
pub const BASE_SPEED: u16 = 100;

/// How much faster enemies fly for each stage number.
pub const SPEED_PER_STAGE: u16 = 10;

/// The number of enemy sprites to choose from.
pub const SPRITE_COUNT: usize = 8;

/// What an enemy learns of the stage when it becomes ready.
pub enum StageLookup {
    /// The session's game state could not be found.
    Missing,
    /// The game state was found but could not be read.
    Unreadable,
    /// The game state was read; it holds this stage.
    Found(u16),
}

/// The speed an enemy gains from the stage lookup: nothing without a game
/// state, ten times the stage otherwise, where an unreadable state counts as
/// stage one.
pub open spec fn stage_bonus(lookup: StageLookup) -> int {
    match lookup {
        StageLookup::Missing => 0,
        StageLookup::Unreadable => SPEED_PER_STAGE as int,
        StageLookup::Found(stage) => stage * SPEED_PER_STAGE,
    }
}

/// The file name of enemy sprite `i`.
pub open spec fn sprite_name_text(i: int) -> Seq<char> {
    if i == 0 {
        "enemy1_blue.png"@
    } else if i == 1 {
        "enemy1_green.png"@
    } else if i == 2 {
        "enemy1_red.png"@
    } else if i == 3 {
        "enemy1_yellow.png"@
    } else if i == 4 {
        "enemy2_blue.png"@
    } else if i == 5 {
        "enemy2_pink.png"@
    } else if i == 6 {
        "enemy2_red.png"@
    } else {
        "enemy2_yellow.png"@
    }
}

/// The resource path of the sprite chosen by the random number `roll`: the
/// sprite at `roll` modulo the number of sprites.
pub open spec fn sprite_path_text(roll: u32) -> Seq<char> {
    "res://assets/graphics/enemies/"@ + sprite_name_text(roll as int % SPRITE_COUNT as int)
}

/// The file name of enemy sprite `i`.
pub fn sprite_name(i: usize) -> (name: &'static str)
    requires
        i < SPRITE_COUNT,
    ensures
        name@ == sprite_name_text(i as int),
{
    if i == 0 {
        "enemy1_blue.png"
    } else if i == 1 {
        "enemy1_green.png"
    } else if i == 2 {
        "enemy1_red.png"
    } else if i == 3 {
        "enemy1_yellow.png"
    } else if i == 4 {
        "enemy2_blue.png"
    } else if i == 5 {
        "enemy2_pink.png"
    } else if i == 6 {
        "enemy2_red.png"
    } else {
        "enemy2_yellow.png"
    }
}

/// Enemies are faster on later stages: each stage adds the same speed.
pub proof fn lemma_later_stages_are_faster(stage: u16, later: u16)
    requires
        stage <= later,
    ensures
        stage_bonus(StageLookup::Found(stage)) <= stage_bonus(StageLookup::Found(later)),
        stage_bonus(StageLookup::Found(later)) - stage_bonus(StageLookup::Found(stage))
            == (later - stage) * SPEED_PER_STAGE,
{
}

pub struct Enemy {
    pub speed: u16,
}

impl Enemy {
    pub fn new() -> (e: Enemy)
        ensures
            e.speed == BASE_SPEED,
    {
        Enemy { speed: BASE_SPEED }
    }

    /// Adjusts the speed to the stage once the enemy is in the scene.
    pub fn ready(&mut self, lookup: StageLookup)
        requires
            old(self).speed + stage_bonus(lookup) <= u16::MAX,
        ensures
            final(self).speed == old(self).speed + stage_bonus(lookup),
    {
        match lookup {
            StageLookup::Missing => {},
            StageLookup::Unreadable => {
                self.speed = self.speed + SPEED_PER_STAGE;
            },
            StageLookup::Found(stage) => {
                self.speed = self.speed + stage * SPEED_PER_STAGE;
            },
        }
    }

    /// The sprite resource for an enemy entering the scene, picked by the
    /// random number `roll`.
    pub fn sprite_path(roll: u32) -> (path: String)
        ensures
            path@ == sprite_path_text(roll),
    {
        let mut path = String::from_str("res://assets/graphics/enemies/");
        let i = (roll % 8) as usize;
        path.append(sprite_name(i));
        path
    }

    /// Handles an area entering the enemy: a bullet shoots the enemy down,
    /// which scores a kill; anything else leaves everything as it was.
    pub fn area_entered(&self, area_layers: u32, state: &mut GameState) -> (destroyed: bool)
        requires
            has_layer(area_layers, BULLET_LAYER) ==> old(state).kills < u16::MAX,
        ensures
            destroyed == has_layer(area_layers, BULLET_LAYER),
            *final(state) == if destroyed { old(state).with_kill() } else { *old(state) },
    {
        if on_layer(area_layers, BULLET_LAYER) {
            state.increment_kills();
            true
        } else {
            false
        }
    }
}

} // verus!
