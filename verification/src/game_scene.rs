//! A stage of the game: it shows the stage banner, then launches the player
//! and a wave of enemies; reaching the end of the stage leads to the next
//! one, and the player's death ends the game.

use vstd::prelude::*;
use crate::game_state::GameState;
use crate::layers::{has_layer, on_layer, PLAYER_LAYER};
use crate::player::Player;

verus! {

/// Where the player's plane starts, in pixels.
pub const PLAYER_START_X: i32 = 300;
pub const PLAYER_START_Y: i32 = 360;

/// How far ahead of the plane the camera looks, in pixels.
pub const CAMERA_LEAD: i32 = 360;

/// Where the game-over banner is shown, in pixels.
pub const GAME_OVER_X: i32 = 440;
pub const GAME_OVER_Y: i32 = 360;

/// The text of the game-over banner.
pub const GAME_OVER_TEXT: &'static str = "Game Over";

/// The nearest distance at which enemies are placed, in pixels.
pub const SPAWN_NEAREST_X: u32 = 700;

/// The width of the band in which enemies are placed, in pixels.
pub const SPAWN_BAND: u32 = 5000;

/// The number of enemies in a wave, besides one more per stage.
pub const BASE_WAVE: u16 = 11;

/// The phases of a stage.
#[derive(PartialEq, Eq, Structural)]
pub enum SceneState {
    /// The stage banner is being shown.
    Loading,
    /// The player is flying.
    Running,
    /// The player has died.
    GameOver,
}

pub struct GameScene {
    state: SceneState,
}

/// The number of enemies in the wave of `stage`.
pub open spec fn wave_size(stage: int) -> int {
    BASE_WAVE + stage
}

/// The distance at which an enemy is placed, picked by the random number
/// `roll`.
pub open spec fn spawn_distance(roll: int) -> int {
    SPAWN_NEAREST_X + roll % (SPAWN_BAND as int)
}

/// Whether an area with layer mask `area_layers` entering the end of the
/// stage finishes the stage in phase `phase`: the player must reach it while
/// the stage is running.
pub open spec fn finishes_stage(phase: SceneState, area_layers: u32) -> bool {
    has_layer(area_layers, PLAYER_LAYER) && phase == SceneState::Running
}

/// Once the game is over, and before the stage runs, nothing finishes the
/// stage: the session never moves on to the next stage from a stage that the
/// player died in or has not yet started flying.
pub proof fn lemma_only_a_running_stage_finishes(area_layers: u32)
    ensures
        !finishes_stage(SceneState::GameOver, area_layers),
        !finishes_stage(SceneState::Loading, area_layers),
{
}

/// Only the player finishes a stage: an area off the player's layer never
/// does, whatever the phase, while the player on a running stage always
/// does, whatever other layers its area is on.
pub proof fn lemma_only_the_player_finishes(phase: SceneState, area_layers: u32)
    ensures
        !has_layer(area_layers, PLAYER_LAYER) ==> !finishes_stage(phase, area_layers),
        has_layer(area_layers, PLAYER_LAYER) && phase == SceneState::Running ==> finishes_stage(
            phase,
            area_layers,
        ),
{
}

/// The waves grow with the stages: a later stage never has fewer enemies.
pub proof fn lemma_waves_grow(stage: int, later: int)
    requires
        stage <= later,
    ensures
        wave_size(stage) <= wave_size(later),
        wave_size(later) - wave_size(stage) == later - stage,
{
}

impl GameScene {
    /// The phase the stage is in.
    pub closed spec fn phase(&self) -> SceneState {
        self.state
    }

    pub fn new() -> (s: GameScene)
        ensures
            s.phase() == SceneState::Loading,
    {
        GameScene { state: SceneState::Loading }
    }

    pub fn state(&self) -> (state: SceneState)
        ensures
            state == self.phase(),
    {
        match self.state {
            SceneState::Loading => SceneState::Loading,
            SceneState::Running => SceneState::Running,
            SceneState::GameOver => SceneState::GameOver,
        }
    }

    /// The banner has been shown: the stage starts running, and a wave of
    /// enemies is launched. Returns the number of enemies in the wave of
    /// `stage`.
    pub fn start_animation_done(&mut self, stage: u16) -> (wave: u32)
        requires
            stage + BASE_WAVE - 1 <= u16::MAX,
        ensures
            final(self).phase() == SceneState::Running,
            wave == wave_size(stage as int),
    {
        self.state = SceneState::Running;
        GameScene::wave_size(stage)
    }

    /// The number of enemies in the wave of `stage`: the wave counts from
    /// zero up to ten more than the stage, both included.
    pub fn wave_size(stage: u16) -> (n: u32)
        requires
            stage + BASE_WAVE - 1 <= u16::MAX,
        ensures
            n == wave_size(stage as int),
    {
        let last: u16 = BASE_WAVE - 1 + stage;
        last as u32 + 1
    }

    /// The distance at which an enemy is placed, picked by the random number
    /// `roll`: at least the nearest distance, within the band beyond it.
    pub fn spawn_distance(roll: u32) -> (x: u32)
        ensures
            x == spawn_distance(roll as int),
            SPAWN_NEAREST_X <= x < SPAWN_NEAREST_X + SPAWN_BAND,
    {
        SPAWN_NEAREST_X + roll % SPAWN_BAND
    }

    /// Whether an area with layer mask `area_layers` entering the end of the
    /// stage finishes it now.
    pub fn finishes_stage(&self, area_layers: u32) -> (finishes: bool)
        ensures
            finishes == finishes_stage(self.phase(), area_layers),
    {
        on_layer(area_layers, PLAYER_LAYER) && self.state == SceneState::Running
    }

    /// Handles an area entering the end of the stage. When the player
    /// reaches it while the stage is running, the plane stops, the session
    /// moves on to the next stage and the stage is to be reloaded; the
    /// result says whether to reload. Otherwise nothing changes.
    pub fn area_entered(&self, area_layers: u32, player: &mut Player, state: &mut GameState) -> (reload: bool)
        requires
            finishes_stage(self.phase(), area_layers) ==> old(state).current_stage < u16::MAX,
        ensures
            reload == finishes_stage(self.phase(), area_layers),
            !has_layer(area_layers, PLAYER_LAYER) ==> !reload,
            reload ==> *final(state) == old(state).advanced(),
            !reload ==> *final(state) == *old(state),
            reload ==> final(player).forward_speed() == 0,
            !reload ==> final(player).forward_speed() == old(player).forward_speed(),
            final(player).rate() == old(player).rate(),
            final(player).is_dying() == old(player).is_dying(),
    {
        if self.finishes_stage(area_layers) {
            player.stop();
            state.advance_to_next_stage();
            true
        } else {
            false
        }
    }

    /// The player has died: the game is over.
    pub fn player_died(&mut self)
        ensures
            final(self).phase() == SceneState::GameOver,
    {
        self.state = SceneState::GameOver;
    }
}

} // verus!
