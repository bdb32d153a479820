//! The player's plane: it flies forward at a constant speed, climbs and dives
//! under the player's control, fires bullets, and explodes when an enemy
//! hits it.

use vstd::prelude::*;
use crate::game_state::GameState;
use crate::layers::{has_layer, on_layer, ENEMY_LAYER};

verus! {

/// The forward speed of the plane, in pixels per second.
pub const START_SPEED: u8 = 150;

/// A climb or dive may be steepened as long as its rate has not passed this
/// many pixels per second.
pub const MAX_VERTICAL_MOVEMENT: i16 = 200;

/// How much one press of up or down changes the vertical rate.
pub const VERTICAL_STEP: i16 = 10;

/// How far the plane is pushed back when it has left the screen at the top
/// or the bottom, in pixels.
pub const EDGE_PUSH: i16 = 10;

/// How many shots the plane can fire per second.
pub const RATE_OF_FIRE: u32 = 3;

/// How far below the plane a bullet appears, in pixels.
pub const BULLET_DROP: i32 = 20;

/// How long an exploding plane lingers before the game is over, in
/// milliseconds.
pub const DEATH_DELAY_MS: u32 = 2500;

/// The actions that one input event may carry.
pub struct InputActions {
    pub up: bool,
    pub down: bool,
    pub shoot: bool,
}

/// Where the plane is, vertically, at the start of a frame.
pub enum VerticalZone {
    /// Below the top margin of one pixel and not below the screen's bottom.
    Inside,
    /// Above the top margin.
    AboveTop,
    /// Below the bottom of the screen.
    BelowBottom,
    /// Any other position: exactly on the top margin, or a position that
    /// compares with no bound.
    OnTopMargin,
}

/// How the plane moves vertically in a frame.
pub enum VerticalStep {
    /// It moves at this rate, in pixels per second.
    Glide(i16),
    /// It is pushed by this many pixels (down when positive).
    Push(i16),
    /// It does not move vertically.
    Hold,
}

/// What a frame asks of the engine besides the movement.
pub struct FrameOutcome {
    pub vertical: VerticalStep,
    /// The game scene is to be told that the player has died.
    pub report_death: bool,
    /// The plane is to be removed from the scene.
    pub remove: bool,
}

pub struct Player {
    speed: u8,
    vertical_movement: i16,
    dying: bool,
}

/// The vertical rate after one input event.
pub open spec fn steered(vm: int, up: bool, down: bool) -> int {
    let after_up = if up && vm >= -MAX_VERTICAL_MOVEMENT { vm - VERTICAL_STEP } else { vm };
    if down && after_up <= MAX_VERTICAL_MOVEMENT {
        after_up + VERTICAL_STEP
    } else {
        after_up
    }
}

/// The vertical rates a plane can have: multiples of the step, no steeper
/// than one step past the limit.
pub open spec fn rate_in_bounds(vm: int) -> bool {
    &&& vm % (VERTICAL_STEP as int) == 0
    &&& -(MAX_VERTICAL_MOVEMENT + VERTICAL_STEP) <= vm <= MAX_VERTICAL_MOVEMENT + VERTICAL_STEP
}

/// The vertical rate after a frame in the given zone: it is dropped when the
/// plane has left the screen.
pub open spec fn rate_after_frame(vm: int, zone: VerticalZone) -> int {
    match zone {
        VerticalZone::AboveTop => 0,
        VerticalZone::BelowBottom => 0,
        _ => vm,
    }
}

/// The vertical movement of a frame in the given zone.
pub open spec fn frame_step(vm: int, zone: VerticalZone) -> VerticalStep {
    match zone {
        VerticalZone::Inside => VerticalStep::Glide(vm as i16),
        VerticalZone::AboveTop => VerticalStep::Push(EDGE_PUSH),
        VerticalZone::BelowBottom => VerticalStep::Push((-EDGE_PUSH) as i16),
        VerticalZone::OnTopMargin => VerticalStep::Hold,
    }
}

/// The vertical rate after a sequence of input events, each given by
/// whether it carries up and whether it carries down.
pub open spec fn steered_by(vm: int, inputs: Seq<(bool, bool)>) -> int
    decreases inputs.len(),
{
    if inputs.len() == 0 {
        vm
    } else {
        steered(steered_by(vm, inputs.drop_last()), inputs.last().0, inputs.last().1)
    }
}

/// `n` input events that each carry up only.
pub open spec fn climb_presses(n: nat) -> Seq<(bool, bool)> {
    Seq::new(n, |i: int| (true, false))
}

/// One input event changes the vertical rate by at most one step, and keeps
/// it in bounds.
pub proof fn lemma_one_event_one_step(vm: int, up: bool, down: bool)
    requires
        rate_in_bounds(vm),
    ensures
        rate_in_bounds(steered(vm, up, down)),
        -VERTICAL_STEP <= steered(vm, up, down) - vm <= VERTICAL_STEP,
{
}

/// However the player steers, the vertical rate stays in bounds: a multiple
/// of the step, never steeper than one step past the limit.
pub proof fn lemma_steering_stays_in_bounds(vm: int, inputs: Seq<(bool, bool)>)
    requires
        rate_in_bounds(vm),
    ensures
        rate_in_bounds(steered_by(vm, inputs)),
    decreases inputs.len(),
{
    if inputs.len() > 0 {
        lemma_steering_stays_in_bounds(vm, inputs.drop_last());
        lemma_one_event_one_step(steered_by(vm, inputs.drop_last()), inputs.last().0, inputs.last().1);
    }
}

/// Holding up steepens the climb one step per event until it is one step
/// past the limit, where it stays.
pub proof fn lemma_climb_saturates(vm: int, n: nat)
    requires
        rate_in_bounds(vm),
    ensures
        steered_by(vm, climb_presses(n)) == if vm - n * VERTICAL_STEP >= -(MAX_VERTICAL_MOVEMENT
            + VERTICAL_STEP) {
            vm - n * VERTICAL_STEP
        } else {
            -(MAX_VERTICAL_MOVEMENT + VERTICAL_STEP)
        },
    decreases n,
{
    if n > 0 {
        lemma_climb_saturates(vm, (n - 1) as nat);
        assert(climb_presses(n).drop_last() =~= climb_presses((n - 1) as nat));
        assert(climb_presses(n).last() == (true, false));
    } else {
        assert(climb_presses(n) =~= Seq::<(bool, bool)>::empty());
    }
}

/// `n` input events that each carry down only.
pub open spec fn dive_presses(n: nat) -> Seq<(bool, bool)> {
    Seq::new(n, |i: int| (false, true))
}

/// Down steepens the dive (or eases the climb) by exactly one step whenever
/// the rate has not passed the limit, and up does the mirror; past the limit
/// the pressed direction changes nothing.
pub proof fn lemma_one_press_one_step(vm: int)
    requires
        rate_in_bounds(vm),
    ensures
        vm <= MAX_VERTICAL_MOVEMENT ==> steered(vm, false, true) == vm + VERTICAL_STEP,
        vm > MAX_VERTICAL_MOVEMENT ==> steered(vm, false, true) == vm,
        vm >= -MAX_VERTICAL_MOVEMENT ==> steered(vm, true, false) == vm - VERTICAL_STEP,
        vm < -MAX_VERTICAL_MOVEMENT ==> steered(vm, true, false) == vm,
        steered(vm, false, false) == vm,
{
}

/// Holding down steepens the dive one step per event from any rate in
/// bounds, a climb included, until it is one step past the limit, where it
/// stays.
pub proof fn lemma_dive_saturates(vm: int, n: nat)
    requires
        rate_in_bounds(vm),
    ensures
        steered_by(vm, dive_presses(n)) == if vm + n * VERTICAL_STEP <= MAX_VERTICAL_MOVEMENT
            + VERTICAL_STEP {
            vm + n * VERTICAL_STEP
        } else {
            MAX_VERTICAL_MOVEMENT + VERTICAL_STEP
        },
    decreases n,
{
    if n > 0 {
        lemma_dive_saturates(vm, (n - 1) as nat);
        assert(dive_presses(n).drop_last() =~= dive_presses((n - 1) as nat));
        assert(dive_presses(n).last() == (false, true));
    } else {
        assert(dive_presses(n) =~= Seq::<(bool, bool)>::empty());
    }
}

/// Inside the screen the plane glides at exactly its vertical rate, sign
/// included: a climbing plane moves up and a diving plane moves down.
pub proof fn lemma_inside_glides_at_rate(vm: int)
    requires
        rate_in_bounds(vm),
    ensures
        frame_step(vm, VerticalZone::Inside) matches VerticalStep::Glide(r) && r == vm,
        vm < 0 ==> (frame_step(vm, VerticalZone::Inside) matches VerticalStep::Glide(r) && r < 0),
        vm > 0 ==> (frame_step(vm, VerticalZone::Inside) matches VerticalStep::Glide(r) && r > 0),
{
}

impl Player {
    /// The plane's invariant: its vertical rate stays in bounds.
    pub open spec fn wf(&self) -> bool {
        rate_in_bounds(self.rate())
    }

    /// The vertical rate, in pixels per second (down when positive).
    pub closed spec fn rate(&self) -> int {
        self.vertical_movement as int
    }

    /// The forward speed, in pixels per second.
    pub closed spec fn forward_speed(&self) -> int {
        self.speed as int
    }

    /// Whether the plane has been hit and is exploding.
    pub closed spec fn is_dying(&self) -> bool {
        self.dying
    }

    pub fn new() -> (p: Player)
        ensures
            p.wf(),
            p.forward_speed() == START_SPEED,
            p.rate() == 0,
            !p.is_dying(),
    {
        Player { speed: START_SPEED, vertical_movement: 0, dying: false }
    }

    pub fn speed(&self) -> (speed: u8)
        ensures
            speed == self.forward_speed(),
    {
        self.speed
    }

    pub fn vertical_movement(&self) -> (vm: i16)
        ensures
            vm == self.rate(),
    {
        self.vertical_movement
    }

    pub fn dying(&self) -> (d: bool)
        ensures
            d == self.is_dying(),
    {
        self.dying
    }

    /// Handles one input event: up steepens the climb and down the dive by
    /// one step each, unless the rate is already past the limit; shooting
    /// fires when the gun has cooled down. Returns whether a bullet is fired.
    pub fn input(&mut self, actions: &InputActions, cooldown_done: bool) -> (fire: bool)
        requires
            old(self).wf(),
        ensures
            final(self).wf(),
            final(self).rate() == steered(old(self).rate(), actions.up, actions.down),
            final(self).forward_speed() == old(self).forward_speed(),
            final(self).is_dying() == old(self).is_dying(),
            fire == (actions.shoot && cooldown_done),
            actions.down && !actions.up && old(self).rate() <= MAX_VERTICAL_MOVEMENT
                ==> final(self).rate() == old(self).rate() + VERTICAL_STEP,
            actions.up && !actions.down && old(self).rate() >= -MAX_VERTICAL_MOVEMENT
                ==> final(self).rate() == old(self).rate() - VERTICAL_STEP,
    {
        if actions.up {
            if self.vertical_movement >= -MAX_VERTICAL_MOVEMENT {
                self.vertical_movement = self.vertical_movement - VERTICAL_STEP;
            }
        }
        if actions.down {
            if self.vertical_movement <= MAX_VERTICAL_MOVEMENT {
                self.vertical_movement = self.vertical_movement + VERTICAL_STEP;
            }
        }
        actions.shoot && cooldown_done
    }

    /// Decides a frame: how the plane moves vertically in `zone`, and, once
    /// it is exploding, that it leaves the scene, reporting the death when
    /// the explosion's timer has run out.
    pub fn process(&mut self, zone: VerticalZone, timer_done: bool) -> (out: FrameOutcome)
        requires
            old(self).wf(),
        ensures
            final(self).wf(),
            final(self).rate() == rate_after_frame(old(self).rate(), zone),
            out.vertical == frame_step(old(self).rate(), zone),
            final(self).forward_speed() == old(self).forward_speed(),
            final(self).is_dying() == old(self).is_dying(),
            out.report_death == (old(self).is_dying() && timer_done),
            out.remove == old(self).is_dying(),
            zone is Inside ==> (out.vertical matches VerticalStep::Glide(r) && r == old(self).rate()),
    {
        let vertical = match zone {
            VerticalZone::Inside => VerticalStep::Glide(self.vertical_movement),
            VerticalZone::AboveTop => {
                self.vertical_movement = 0;
                VerticalStep::Push(EDGE_PUSH)
            },
            VerticalZone::BelowBottom => {
                self.vertical_movement = 0;
                VerticalStep::Push(-EDGE_PUSH)
            },
            VerticalZone::OnTopMargin => VerticalStep::Hold,
        };
        FrameOutcome {
            vertical,
            report_death: self.dying && timer_done,
            remove: self.dying,
        }
    }

    /// Stops the plane's forward flight.
    pub fn stop(&mut self)
        ensures
            final(self).forward_speed() == 0,
            final(self).rate() == old(self).rate(),
            final(self).is_dying() == old(self).is_dying(),
    {
        self.speed = 0;
    }

    /// Blows the plane up: the collision scores a kill and the plane starts
    /// dying.
    pub fn explode(&mut self, state: &mut GameState)
        requires
            old(state).kills < u16::MAX,
        ensures
            final(self).is_dying(),
            final(self).forward_speed() == old(self).forward_speed(),
            final(self).rate() == old(self).rate(),
            *final(state) == old(state).with_kill(),
    {
        state.increment_kills();
        self.dying = true;
    }

    /// Handles an area entering the plane: an enemy blows it up.
    pub fn area_entered(&mut self, area_layers: u32, state: &mut GameState) -> (exploded: bool)
        requires
            has_layer(area_layers, ENEMY_LAYER) ==> old(state).kills < u16::MAX,
        ensures
            exploded == has_layer(area_layers, ENEMY_LAYER),
            final(self).is_dying() == (old(self).is_dying() || exploded),
            final(self).forward_speed() == old(self).forward_speed(),
            final(self).rate() == old(self).rate(),
            *final(state) == if exploded { old(state).with_kill() } else { *old(state) },
    {
        if on_layer(area_layers, ENEMY_LAYER) {
            self.explode(state);
            true
        } else {
            false
        }
    }
}

} // verus!
