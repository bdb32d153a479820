//! The score and stage that one game session carries from scene to scene.

use vstd::prelude::*;
use crate::text::{all_digits, decimal, digits_value, lemma_decimal_reads_back, push_decimal};

verus! {

/// The session's counters: how many kills were scored and which stage is
/// being played.
pub struct GameState {
    pub kills: u16,
    pub current_stage: u16,
}

impl GameState {
    /// The counters at the start of a session: no kills, stage one.
    pub open spec fn initial() -> GameState {
        GameState { kills: 0, current_stage: 1 }
    }

    /// The counters after one more stage was reached.
    pub open spec fn advanced(self) -> GameState {
        GameState { current_stage: (self.current_stage + 1) as u16, ..self }
    }

    /// The counters after one more kill was scored.
    pub open spec fn with_kill(self) -> GameState {
        GameState { kills: (self.kills + 1) as u16, ..self }
    }

    /// The text of the stage banner.
    pub open spec fn stage_text(self) -> Seq<char> {
        "Stage "@ + decimal(self.current_stage as nat)
    }

    /// The text of the kill counter on the HUD.
    pub open spec fn kills_text(self) -> Seq<char> {
        "Kills: "@ + decimal(self.kills as nat)
    }

    /// The stage banner is `Stage ` followed by digits that read back as the
    /// current stage: it shows the stage and nothing else.
    pub proof fn lemma_stage_text_reads_back(s: GameState)
        ensures
            s.stage_text().take(6) == "Stage "@,
            digits_value(s.stage_text().skip(6)) == s.current_stage,
            all_digits(s.stage_text().skip(6)),
    {
        reveal_strlit("Stage ");
        lemma_decimal_reads_back(s.current_stage as nat);
        assert(s.stage_text().take(6) =~= "Stage "@);
        assert(s.stage_text().skip(6) =~= decimal(s.current_stage as nat));
    }

    /// The kill counter is `Kills: ` followed by digits that read back as the
    /// kills: it shows the kills and nothing else.
    pub proof fn lemma_kills_text_reads_back(s: GameState)
        ensures
            s.kills_text().take(7) == "Kills: "@,
            digits_value(s.kills_text().skip(7)) == s.kills,
            all_digits(s.kills_text().skip(7)),
    {
        reveal_strlit("Kills: ");
        lemma_decimal_reads_back(s.kills as nat);
        assert(s.kills_text().take(7) =~= "Kills: "@);
        assert(s.kills_text().skip(7) =~= decimal(s.kills as nat));
    }

    /// The stage banner depends on the stage alone: sessions on the same
    /// stage show the same banner whatever their kills, and sessions on
    /// different stages show different banners.
    pub proof fn lemma_stage_text_depends_on_stage_only(s: GameState, t: GameState)
        ensures
            s.current_stage == t.current_stage ==> s.stage_text() == t.stage_text(),
            s.current_stage != t.current_stage ==> s.stage_text() != t.stage_text(),
    {
        GameState::lemma_stage_text_reads_back(s);
        GameState::lemma_stage_text_reads_back(t);
    }

    pub fn new() -> (s: GameState)
        ensures
            s == GameState::initial(),
    {
        GameState { kills: 0, current_stage: 1 }
    }

    /// Starts a new session: the counters go back to their initial values.
    pub fn reset(&mut self)
        ensures
            *final(self) == GameState::initial(),
    {
        self.kills = 0;
        self.current_stage = 1;
    }

    pub fn current_stage(&self) -> (stage: u16)
        ensures
            stage == self.current_stage,
    {
        self.current_stage
    }

    pub fn kills(&self) -> (kills: u16)
        ensures
            kills == self.kills,
    {
        self.kills
    }

    /// Moves on to the next stage; the kills are kept.
    pub fn advance_to_next_stage(&mut self)
        requires
            old(self).current_stage < u16::MAX,
        ensures
            *final(self) == old(self).advanced(),
            final(self).current_stage == old(self).current_stage + 1,
    {
        self.current_stage = self.current_stage + 1;
    }

    /// Scores one kill; the stage is kept.
    pub fn increment_kills(&mut self)
        requires
            old(self).kills < u16::MAX,
        ensures
            *final(self) == old(self).with_kill(),
            final(self).kills == old(self).kills + 1,
    {
        self.kills = self.kills + 1;
    }

    /// The stage banner shown when a scene starts, such as `Stage 3`.
    pub fn stage_label(&self) -> (label: String)
        ensures
            label@ == self.stage_text(),
            label@.take(6) == "Stage "@,
            digits_value(label@.skip(6)) == self.current_stage,
            all_digits(label@.skip(6)),
    {
        let mut label = String::from_str("Stage ");
        push_decimal(&mut label, self.current_stage as u32);
        proof {
            GameState::lemma_stage_text_reads_back(*self);
        }
        label
    }

    /// The kill counter shown on the HUD, such as `Kills: 12`.
    pub fn kills_label(&self) -> (label: String)
        ensures
            label@ == self.kills_text(),
            label@.take(7) == "Kills: "@,
            digits_value(label@.skip(7)) == self.kills,
            all_digits(label@.skip(7)),
    {
        let mut label = String::from_str("Kills: ");
        push_decimal(&mut label, self.kills as u32);
        proof {
            GameState::lemma_kills_text_reads_back(*self);
        }
        label
    }
}

/// The changes a session's counters go through.
pub enum SessionEvent {
    /// A kill was scored.
    Kill,
    /// The next stage was reached.
    NextStage,
    /// A new session was started.
    Reset,
}

/// The counters after one event.
pub open spec fn apply(s: GameState, e: SessionEvent) -> GameState {
    match e {
        SessionEvent::Kill => s.with_kill(),
        SessionEvent::NextStage => s.advanced(),
        SessionEvent::Reset => GameState::initial(),
    }
}

/// The counters after a sequence of events, in order.
pub open spec fn run(s: GameState, events: Seq<SessionEvent>) -> GameState
    decreases events.len(),
{
    if events.len() == 0 {
        s
    } else {
        apply(run(s, events.drop_last()), events.last())
    }
}

/// The number of events of `events` that satisfy `p`.
pub open spec fn count_events(events: Seq<SessionEvent>, p: spec_fn(SessionEvent) -> bool) -> nat
    decreases events.len(),
{
    if events.len() == 0 {
        0
    } else {
        count_events(events.drop_last(), p) + if p(events.last()) { 1nat } else { 0nat }
    }
}

pub open spec fn is_kill(e: SessionEvent) -> bool {
    e is Kill
}

pub open spec fn is_next_stage(e: SessionEvent) -> bool {
    e is NextStage
}

pub open spec fn is_reset(e: SessionEvent) -> bool {
    e is Reset
}

/// Within a session, the counters count: the kills grow by exactly the kills
/// scored and the stage by exactly the stages reached, each unaffected by
/// the other, as long as neither counter overflows.
pub proof fn lemma_counters_count(s: GameState, events: Seq<SessionEvent>)
    requires
        count_events(events, |e: SessionEvent| is_reset(e)) == 0,
        s.kills + count_events(events, |e: SessionEvent| is_kill(e)) <= u16::MAX,
        s.current_stage + count_events(events, |e: SessionEvent| is_next_stage(e)) <= u16::MAX,
    ensures
        run(s, events).kills == s.kills + count_events(events, |e: SessionEvent| is_kill(e)),
        run(s, events).current_stage == s.current_stage + count_events(
            events,
            |e: SessionEvent| is_next_stage(e),
        ),
    decreases events.len(),
{
    if events.len() > 0 {
        let rest = events.drop_last();
        lemma_counters_count(s, rest);
    }
}

/// Starting a new session forgets everything before it: whatever happened,
/// a reset leaves the counters at their initial values, and what follows
/// counts from there.
pub proof fn lemma_reset_forgets(s: GameState, before: Seq<SessionEvent>, after: Seq<SessionEvent>)
    ensures
        run(s, before.push(SessionEvent::Reset)) == GameState::initial(),
        run(s, before.push(SessionEvent::Reset) + after) == run(GameState::initial(), after),
    decreases after.len(),
{
    let with_reset = before.push(SessionEvent::Reset);
    assert(with_reset.drop_last() =~= before);
    if after.len() > 0 {
        lemma_reset_forgets(s, before, after.drop_last());
        assert((with_reset + after).drop_last() =~= with_reset + after.drop_last());
        assert((with_reset + after).last() == after.last());
    } else {
        assert(with_reset + after =~= with_reset);
    }
}

/// Scoring a kill and reaching the next stage do not interfere: in either
/// order they lead to the same counters.
pub proof fn lemma_kill_and_stage_commute(s: GameState)
    ensures
        s.with_kill().advanced() == s.advanced().with_kill(),
{
}

} // verus!
