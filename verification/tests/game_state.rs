use air_combat::game_state::GameState;

#[test]
fn new_session_starts_at_stage_one_without_kills() {
    let s = GameState::new();
    assert_eq!(s.kills(), 0);
    assert_eq!(s.current_stage(), 1);
}

#[test]
fn advancing_keeps_kills() {
    let mut s = GameState::new();
    s.increment_kills();
    s.increment_kills();
    s.advance_to_next_stage();
    assert_eq!(s.current_stage(), 2);
    assert_eq!(s.kills(), 2);
}

#[test]
fn counters_count_events() {
    let mut s = GameState::new();
    for _ in 0..7 {
        s.increment_kills();
    }
    for _ in 0..3 {
        s.advance_to_next_stage();
    }
    assert_eq!(s.kills, 7);
    assert_eq!(s.current_stage, 4);
}

#[test]
fn reset_forgets_the_session() {
    let mut s = GameState { kills: 40, current_stage: 9 };
    s.reset();
    assert_eq!(s.kills, 0);
    assert_eq!(s.current_stage, 1);
    s.increment_kills();
    assert_eq!(s.kills, 1);
    assert_eq!(s.current_stage, 1);
}

#[test]
fn kill_and_stage_commute() {
    let mut a = GameState { kills: 3, current_stage: 5 };
    let mut b = GameState { kills: 3, current_stage: 5 };
    a.increment_kills();
    a.advance_to_next_stage();
    b.advance_to_next_stage();
    b.increment_kills();
    assert_eq!((a.kills, a.current_stage), (b.kills, b.current_stage));
}

#[test]
fn counters_reach_their_largest_values() {
    let mut s = GameState { kills: 65534, current_stage: 65534 };
    s.increment_kills();
    s.advance_to_next_stage();
    assert_eq!(s.kills, u16::MAX);
    assert_eq!(s.current_stage, u16::MAX);
}

#[test]
fn stage_label_shows_the_stage() {
    let s = GameState::new();
    assert_eq!(s.stage_label(), "Stage 1");
    let s = GameState { kills: 0, current_stage: 12 };
    assert_eq!(s.stage_label(), "Stage 12");
}

#[test]
fn kills_label_shows_the_kills() {
    let s = GameState::new();
    assert_eq!(s.kills_label(), "Kills: 0");
    let s = GameState { kills: 305, current_stage: 1 };
    assert_eq!(s.kills_label(), "Kills: 305");
    let s = GameState { kills: u16::MAX, current_stage: 1 };
    assert_eq!(s.kills_label(), "Kills: 65535");
}
