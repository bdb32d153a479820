use air_combat::game_state::GameState;
use air_combat::layers::{BULLET_LAYER, ENEMY_LAYER};
use air_combat::player::{InputActions, Player, VerticalStep, VerticalZone};

fn press(up: bool, down: bool, shoot: bool) -> InputActions {
    InputActions { up, down, shoot }
}

#[test]
fn new_player() {
    let p = Player::new();
    assert_eq!(p.speed(), 150);
    assert_eq!(p.vertical_movement(), 0);
    assert!(!p.dying());
}

#[test]
fn up_and_down_steer() {
    let mut p = Player::new();
    assert!(!p.input(&press(true, false, false), true));
    assert_eq!(p.vertical_movement(), -10);
    p.input(&press(false, true, false), true);
    p.input(&press(false, true, false), true);
    assert_eq!(p.vertical_movement(), 10);
    p.input(&press(true, true, false), true);
    assert_eq!(p.vertical_movement(), 10);
}

#[test]
fn climb_saturates_one_step_past_limit() {
    let mut p = Player::new();
    for _ in 0..20 {
        p.input(&press(true, false, false), false);
    }
    assert_eq!(p.vertical_movement(), -200);
    p.input(&press(true, false, false), false);
    assert_eq!(p.vertical_movement(), -210);
    for _ in 0..30 {
        p.input(&press(true, false, false), false);
    }
    assert_eq!(p.vertical_movement(), -210);
}

#[test]
fn dive_saturates_one_step_past_limit() {
    let mut p = Player::new();
    for _ in 0..60 {
        p.input(&press(false, true, false), false);
    }
    assert_eq!(p.vertical_movement(), 210);
    p.input(&press(true, true, false), false);
    assert_eq!(p.vertical_movement(), 210);
}

#[test]
fn shooting_needs_a_cool_gun() {
    let mut p = Player::new();
    assert!(p.input(&press(false, false, true), true));
    assert!(!p.input(&press(false, false, true), false));
    assert!(!p.input(&press(false, false, false), true));
}

#[test]
fn frame_inside_glides() {
    let mut p = Player::new();
    p.input(&press(false, true, false), false);
    let out = p.process(VerticalZone::Inside, true);
    assert!(matches!(out.vertical, VerticalStep::Glide(10)));
    assert!(!out.report_death);
    assert!(!out.remove);
    assert_eq!(p.vertical_movement(), 10);
}

#[test]
fn frame_outside_pushes_back_and_levels() {
    let mut p = Player::new();
    p.input(&press(true, false, false), false);
    let out = p.process(VerticalZone::AboveTop, false);
    assert!(matches!(out.vertical, VerticalStep::Push(10)));
    assert_eq!(p.vertical_movement(), 0);
    p.input(&press(false, true, false), false);
    let out = p.process(VerticalZone::BelowBottom, false);
    assert!(matches!(out.vertical, VerticalStep::Push(-10)));
    assert_eq!(p.vertical_movement(), 0);
}

#[test]
fn frame_on_top_margin_holds() {
    let mut p = Player::new();
    p.input(&press(true, false, false), false);
    let out = p.process(VerticalZone::OnTopMargin, false);
    assert!(matches!(out.vertical, VerticalStep::Hold));
    assert_eq!(p.vertical_movement(), -10);
}

#[test]
fn enemy_blows_the_plane_up() {
    let mut p = Player::new();
    let mut s = GameState::new();
    assert!(!p.area_entered(1 << BULLET_LAYER, &mut s));
    assert!(!p.dying());
    assert_eq!(s.kills, 0);
    assert!(p.area_entered(1 << ENEMY_LAYER, &mut s));
    assert!(p.dying());
    assert_eq!(s.kills, 1);
}

#[test]
fn dying_plane_leaves_and_reports_when_timer_ends() {
    let mut p = Player::new();
    let mut s = GameState::new();
    p.explode(&mut s);
    let out = p.process(VerticalZone::Inside, false);
    assert!(out.remove);
    assert!(!out.report_death);
    let out = p.process(VerticalZone::Inside, true);
    assert!(out.remove);
    assert!(out.report_death);
}

#[test]
fn stop_halts_forward_flight() {
    let mut p = Player::new();
    p.input(&press(true, false, false), false);
    p.stop();
    assert_eq!(p.speed(), 0);
    assert_eq!(p.vertical_movement(), -10);
}
