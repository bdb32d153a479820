use air_combat::game_scene::{GameScene, SceneState, GAME_OVER_TEXT};
use air_combat::game_state::GameState;
use air_combat::layers::{BULLET_LAYER, PLAYER_LAYER};
use air_combat::player::Player;

#[test]
fn scene_starts_loading() {
    assert!(GameScene::new().state() == SceneState::Loading);
}

#[test]
fn banner_done_starts_the_stage_with_a_wave() {
    let mut scene = GameScene::new();
    assert_eq!(scene.start_animation_done(1), 12);
    assert!(scene.state() == SceneState::Running);
    assert_eq!(GameScene::wave_size(5), 16);
    assert_eq!(GameScene::wave_size(65525), 65536);
}

#[test]
fn spawn_distances() {
    assert_eq!(GameScene::spawn_distance(0), 700);
    assert_eq!(GameScene::spawn_distance(4999), 5699);
    assert_eq!(GameScene::spawn_distance(5000), 700);
    assert_eq!(GameScene::spawn_distance(12345), 2345 + 700);
    assert_eq!(GameScene::spawn_distance(u32::MAX), 700 + u32::MAX % 5000);
}

#[test]
fn player_at_the_end_of_a_running_stage_moves_on() {
    let mut scene = GameScene::new();
    scene.start_animation_done(1);
    let mut p = Player::new();
    let mut s = GameState { kills: 6, current_stage: 1 };
    assert!(scene.area_entered(1 << PLAYER_LAYER, &mut p, &mut s));
    assert_eq!(s.current_stage, 2);
    assert_eq!(s.kills, 6);
    assert_eq!(p.speed(), 0);
}

#[test]
fn end_of_stage_ignores_other_areas() {
    let mut scene = GameScene::new();
    scene.start_animation_done(1);
    let mut p = Player::new();
    let mut s = GameState::new();
    assert!(!scene.area_entered(1 << BULLET_LAYER, &mut p, &mut s));
    assert_eq!(s.current_stage, 1);
    assert_eq!(p.speed(), 150);
}

#[test]
fn no_stage_advance_before_running_or_after_death() {
    let scene = GameScene::new();
    let mut p = Player::new();
    let mut s = GameState::new();
    assert!(!scene.area_entered(1 << PLAYER_LAYER, &mut p, &mut s));
    let mut scene = GameScene::new();
    scene.start_animation_done(1);
    scene.player_died();
    assert!(scene.state() == SceneState::GameOver);
    assert!(!scene.area_entered(1 << PLAYER_LAYER, &mut p, &mut s));
    assert_eq!(s.current_stage, 1);
    assert_eq!(p.speed(), 150);
    assert_eq!(GAME_OVER_TEXT, "Game Over");
}
