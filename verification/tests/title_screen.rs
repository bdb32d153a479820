use air_combat::game_state::GameState;
use air_combat::title_screen::{MenuAction, MenuButton, TitleScreen, GAME_SCENE, QUIT_EXIT_CODE};

#[test]
fn title_screen_resets_the_session() {
    let t = TitleScreen::new();
    let mut s = GameState { kills: 17, current_stage: 4 };
    t.ready(&mut s);
    assert_eq!(s.kills, 0);
    assert_eq!(s.current_stage, 1);
}

#[test]
fn menu_buttons() {
    let t = TitleScreen::new();
    assert!(t.pressed(MenuButton::NewGame) == MenuAction::StartGame);
    assert!(t.pressed(MenuButton::QuitGame) == MenuAction::Quit(-1));
    assert_eq!(QUIT_EXIT_CODE, -1);
    assert_eq!(GAME_SCENE, "res://GameScene.tscn");
}
