use kd_rusty_crawler::{Effect, GameState, Session, Tile};

#[test]
fn menu_new_game_asks_for_name() {
    let (next, effect) = Session::Menu.step("1");
    assert!(matches!(next, Session::EnteringName));
    assert_eq!(effect, Effect::PromptName);
}

#[test]
fn menu_load_is_not_implemented() {
    let (next, effect) = Session::Menu.step("2");
    assert!(matches!(next, Session::Menu));
    assert_eq!(effect, Effect::LoadNotImplemented);
}

#[test]
fn menu_quit_on_either_token() {
    let (next, effect) = Session::Menu.step("3");
    assert!(matches!(next, Session::Menu));
    assert_eq!(effect, Effect::Farewell);
    let (next, effect) = Session::Menu.step("q");
    assert!(matches!(next, Session::Menu));
    assert_eq!(effect, Effect::Farewell);
}

#[test]
fn menu_rejects_other_input() {
    let (next, effect) = Session::Menu.step("7");
    assert!(matches!(next, Session::Menu));
    assert_eq!(effect, Effect::InvalidChoice);
    let (_, effect) = Session::Menu.step("12");
    assert_eq!(effect, Effect::InvalidChoice);
    let (_, effect) = Session::Menu.step("");
    assert_eq!(effect, Effect::InvalidChoice);
}

#[test]
fn entering_a_name_starts_a_fresh_run() {
    let (next, effect) = Session::EnteringName.step("Hero");
    assert_eq!(effect, Effect::RenderGame);
    match next {
        Session::InGame(game) => {
            assert_eq!(game.player.name, "Hero");
            assert_eq!(game.player.health, 100);
            assert_eq!(game.player.level, 1);
            assert!(matches!(game.state, GameState::Running));
            assert_eq!(game.map.width, 40);
            assert_eq!(game.map.height, 15);
            assert_eq!(game.map.rooms.len(), 1);
            assert_eq!(game.map.get_tile(0, 0), Some(Tile::Wall));
            assert_eq!(game.map.get_tile(39, 14), Some(Tile::Wall));
            assert_eq!(game.map.get_tile(20, 7), Some(Tile::Floor));
            assert_eq!(game.map.get_tile(1, 1), Some(Tile::Floor));
        }
        _ => panic!("expected an active game"),
    }
}

#[test]
fn in_game_quit_discards_the_run() {
    let (session, _) = Session::EnteringName.step("Hero");
    let (next, effect) = session.step("q");
    assert!(matches!(next, Session::Menu));
    assert_eq!(effect, Effect::BackToMenu);
}

#[test]
fn in_game_other_input_advances_one_turn() {
    let (session, _) = Session::EnteringName.step("Hero");
    let (next, effect) = session.step("w");
    assert_eq!(effect, Effect::RenderGame);
    match next {
        Session::InGame(game) => {
            assert_eq!(game.player.name, "Hero");
            assert_eq!(game.player.level, 1);
            assert!(matches!(game.state, GameState::Running));
        }
        _ => panic!("expected the game to continue"),
    }
}
