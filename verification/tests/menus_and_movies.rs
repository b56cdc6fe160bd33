use meta_nestris::game_type::GameType;
use meta_nestris::gameplay_state::GameplayState;
use meta_nestris::input::{A_BUTTON, Input, RIGHT, SELECT, START};
use meta_nestris::menu_mode::MenuMode;
use meta_nestris::menu_state::MenuState;
use meta_nestris::meta_state::MetaState;
use meta_nestris::modifier::Modifier;
use meta_nestris::movie::Movie;
use meta_nestris::random::Random;
use meta_nestris::state::State;

#[test]
fn power_on_menu_state() {
    let m = MenuState::new();
    assert_eq!(m.menu_mode, MenuMode::CopyrightScreen);
    assert_eq!(m.delay_timer, 268);
    assert_eq!(m.copyright_skip_timer, 0xff);
    assert_eq!(m.random.index, 263);
    assert_eq!(m.frame_counter, 3);
    assert!(!m.nmi_on);
    assert!(!m.change_to_gameplay_state);
}

/// Pressing Start on alternating frames walks the menus from power-on
/// all the way into gameplay.
#[test]
fn menus_reach_gameplay() {
    let mut state = State::new();
    let mut reached_at = None;
    for frame in 0..2000 {
        let input = if frame % 2 == 0 {
            Input::from_bits(START)
        } else {
            Input::new()
        };
        state.step(input);
        if let State::GameplayState(_) = state {
            reached_at = Some(frame);
            break;
        }
    }
    let reached_at = reached_at.expect("menus never reached gameplay");
    assert!(reached_at > 268, "gameplay cannot start before the power-on delay");
    match state {
        State::GameplayState(g) => {
            assert_eq!(g.game_type, GameType::A);
            assert_eq!(g.level, 0);
            assert_eq!(g.score, 0);
            assert!(!g.dead);
        },
        State::MenuState(_) => unreachable!(),
    }
}

/// Two facades stepped with the same input script stay bit-identical.
#[test]
fn facade_replays_are_deterministic() {
    let mut a = State::new();
    let mut b = State::new();
    for frame in 0..700u32 {
        let bits = ((frame * 7 + 3) % 256) as u8;
        a.step(Input::from_bits(bits));
        b.step(Input::from_bits(bits));
    }
    match (&a, &b) {
        (State::MenuState(ma), State::MenuState(mb)) => {
            assert_eq!(ma.menu_mode, mb.menu_mode);
            assert_eq!(ma.random.index, mb.random.index);
            assert_eq!(ma.selected_level, mb.selected_level);
        },
        (State::GameplayState(ga), State::GameplayState(gb)) => {
            assert_eq!(ga.score, gb.score);
            assert_eq!(ga.random.index, gb.random.index);
            assert_eq!(ga.line_count, gb.line_count);
        },
        _ => panic!("the two replays diverged"),
    }
}

#[test]
fn game_type_menu_picks_the_type() {
    let mut m = MenuState::new();
    m.menu_mode = MenuMode::GameTypeSelect;
    m.delay_timer = 0;
    m.step(Input::from_bits(RIGHT));
    assert_eq!(m.game_type, GameType::B);
    m.step(Input::new());
    m.step(Input::from_bits(START));
    assert_eq!(m.menu_mode, MenuMode::LevelSelect);
    assert!(!m.selecting_height);
}

/// Confirming the level with A held adds 10 to the selection.
#[test]
fn level_menu_start_with_a_adds_ten() {
    let mut m = MenuState::new();
    m.menu_mode = MenuMode::LevelSelect;
    m.delay_timer = 0;
    m.nmi_on = true;
    m.selected_level = 5;
    m.previous_input = Input::from_bits(A_BUTTON);
    m.step(Input::from_bits(START | A_BUTTON));
    assert_eq!(m.selected_level, 15);
    assert_eq!(m.menu_mode, MenuMode::InitializingGame);
}

/// With the extra shortcut enabled, confirming with Select held adds
/// 20; without it, nothing is added.
#[test]
fn level_menu_select_shortcut_follows_the_configuration() {
    let with = Modifier { cap_score_at_999999: true, select_adds_20_levels: true };
    let mut m = MenuState::new_with_modifier(with);
    m.menu_mode = MenuMode::LevelSelect;
    m.delay_timer = 0;
    m.nmi_on = true;
    m.selected_level = 3;
    m.previous_input = Input::from_bits(SELECT);
    m.step(Input::from_bits(START | SELECT));
    assert_eq!(m.selected_level, 23);

    let mut plain = MenuState::new();
    plain.menu_mode = MenuMode::LevelSelect;
    plain.delay_timer = 0;
    plain.nmi_on = true;
    plain.selected_level = 3;
    plain.previous_input = Input::from_bits(SELECT);
    plain.step(Input::from_bits(START | SELECT));
    assert_eq!(plain.selected_level, 3);
}

#[test]
fn movie_decodes_frame_lines_after_the_header() {
    let lines: Vec<String> = vec![
        "version 3".to_string(),
        "palFlag 0".to_string(),
        "|0|R.......|........||".to_string(),
        "|1|.L......|........||".to_string(),
        "|2|........|........||".to_string(),
    ];
    let movie = Movie::from_lines(&lines).unwrap();
    assert_eq!(movie.inputs.len(), 3);
    assert_eq!(movie.inputs[0], Input::from_bits(0x01));
    assert_eq!(movie.inputs[1], Input::from_bits(0x02));
    assert_eq!(movie.inputs[2], Input::from_bits(0x00));
}

#[test]
fn movie_rejects_a_malformed_frame_line() {
    let lines: Vec<String> = vec![
        "header".to_string(),
        "|0|R.......|".to_string(),
        "not an input line".to_string(),
    ];
    assert!(Movie::from_lines(&lines).is_err());

    let missing_bar: Vec<String> = vec!["|12R.......|".to_string()];
    assert!(Movie::from_lines(&missing_bar).is_err());

    let short_column: Vec<String> = vec!["|12|R......|".to_string()];
    assert!(Movie::from_lines(&short_column).is_err());
}

#[test]
fn empty_movie_decodes_to_no_inputs() {
    let lines: Vec<String> = vec!["just a header".to_string()];
    let movie = Movie::from_lines(&lines).unwrap();
    assert_eq!(movie.inputs.len(), 0);
}

/// Summarizing a gameplay state and expanding it back restores every
/// observable field, with the initial per-spawn drop delay only on an
/// untouched game.
#[test]
fn meta_state_round_trip() {
    let fresh = GameplayState::new(&Random::new(), 0, Input::new(), GameType::A, 0, 0);
    let meta = MetaState::from_gameplay_state_unchecked(&fresh, 7, 263);
    assert_eq!(meta.frame, 7);
    assert_eq!(meta.initial_random_index, 263);
    let expanded = meta.to_gameplay_state();
    assert_eq!(expanded.score, fresh.score);
    assert_eq!(expanded.line_count, fresh.line_count);
    assert_eq!(expanded.current_piece, fresh.current_piece);
    assert_eq!(expanded.next_piece, fresh.next_piece);
    assert_eq!(expanded.random.index, fresh.random.index);
    assert_eq!(expanded.drop_autorepeat, -96);

    let mut touched = GameplayState::new(&Random::new(), 0, Input::new(), GameType::A, 0, 0);
    touched.tiles.set(19 * 10 + 3, true);
    let expanded = MetaState::from_gameplay_state_unchecked(&touched, 0, 0).to_gameplay_state();
    assert_eq!(expanded.drop_autorepeat, 0);
    assert!(expanded.get_tile(3, 19));
}
