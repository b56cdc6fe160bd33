use crate::game_type::GameType;
use crate::gameplay_state::{GameView, GameplayState, lemma_new_game_wf, spec_new_game};
use crate::input::{A_BUTTON, B_BUTTON, DOWN, Input, LEFT, RIGHT, SELECT, START, UP};
use crate::menu_mode::MenuMode;
use crate::modifier::Modifier;
use crate::piece::Piece;
use crate::random::{Random, RandomView, spec_cycle, spec_cycle_n, spec_cycle_search, spec_reject_high};
use vstd::prelude::*;
use vstd::wrapping::u8_specs;

verus! {

/// The mathematical state of a menu machine.
pub ghost struct MenuView {
    pub nmi_on: bool,
    pub delay_timer: u16,
    pub change_to_gameplay_state: bool,
    pub menu_mode: MenuMode,
    pub copyright_skip_timer: u8,
    pub previous_input: Input,
    pub random: RandomView,
    pub frame_counter: u8,
    pub selecting_height: bool,
    pub game_type: GameType,
    pub selected_level: u8,
    pub selected_height: u8,
    pub modifier: Modifier,
}

impl MenuView {
    /// The invariant every reachable menu state keeps: the generator is
    /// well-formed, the level selection stays below 30 (below 10 while
    /// the level screen is up), and the height selection stays below 6.
    pub open spec fn wf(self) -> bool {
        &&& self.random.wf()
        &&& self.selected_level < 30
        &&& (self.menu_mode == MenuMode::LevelSelect ==> self.selected_level < 10)
        &&& self.selected_height < 6
    }
}

/// The menu state a fresh machine starts in: the copyright screen,
/// with the generator already advanced through the fixed power-on
/// priming cycles.
pub open spec fn spec_menu_new(modifier: Modifier) -> MenuView {
    MenuView {
        nmi_on: false,
        delay_timer: 268u16,
        change_to_gameplay_state: false,
        menu_mode: MenuMode::CopyrightScreen,
        copyright_skip_timer: 0xffu8,
        previous_input: Input { bits: 0u8 },
        random: spec_cycle_n(
            RandomView { index: 0u16, piece_counter: 0u8, last_piece: Piece::TUp },
            263,
        ),
        frame_counter: 3u8,
        selecting_height: false,
        game_type: GameType::A,
        selected_level: 0u8,
        selected_height: 0u8,
        modifier,
    }
}

/// The copyright screen: it counts its skip timer down and moves on to
/// the title screen when the timer runs out or Start is freshly
/// pressed.
pub open spec fn spec_menu_legal(m: MenuView, input: Input) -> MenuView {
    let m1 = MenuView { nmi_on: true, ..m };
    let pressed = input.spec_difference(m1.previous_input);
    if pressed != (Input { bits: START }) && m1.copyright_skip_timer != 0 {
        MenuView { copyright_skip_timer: (m1.copyright_skip_timer - 1) as u8, ..m1 }
    } else {
        MenuView { menu_mode: MenuMode::TitleScreen, delay_timer: 5u16, ..m1 }
    }
}

/// The title screen: a fresh Start press moves on to the game-type
/// menu.
pub open spec fn spec_menu_title(m: MenuView, input: Input) -> MenuView {
    let pressed = input.spec_difference(m.previous_input);
    if pressed == (Input { bits: START }) {
        MenuView { menu_mode: MenuMode::GameTypeSelect, delay_timer: 4u16, ..m }
    } else {
        m
    }
}

/// The game-type menu: Left and Right pick the type, Start moves to
/// level selection (reducing the remembered level modulo 10 and
/// priming the generator with four cycles), and B returns to the
/// title.
pub open spec fn spec_menu_game_type(m: MenuView, input: Input) -> MenuView {
    let pressed = input.spec_difference(m.previous_input);
    if pressed == (Input { bits: LEFT }) {
        MenuView { game_type: GameType::A, ..m }
    } else if pressed == (Input { bits: RIGHT }) {
        MenuView { game_type: GameType::B, ..m }
    } else if pressed == (Input { bits: START }) {
        MenuView {
            menu_mode: MenuMode::LevelSelect,
            delay_timer: 5u16,
            selecting_height: false,
            selected_level: (m.selected_level % 10) as u8,
            nmi_on: false,
            random: spec_cycle_n(m.random, 4),
            ..m
        }
    } else if pressed == (Input { bits: B_BUTTON }) {
        MenuView { menu_mode: MenuMode::TitleScreen, delay_timer: 6u16, ..m }
    } else {
        m
    }
}

/// The level (and, for type B, height) selection screen; see
/// [`spec_menu_level`].
pub open spec fn spec_level_delta(pressed: Input) -> int {
    if pressed == (Input { bits: RIGHT }) {
        1
    } else if pressed == (Input { bits: LEFT }) {
        -1
    } else if pressed == (Input { bits: DOWN }) {
        5
    } else if pressed == (Input { bits: UP }) {
        -5
    } else {
        0
    }
}

/// The height adjustment a fresh press asks for on the height
/// selector.
pub open spec fn spec_height_delta(pressed: Input) -> int {
    if pressed == (Input { bits: RIGHT }) {
        1
    } else if pressed == (Input { bits: LEFT }) {
        -1
    } else if pressed == (Input { bits: DOWN }) {
        3
    } else if pressed == (Input { bits: UP }) {
        -3
    } else {
        0
    }
}

/// The level selection screen: the directional presses move the level
/// (or, while the height selector is active, the height) within range;
/// a fresh A press on a type-B game toggles the height selector; Start
/// confirms, adding 10 when A is held — or 20 when Select is held and
/// the configuration allows it; B returns to the game-type menu; any
/// other frame runs the generator's rejection sampling twice.
pub open spec fn spec_menu_level(m: MenuView, input: Input) -> MenuView {
    let m1 = MenuView { nmi_on: true, ..m };
    let pressed = input.spec_difference(m1.previous_input);
    let m2 = if m1.selecting_height {
        let new_height = m1.selected_height + spec_height_delta(pressed);
        if 0 <= new_height < 6 {
            MenuView { selected_height: new_height as u8, ..m1 }
        } else {
            m1
        }
    } else {
        let new_level = m1.selected_level + spec_level_delta(pressed);
        if 0 <= new_level < 10 {
            MenuView { selected_level: new_level as u8, ..m1 }
        } else {
            m1
        }
    };
    let m3 = if pressed == (Input { bits: A_BUTTON }) && m2.game_type == GameType::B {
        MenuView { selecting_height: !m2.selecting_height, ..m2 }
    } else {
        m2
    };
    if pressed == (Input { bits: START }) {
        let bump: u8 = if m3.modifier.select_adds_20_levels && input == (Input {
            bits: START | SELECT,
        }) {
            20u8
        } else if input == (Input { bits: START | A_BUTTON }) {
            10u8
        } else {
            0u8
        };
        MenuView {
            selected_level: u8_specs::wrapping_add(m3.selected_level, bump),
            delay_timer: 3u16,
            menu_mode: MenuMode::InitializingGame,
            ..m3
        }
    } else if pressed == (Input { bits: B_BUTTON }) {
        MenuView { delay_timer: 4u16, menu_mode: MenuMode::GameTypeSelect, ..m3 }
    } else {
        MenuView {
            random: spec_cycle_search(
                spec_cycle_search(m3.random, spec_reject_high()),
                spec_reject_high(),
            ),
            ..m3
        }
    }
}

/// The game-initialization screen: one more frame-counter tick, the
/// game-type-dependent final delay, and the handoff flag.
pub open spec fn spec_menu_init(m: MenuView) -> MenuView {
    MenuView {
        frame_counter: (u8_specs::wrapping_add(m.frame_counter, 1) % 4) as u8,
        delay_timer: if m.game_type == GameType::A {
            1u16
        } else {
            13u16
        },
        nmi_on: false,
        change_to_gameplay_state: true,
        ..m
    }
}

/// The menu-screen dispatch of one frame.
pub open spec fn spec_menu_main(m: MenuView, input: Input) -> MenuView {
    match m.menu_mode {
        MenuMode::CopyrightScreen => spec_menu_legal(m, input),
        MenuMode::TitleScreen => spec_menu_title(m, input),
        MenuMode::GameTypeSelect => spec_menu_game_type(m, input),
        MenuMode::LevelSelect => spec_menu_level(m, input),
        MenuMode::InitializingGame => spec_menu_init(m),
    }
}

/// The tail of a menu frame, after the frame counter and delay timer
/// have advanced: either the handoff constructs a gameplay state from
/// one extra generator cycle, or the screen logic runs.
pub open spec fn spec_menu_step_rest(m: MenuView, input: Input) -> (MenuView, Option<GameView>) {
    if m.change_to_gameplay_state {
        let r2 = spec_cycle(m.random);
        let g = spec_new_game(
            r2,
            m.frame_counter,
            m.previous_input,
            m.game_type,
            m.selected_level,
            m.selected_height,
            m.modifier,
        );
        (MenuView { random: r2, ..m }, Some(g))
    } else {
        (MenuView { previous_input: input, ..spec_menu_main(m, input) }, None)
    }
}

/// One full menu frame: while NMIs are on, the frame counter and
/// generator tick; a running delay timer swallows the frame until it
/// runs out; then the handoff or the screen logic runs.
pub open spec fn spec_menu_step(m: MenuView, input: Input) -> (MenuView, Option<GameView>) {
    let m1 = if m.nmi_on {
        MenuView {
            frame_counter: (u8_specs::wrapping_add(m.frame_counter, 1) % 4) as u8,
            random: spec_cycle(m.random),
            ..m
        }
    } else {
        m
    };
    if m1.delay_timer > 0 {
        let d = (m1.delay_timer - 1) as u16;
        let m2 = MenuView { delay_timer: d, ..m1 };
        if d == 0 {
            spec_menu_step_rest(MenuView { nmi_on: true, ..m2 }, input)
        } else {
            (MenuView { previous_input: input, ..m2 }, None)
        }
    } else {
        spec_menu_step_rest(m1, input)
    }
}

/// One menu frame preserves the menu invariant, and any gameplay state
/// it emits satisfies the gameplay invariant.
pub proof fn lemma_menu_step_wf(m: MenuView, input: Input)
    requires
        m.wf(),
    ensures
        spec_menu_step(m, input).0.wf(),
        spec_menu_step(m, input).1 matches Some(g) ==> g.wf(),
{
    let m1 = if m.nmi_on {
        MenuView {
            frame_counter: (u8_specs::wrapping_add(m.frame_counter, 1) % 4) as u8,
            random: spec_cycle(m.random),
            ..m
        }
    } else {
        m
    };
    lemma_menu_step_rest_wf(m1, input);
    if m1.delay_timer > 0 {
        let d = (m1.delay_timer - 1) as u16;
        let m2 = MenuView { delay_timer: d, ..m1 };
        lemma_menu_step_rest_wf(MenuView { nmi_on: true, ..m2 }, input);
    }
}

/// The tail of a menu frame preserves the menu invariant, and any
/// gameplay state it emits satisfies the gameplay invariant.
pub proof fn lemma_menu_step_rest_wf(m: MenuView, input: Input)
    requires
        m.wf(),
    ensures
        spec_menu_step_rest(m, input).0.wf(),
        spec_menu_step_rest(m, input).1 matches Some(g) ==> g.wf(),
{
    if m.change_to_gameplay_state {
        let r2 = spec_cycle(m.random);
        lemma_new_game_wf(
            r2,
            m.frame_counter,
            m.previous_input,
            m.game_type,
            m.selected_level,
            m.selected_height,
            m.modifier,
        );
    }
}

/// A menu state: a state of the game where the playfield is absent.
///
/// When appropriate, [`step`](Self::step) returns a
/// `Some(GameplayState)`, indicating a transformation of this
/// `MenuState` into a gameplay state. That makes the current value
/// functionally finished, despite it not being dropped; the
/// [`State`](crate::state::State) wrapper handles the replacement
/// automatically.
#[derive(Clone, Debug)]
pub struct MenuState {
    pub nmi_on: bool,
    pub delay_timer: u16,
    pub change_to_gameplay_state: bool,
    pub menu_mode: MenuMode,
    pub copyright_skip_timer: u8,
    pub previous_input: Input,
    pub random: Random,
    pub frame_counter: u8,
    pub selecting_height: bool,
    pub game_type: GameType,
    pub selected_level: u8,
    pub selected_height: u8,
    pub modifier: Modifier,
}

impl View for MenuState {
    type V = MenuView;

    open spec fn view(&self) -> MenuView {
        MenuView {
            nmi_on: self.nmi_on,
            delay_timer: self.delay_timer,
            change_to_gameplay_state: self.change_to_gameplay_state,
            menu_mode: self.menu_mode,
            copyright_skip_timer: self.copyright_skip_timer,
            previous_input: self.previous_input,
            random: self.random@,
            frame_counter: self.frame_counter,
            selecting_height: self.selecting_height,
            game_type: self.game_type,
            selected_level: self.selected_level,
            selected_height: self.selected_height,
            modifier: self.modifier,
        }
    }
}

impl MenuState {
    /// Well-formed menu machines pair the state invariant with a
    /// correct generator table.
    pub open spec fn wf(self) -> bool {
        &&& self@.wf()
        &&& self.random.wf()
    }

    /// Creates a menu machine with the unmodified configuration.
    ///
    /// Equivalent to [`Self::new_with_modifier`] with
    /// [`Modifier::empty`].
    pub fn new() -> (r: Self)
        ensures
            r.wf(),
            r@ == spec_menu_new(Modifier::spec_empty()),
    {
        Self::new_with_modifier(Modifier::empty())
    }

    /// Creates a menu machine at the copyright screen, playing under
    /// the given configuration.
    pub fn new_with_modifier(modifier: Modifier) -> (r: Self)
        ensures
            r.wf(),
            r@ == spec_menu_new(modifier),
    {
        let mut random = Random::new();
        random.cycle_multiple(263);

        Self {
            nmi_on: false,
            previous_input: Input::new(),
            frame_counter: 3,
            random,
            menu_mode: MenuMode::CopyrightScreen,
            game_type: GameType::A,
            selected_level: 0,
            selecting_height: false,
            selected_height: 0,
            copyright_skip_timer: 0xff,
            delay_timer: 268,
            change_to_gameplay_state: false,
            modifier,
        }
    }

    /// Steps to the next state. If `Some(GameplayState)` is returned,
    /// the state has transformed into a gameplay state, which should be
    /// used from now on instead of this `MenuState`.
    pub fn step(&mut self, input: Input) -> (r: Option<GameplayState>)
        requires
            old(self).wf(),
        ensures
            final(self).wf(),
            final(self)@ == spec_menu_step(old(self)@, input).0,
            spec_menu_step(old(self)@, input).1 is Some <==> r is Some,
            r matches Some(g) ==> g.wf() && spec_menu_step(old(self)@, input).1 == Some(g@),
    {
        proof {
            lemma_menu_step_wf(old(self)@, input);
        }
        if self.nmi_on {
            self.frame_counter = self.frame_counter.wrapping_add(1) % 4;
            self.random.cycle();
        }

        if self.delay_timer > 0 {
            self.delay_timer -= 1;
            if self.delay_timer == 0 {
                self.nmi_on = true;
            } else {
                self.previous_input = input;
                return None;
            }
        }

        if self.change_to_gameplay_state {
            self.random.cycle();

            return Some(
                GameplayState::new_with_modifier(
                    &self.random,
                    self.frame_counter,
                    self.previous_input,
                    self.game_type,
                    self.selected_level,
                    self.selected_height,
                    self.modifier,
                ),
            );
        }

        self.step_main_logic(input);
        self.previous_input = input;

        None
    }

    /// The menu-screen dispatch of one frame; see [`spec_menu_main`].
    fn step_main_logic(&mut self, input: Input)
        requires
            old(self).wf(),
        ensures
            final(self)@ == spec_menu_main(old(self)@, input),
            final(self).random.wf(),
    {
        match self.menu_mode {
            MenuMode::CopyrightScreen => self.step_legal_screen(input),
            MenuMode::TitleScreen => self.step_title_screen(input),
            MenuMode::GameTypeSelect => self.step_game_type_menu(input),
            MenuMode::LevelSelect => self.step_level_menu(input),
            MenuMode::InitializingGame => self.step_init_game_state(),
        }
    }

    /// The copyright screen; see [`spec_menu_legal`].
    fn step_legal_screen(&mut self, input: Input)
        requires
            old(self).wf(),
        ensures
            final(self)@ == spec_menu_legal(old(self)@, input),
            final(self).random == old(self).random,
    {
        self.nmi_on = true;

        let pressed_input = input.difference(self.previous_input);
        if pressed_input != Input::from_bits(START) && self.copyright_skip_timer != 0 {
            self.copyright_skip_timer -= 1;
            return;
        }

        self.menu_mode = MenuMode::TitleScreen;
        self.delay_timer = 5;
    }

    /// The title screen; see [`spec_menu_title`].
    fn step_title_screen(&mut self, input: Input)
        requires
            old(self).wf(),
        ensures
            final(self)@ == spec_menu_title(old(self)@, input),
            final(self).random == old(self).random,
    {
        let pressed_input = input.difference(self.previous_input);
        if pressed_input == Input::from_bits(START) {
            self.menu_mode = MenuMode::GameTypeSelect;
            self.delay_timer = 4;
        }
    }

    /// The game-type menu; see [`spec_menu_game_type`].
    fn step_game_type_menu(&mut self, input: Input)
        requires
            old(self).wf(),
        ensures
            final(self)@ == spec_menu_game_type(old(self)@, input),
            final(self).random.wf(),
    {
        let pressed_input = input.difference(self.previous_input);
        if pressed_input == Input::from_bits(LEFT) {
            self.game_type = GameType::A;
        } else if pressed_input == Input::from_bits(RIGHT) {
            self.game_type = GameType::B;
        } else if pressed_input == Input::from_bits(START) {
            self.menu_mode = MenuMode::LevelSelect;
            self.delay_timer = 5;
            self.selecting_height = false;
            self.selected_level %= 10;
            self.nmi_on = false;
            self.random.cycle_multiple(4);
        } else if pressed_input == Input::from_bits(B_BUTTON) {
            self.menu_mode = MenuMode::TitleScreen;
            self.delay_timer = 6;
        }
    }

    /// The level selection screen; see [`spec_menu_level`].
    fn step_level_menu(&mut self, input: Input)
        requires
            old(self).wf(),
        ensures
            final(self)@ == spec_menu_level(old(self)@, input),
            final(self).random.wf(),
    {
        self.nmi_on = true;

        let pressed_input = input.difference(self.previous_input);

        if self.selecting_height {
            let delta: i8 = if pressed_input == Input::from_bits(RIGHT) {
                1
            } else if pressed_input == Input::from_bits(LEFT) {
                -1
            } else if pressed_input == Input::from_bits(DOWN) {
                3
            } else if pressed_input == Input::from_bits(UP) {
                -3
            } else {
                0
            };
            let new_height: i8 = self.selected_height as i8 + delta;

            if 0 <= new_height && new_height < 6 {
                self.selected_height = new_height as u8;
            }
        } else {
            let delta: i8 = if pressed_input == Input::from_bits(RIGHT) {
                1
            } else if pressed_input == Input::from_bits(LEFT) {
                -1
            } else if pressed_input == Input::from_bits(DOWN) {
                5
            } else if pressed_input == Input::from_bits(UP) {
                -5
            } else {
                0
            };
            let new_level: i8 = self.selected_level as i8 + delta;

            if 0 <= new_level && new_level < 10 {
                self.selected_level = new_level as u8;
            }
        }

        if pressed_input == Input::from_bits(A_BUTTON) && self.game_type == GameType::B {
            self.selecting_height = !self.selecting_height;
        }

        if pressed_input == Input::from_bits(START) {
            let bump: u8 = if self.modifier.select_adds_20_levels && input == Input::from_bits(
                START | SELECT,
            ) {
                20
            } else if input == Input::from_bits(START | A_BUTTON) {
                10
            } else {
                0
            };
            self.selected_level = self.selected_level.wrapping_add(bump);
            self.delay_timer = 3;
            self.menu_mode = MenuMode::InitializingGame;
        } else if pressed_input == Input::from_bits(B_BUTTON) {
            self.delay_timer = 4;
            self.menu_mode = MenuMode::GameTypeSelect;
        } else {
            self.random.cycle_past_high_nibbles();
            self.random.cycle_past_high_nibbles();
        }
    }

    /// The game-initialization screen; see [`spec_menu_init`].
    fn step_init_game_state(&mut self)
        requires
            old(self).wf(),
        ensures
            final(self)@ == spec_menu_init(old(self)@),
            final(self).random == old(self).random,
    {
        self.frame_counter = self.frame_counter.wrapping_add(1) % 4;
        match self.game_type {
            GameType::A => {
                self.delay_timer = 1;
            },
            GameType::B => {
                self.delay_timer = 13;
            },
        }
        self.nmi_on = false;
        self.change_to_gameplay_state = true;
    }
}

impl Default for MenuState {
    fn default() -> (r: Self)
        ensures
            r.wf(),
            r@ == spec_menu_new(Modifier::spec_empty()),
    {
        Self::new_with_modifier(Modifier::empty())
    }
}

} // verus!
