//! The menu state machine: its states, the table of its transitions, the
//! screen that each state shows, and the hooks that build and tear down the
//! screens as the state changes.

use crate::application::ApplicationMode;
use crate::interaction::Interaction;
use crate::screen::is_hierarchy;
use crate::screen::lemma_built_has_one_tag;
use crate::screen::lemma_despawn_built;
use crate::screen::tagged;
use crate::screen::with_tag;
use crate::screen::without;
use crate::screen::Element;
use crate::screen::Node;
use crate::screen::ScreenRegistry;
use crate::screen::ScreenTag;
use crate::screen::LABEL_FONT_SIZE;
use crate::settings::difficulties;
use crate::settings::difficulty_button;
use crate::settings::selected;
use crate::settings::Difficulty;
use crate::settings::Setting;
use vstd::prelude::*;

verus! {

/// The screens of the menu. `Disabled` stands for "no screen": it is the
/// state of the menu while the game runs.
#[derive(Clone, Copy, Debug, PartialEq, Eq, Hash, Structural)]
pub enum MenuState {
    Main,
    Difficulty,
    Load,
    Disabled,
}

/// What a click on a button asks for.
#[derive(Clone, Copy, Debug, PartialEq, Eq, Hash, Structural)]
pub enum MenuButtonAction {
    Play,
    StartGame,
    Load,
    BackToMainMenu,
}

/// The table of transitions: the state that `action` leads to from `state`,
/// or nothing where the table has no such pair.
pub open spec fn next_state(state: MenuState, action: MenuButtonAction) -> Option<MenuState> {
    match (state, action) {
        (MenuState::Main, MenuButtonAction::Play) => Some(MenuState::Difficulty),
        (MenuState::Main, MenuButtonAction::Load) => Some(MenuState::Load),
        (MenuState::Difficulty, MenuButtonAction::StartGame) => Some(MenuState::Disabled),
        (MenuState::Load, MenuButtonAction::BackToMainMenu) => Some(MenuState::Main),
        (MenuState::Difficulty, MenuButtonAction::BackToMainMenu) => Some(MenuState::Main),
        _ => None,
    }
}

/// An interaction changes the state when it is a click that asks for an
/// action that the table has for the state.
pub open spec fn effective(state: MenuState, interaction: (Interaction, MenuButtonAction)) -> bool {
    interaction.0 == Interaction::Clicked && next_state(state, interaction.1) is Some
}

/// The action that one tick carries out: that of the first interaction that
/// changes the state. A tick makes one transition at most, so whatever
/// follows that interaction is passed over.
pub open spec fn requested(
    state: MenuState,
    interactions: Seq<(Interaction, MenuButtonAction)>,
) -> Option<MenuButtonAction>
    decreases interactions.len(),
{
    if interactions.len() == 0 {
        None
    } else if effective(state, interactions.first()) {
        Some(interactions.first().1)
    } else {
        requested(state, interactions.drop_first())
    }
}

/// The state of the menu after `request` was carried out.
pub open spec fn state_after(state: MenuState, request: Option<MenuButtonAction>) -> MenuState {
    match request {
        Some(action) => match next_state(state, action) {
            Some(next) => next,
            None => state,
        },
        None => state,
    }
}

/// The mode of the application after `request` was carried out: starting the
/// game from the difficulty screen is what leads into the game.
pub open spec fn mode_after(
    mode: ApplicationMode,
    state: MenuState,
    request: Option<MenuButtonAction>,
) -> ApplicationMode {
    if state == MenuState::Difficulty && request == Some(MenuButtonAction::StartGame) {
        ApplicationMode::Game
    } else {
        mode
    }
}

impl MenuState {
    /// The tag of the screen that this state shows.
    pub open spec fn spec_screen_tag(self) -> Option<ScreenTag> {
        match self {
            MenuState::Main => Some(ScreenTag::MainScreen),
            MenuState::Difficulty => Some(ScreenTag::DifficultyScreen),
            MenuState::Load => Some(ScreenTag::LoadScreen),
            MenuState::Disabled => None,
        }
    }

    /// The tag of the screen that this state shows; `Disabled` shows none.
    #[verifier::when_used_as_spec(spec_screen_tag)]
    pub fn screen_tag(self) -> (tag: Option<ScreenTag>)
        ensures
            tag == self.spec_screen_tag(),
    {
        match self {
            MenuState::Main => Some(ScreenTag::MainScreen),
            MenuState::Difficulty => Some(ScreenTag::DifficultyScreen),
            MenuState::Load => Some(ScreenTag::LoadScreen),
            MenuState::Disabled => None,
        }
    }

    /// Looks `action` up in the table of transitions.
    pub fn next(self, action: MenuButtonAction) -> (next: Option<MenuState>)
        ensures
            next == next_state(self, action),
    {
        match (self, action) {
            (MenuState::Main, MenuButtonAction::Play) => Some(MenuState::Difficulty),
            (MenuState::Main, MenuButtonAction::Load) => Some(MenuState::Load),
            (MenuState::Difficulty, MenuButtonAction::StartGame) => Some(MenuState::Disabled),
            (MenuState::Load, MenuButtonAction::BackToMainMenu) => Some(MenuState::Main),
            (MenuState::Difficulty, MenuButtonAction::BackToMainMenu) => Some(MenuState::Main),
            _ => None,
        }
    }
}

/// The width of the buttons of the main and the load screen.
pub const WIDE_BUTTON: u32 = 250;

/// The width of the back button of the difficulty screen.
pub const BACK_BUTTON: u32 = 200;

/// The width of the button of one difficulty.
pub const OPTION_BUTTON: u32 = 150;

/// The margin around the title of a screen.
pub const TITLE_MARGIN: u32 = 50;

/// The main screen: the title, and below it the buttons that lead to a new
/// game and to the load screen.
pub open spec fn main_screen() -> Seq<Node> {
    seq![
        Node::root(),
        Node::text(0, "Crabber", 80, TITLE_MARGIN),
        Node::button(0, WIDE_BUTTON, MenuButtonAction::Play, None),
        Node::text(2, "New Game", LABEL_FONT_SIZE, 0),
        Node::button(0, WIDE_BUTTON, MenuButtonAction::Load, None),
        Node::text(4, "Load Game", LABEL_FONT_SIZE, 0),
    ]
}

/// The options of the difficulty screen: for each of `values`, in order, a
/// button inside `row` that starts the game with that value, followed by its
/// label. `first` is the position of the first button in the screen.
pub open spec fn option_nodes(values: Seq<Difficulty>, row: usize, first: usize) -> Seq<Node> {
    Seq::new(
        2 * values.len(),
        |k: int|
            if k % 2 == 0 {
                Node::button(
                    row,
                    OPTION_BUTTON,
                    MenuButtonAction::StartGame,
                    Some(values[k / 2]),
                )
            } else {
                Node::text((first + k - 1) as usize, values[k / 2].label(), LABEL_FONT_SIZE, 0)
            },
    )
}

/// What stands above the options on the difficulty screen: the root, the row
/// that holds the options, and the heading inside that row.
pub open spec fn difficulty_heading() -> Seq<Node> {
    seq![Node::root(), Node::row(0), Node::text(1, "Difficulty", LABEL_FONT_SIZE, 0)]
}

/// The difficulty screen: a row with the heading and one option for each
/// difficulty, and below it the button that leads back.
pub open spec fn difficulty_screen() -> Seq<Node> {
    difficulty_heading() + option_nodes(difficulties(), 1, 3) + seq![
        Node::button(0, BACK_BUTTON, MenuButtonAction::BackToMainMenu, None),
        Node::text(9, "Back", LABEL_FONT_SIZE, 0),
    ]
}

/// The load screen: the title and the button that leads back.
pub open spec fn load_screen() -> Seq<Node> {
    seq![
        Node::root(),
        Node::text(0, "Load Game", 60, TITLE_MARGIN),
        Node::button(0, WIDE_BUTTON, MenuButtonAction::BackToMainMenu, None),
        Node::text(2, "Back", LABEL_FONT_SIZE, 0),
    ]
}

/// The description of the screen that carries `tag`.
pub open spec fn screen_of(tag: ScreenTag) -> Seq<Node> {
    match tag {
        ScreenTag::MainScreen => main_screen(),
        ScreenTag::DifficultyScreen => difficulty_screen(),
        ScreenTag::LoadScreen => load_screen(),
    }
}

/// The elements that are live while the menu is in `state`: the screen of
/// that state, every element marked with its tag, and nothing else.
pub open spec fn live_in(state: MenuState) -> Seq<Element> {
    match state.screen_tag() {
        Some(tag) => tagged(tag, screen_of(tag)),
        None => Seq::empty(),
    }
}

/// Builds the main screen.
pub fn main_menu_setup(registry: &mut ScreenRegistry)
    ensures
        final(registry)@ == old(registry)@ + tagged(ScreenTag::MainScreen, main_screen()),
{
    let mut screen: Vec<Node> = Vec::new();
    screen.push(Node::root());
    screen.push(Node::text(0, "Crabber", 80, TITLE_MARGIN));
    let play = screen.len();
    screen.push(Node::button(0, WIDE_BUTTON, MenuButtonAction::Play, None));
    screen.push(Node::text(play, "New Game", LABEL_FONT_SIZE, 0));
    let load = screen.len();
    screen.push(Node::button(0, WIDE_BUTTON, MenuButtonAction::Load, None));
    screen.push(Node::text(load, "Load Game", LABEL_FONT_SIZE, 0));
    assert(screen@ == main_screen());
    registry.build_screen(ScreenTag::MainScreen, &screen);
}

/// Builds the difficulty screen, with one option for each difficulty.
pub fn difficulty_menu_setup(registry: &mut ScreenRegistry)
    ensures
        final(registry)@ == old(registry)@ + tagged(
            ScreenTag::DifficultyScreen,
            difficulty_screen(),
        ),
{
    let mut screen: Vec<Node> = Vec::new();
    screen.push(Node::root());
    let row = screen.len();
    screen.push(Node::row(0));
    screen.push(Node::text(row, "Difficulty", LABEL_FONT_SIZE, 0));
    assert(screen@ == difficulty_heading());
    let all = Difficulty::all();
    let mut k: usize = 0;
    while k < all.len()
        invariant
            k <= all@.len(),
            all@ == difficulties(),
            row == 1,
            screen@ == difficulty_heading() + option_nodes(all@.take(k as int), 1, 3),
        decreases all@.len() - k,
    {
        let difficulty = all[k];
        let button = screen.len();
        screen.push(Node::button(row, OPTION_BUTTON, MenuButtonAction::StartGame, Some(difficulty)));
        screen.push(Node::text(button, difficulty.label(), LABEL_FONT_SIZE, 0));
        k += 1;
    }
    assert(all@.take(k as int) == all@);
    let back = screen.len();
    screen.push(Node::button(0, BACK_BUTTON, MenuButtonAction::BackToMainMenu, None));
    screen.push(Node::text(back, "Back", LABEL_FONT_SIZE, 0));
    assert(screen@ == difficulty_screen());
    registry.build_screen(ScreenTag::DifficultyScreen, &screen);
}

/// Builds the load screen.
pub fn load_menu_setup(registry: &mut ScreenRegistry)
    ensures
        final(registry)@ == old(registry)@ + tagged(ScreenTag::LoadScreen, load_screen()),
{
    let mut screen: Vec<Node> = Vec::new();
    screen.push(Node::root());
    screen.push(Node::text(0, "Load Game", 60, TITLE_MARGIN));
    let back = screen.len();
    screen.push(Node::button(0, WIDE_BUTTON, MenuButtonAction::BackToMainMenu, None));
    screen.push(Node::text(back, "Back", LABEL_FONT_SIZE, 0));
    assert(screen@ == load_screen());
    registry.build_screen(ScreenTag::LoadScreen, &screen);
}

/// The action handler: carries out the first of this tick's interactions that
/// is a click and asks for an action that the table has for the current
/// state. It moves the menu to the state that the table gives, and a game
/// that is started also moves the application into the game. Every other
/// interaction is passed over in silence: a hover, a click that asks for
/// something the table does not have, and whatever follows the interaction
/// that was carried out.
pub fn menu_action(
    interactions: &Vec<(Interaction, MenuButtonAction)>,
    menu_state: &mut MenuState,
    game_state: &mut ApplicationMode,
)
    ensures
        *final(menu_state) == state_after(
            *old(menu_state),
            requested(*old(menu_state), interactions@),
        ),
        *final(game_state) == mode_after(
            *old(game_state),
            *old(menu_state),
            requested(*old(menu_state), interactions@),
        ),
{
    let state = *menu_state;
    let mut i: usize = 0;
    assert(interactions@.skip(0) == interactions@);
    while i < interactions.len()
        invariant
            i <= interactions.len(),
            state == *old(menu_state),
            *menu_state == state,
            *game_state == *old(game_state),
            requested(state, interactions@) == requested(state, interactions@.skip(i as int)),
        decreases interactions.len() - i,
    {
        let (interaction, action) = interactions[i];
        proof {
            let rest = interactions@.skip(i as int);
            assert(rest.first() == interactions@[i as int]);
            assert(rest.drop_first() == interactions@.skip(i + 1));
        }
        if interaction == Interaction::Clicked {
            match state.next(action) {
                Some(next) => {
                    *menu_state = next;
                    if action == MenuButtonAction::StartGame {
                        *game_state = ApplicationMode::Game;
                    }
                    return ;
                },
                None => {},
            }
        }
        i += 1;
    }
}

/// What is live after the exit hook of `state` ran on `live`.
pub open spec fn after_exit(live: Seq<Element>, state: MenuState) -> Seq<Element> {
    match state.screen_tag() {
        Some(tag) => without(live, tag),
        None => live,
    }
}

/// The menu: its current state and the elements that are live for it.
pub struct MenuPlugin {
    state: MenuState,
    registry: ScreenRegistry,
}

/// What a menu is, for the contracts.
pub ghost struct MenuView {
    pub state: MenuState,
    pub live: Seq<Element>,
}

impl MenuView {
    /// The live elements are exactly the screen of the current state: no
    /// element of another screen has been left behind, and none is missing.
    pub open spec fn inv(self) -> bool {
        self.live == live_in(self.state)
    }

    /// The menu after it left its state for `state`: the exit hook of the
    /// state that was left has run, then the entry hook of `state`. Moving to
    /// the state that the menu is in changes nothing.
    pub open spec fn moved_to(self, state: MenuState) -> MenuView {
        if state == self.state {
            self
        } else {
            MenuView { state, live: after_exit(self.live, self.state) + live_in(state) }
        }
    }
}

impl View for MenuPlugin {
    type V = MenuView;

    closed spec fn view(&self) -> MenuView {
        MenuView { state: self.state, live: self.registry@ }
    }
}

impl MenuPlugin {
    /// Sets the menu up in its initial state, the main screen built.
    pub fn build() -> (menu: Self)
        ensures
            menu@ == (MenuView { state: MenuState::Main, live: live_in(MenuState::Main) }),
            menu@.inv(),
    {
        let mut registry = ScreenRegistry::new();
        MenuPlugin::on_enter(MenuState::Main, &mut registry);
        MenuPlugin { state: MenuState::Main, registry }
    }

    /// The entry hook of `state`: builds the screen of that state. `Disabled`
    /// has no screen, so entering it builds nothing.
    pub fn on_enter(state: MenuState, registry: &mut ScreenRegistry)
        ensures
            final(registry)@ == old(registry)@ + live_in(state),
    {
        match state {
            MenuState::Main => main_menu_setup(registry),
            MenuState::Difficulty => difficulty_menu_setup(registry),
            MenuState::Load => load_menu_setup(registry),
            MenuState::Disabled => {},
        }
    }

    /// The exit hook of `state`: tears the screen of that state down.
    pub fn on_exit(state: MenuState, registry: &mut ScreenRegistry)
        ensures
            final(registry)@ == after_exit(old(registry)@, state),
    {
        match state.screen_tag() {
            Some(tag) => registry.despawn_screen(tag),
            None => {},
        }
    }

    /// Runs when the application enters the menu: puts the menu back into
    /// `Main`, whatever state it was left in, and shows the main screen.
    pub fn menu_setup(&mut self)
        ensures
            final(self)@ == old(self)@.moved_to(MenuState::Main),
            old(self)@.inv() ==> final(self)@.inv(),
    {
        self.enter(MenuState::Main);
    }

    /// One tick of the menu. The selectable options are looked at while the
    /// difficulty screen is shown, and what was clicked is committed to
    /// `difficulty`; then the action handler runs, and where it changed the
    /// state, the exit hook of the state that was left and the entry hook of
    /// the state that was entered run. The result names both states where
    /// the state changed.
    pub fn on_update(
        &mut self,
        actions: &Vec<(Interaction, MenuButtonAction)>,
        options: &Vec<(Interaction, Difficulty)>,
        game_state: &mut ApplicationMode,
        difficulty: &mut Setting<Difficulty>,
    ) -> (change: Option<(MenuState, MenuState)>)
        ensures
            final(self)@ == old(self)@.moved_to(
                state_after(old(self)@.state, requested(old(self)@.state, actions@)),
            ),
            old(self)@.inv() ==> final(self)@.inv(),
            *final(game_state) == mode_after(
                *old(game_state),
                old(self)@.state,
                requested(old(self)@.state, actions@),
            ),
            final(difficulty)@ == if old(self)@.state == MenuState::Difficulty {
                selected(old(difficulty)@, options@)
            } else {
                old(difficulty)@
            },
            change == if final(self)@.state == old(self)@.state {
                None
            } else {
                Some((old(self)@.state, final(self)@.state))
            },
    {
        if self.state == MenuState::Difficulty {
            difficulty_button(options, difficulty);
        }
        let before = self.state;
        let mut state = self.state;
        menu_action(actions, &mut state, game_state);
        if state != before {
            self.enter(state);
            Some((before, state))
        } else {
            None
        }
    }

    /// Leaves the current state for `state`, running the exit hook of the
    /// one and the entry hook of the other. Entering the state that the menu
    /// is in does nothing.
    fn enter(&mut self, state: MenuState)
        ensures
            final(self)@ == old(self)@.moved_to(state),
            old(self)@.inv() ==> final(self)@.inv(),
    {
        proof {
            if self@.inv() {
                lemma_move_keeps_inv(self@, state);
            }
        }
        if self.state != state {
            MenuPlugin::on_exit(self.state, &mut self.registry);
            self.state = state;
            MenuPlugin::on_enter(state, &mut self.registry);
        }
    }

    /// The current state.
    pub fn state(&self) -> (state: MenuState)
        ensures
            state == self@.state,
    {
        self.state
    }

    /// The registry of the live elements.
    pub fn registry(&self) -> (registry: &ScreenRegistry)
        ensures
            registry@ == self@.live,
    {
        &self.registry
    }
}

/// The exit hook of a state destroys the whole screen of that state: where
/// only that screen was live, nothing is left.
pub proof fn lemma_exit_leaves_nothing(state: MenuState)
    ensures
        after_exit(live_in(state), state) == Seq::<Element>::empty(),
{
    match state.screen_tag() {
        Some(tag) => lemma_despawn_built(tag, screen_of(tag)),
        None => {},
    }
}

/// While the menu is in `state`, an element with the tag of a screen is live
/// only if that screen is the one of `state`.
pub proof fn lemma_live_only_in_its_state(state: MenuState, tag: ScreenTag)
    requires
        with_tag(live_in(state), tag).len() > 0,
    ensures
        state.screen_tag() == Some(tag),
{
    match state.screen_tag() {
        Some(own) => {
            if own != tag {
                lemma_built_has_one_tag(own, tag, screen_of(own));
            }
        },
        None => {
            reveal(Seq::filter);
        },
    }
}

/// No transition leaks an element: where exactly the screen of the state
/// that is left was live, exactly the screen of the state that is entered is
/// live afterwards.
pub proof fn lemma_move_keeps_inv(menu: MenuView, state: MenuState)
    requires
        menu.inv(),
    ensures
        menu.moved_to(state).inv(),
{
    lemma_exit_leaves_nothing(menu.state);
}

/// The difficulty screen, node by node: the three options stand for `Easy`,
/// `Normal` and `Hard`, each is labelled with the name of its difficulty, and
/// the button that leads back comes last.
pub proof fn lemma_difficulty_screen()
    ensures
        difficulty_screen() == seq![
            Node::root(),
            Node::row(0),
            Node::text(1, "Difficulty", LABEL_FONT_SIZE, 0),
            Node::button(1, OPTION_BUTTON, MenuButtonAction::StartGame, Some(Difficulty::Easy)),
            Node::text(3, "Easy", LABEL_FONT_SIZE, 0),
            Node::button(1, OPTION_BUTTON, MenuButtonAction::StartGame, Some(Difficulty::Normal)),
            Node::text(5, "Normal", LABEL_FONT_SIZE, 0),
            Node::button(1, OPTION_BUTTON, MenuButtonAction::StartGame, Some(Difficulty::Hard)),
            Node::text(7, "Hard", LABEL_FONT_SIZE, 0),
            Node::button(0, BACK_BUTTON, MenuButtonAction::BackToMainMenu, None),
            Node::text(9, "Back", LABEL_FONT_SIZE, 0),
        ],
{
}

/// Every screen is a hierarchy: it starts with its root, and every other
/// node lies inside a node that stands before it.
pub proof fn lemma_screens_are_hierarchies(tag: ScreenTag)
    ensures
        is_hierarchy(screen_of(tag)),
{
    lemma_difficulty_screen();
}

/// A screen offers nothing that the table does not have: whatever action a
/// button of the screen of `state` asks for, the table has a transition for
/// it from `state`.
pub proof fn lemma_offered_actions_are_in_table(state: MenuState, i: int)
    requires
        0 <= i < live_in(state).len(),
        live_in(state)[i].node.action() is Some,
    ensures
        next_state(state, live_in(state)[i].node.action()->0) is Some,
{
    lemma_difficulty_screen();
}

/// A screen offers everything that the table has: for each transition of
/// the table from `state`, the screen of `state` has a button that asks for
/// its action.
pub proof fn lemma_table_actions_are_offered(state: MenuState, action: MenuButtonAction)
    requires
        next_state(state, action) is Some,
    ensures
        exists|i: int|
            0 <= i < live_in(state).len() && (#[trigger] live_in(state)[i]).node.action() == Some(
                action,
            ),
{
    lemma_difficulty_screen();
    let i: int = match (state, action) {
        (MenuState::Main, MenuButtonAction::Play) => 2,
        (MenuState::Main, MenuButtonAction::Load) => 4,
        (MenuState::Difficulty, MenuButtonAction::StartGame) => 3,
        (MenuState::Difficulty, MenuButtonAction::BackToMainMenu) => 9,
        _ => 2,
    };
    assert(live_in(state)[i].node.action() == Some(action));
}

/// Only the difficulty screen has selectable options, and a click on one of
/// them starts the game.
pub proof fn lemma_options_start_the_game(state: MenuState, i: int)
    requires
        0 <= i < live_in(state).len(),
        live_in(state)[i].node.setting() is Some,
    ensures
        state == MenuState::Difficulty,
        live_in(state)[i].node.action() == Some(MenuButtonAction::StartGame),
{
    lemma_difficulty_screen();
}

/// The action that a tick carries out belongs to the first interaction that
/// changes the state, and where no interaction does, none is carried out.
pub proof fn lemma_requested_is_first_effective(
    state: MenuState,
    interactions: Seq<(Interaction, MenuButtonAction)>,
)
    ensures
        match requested(state, interactions) {
            Some(action) => exists|i: int|
                0 <= i < interactions.len() && effective(state, #[trigger] interactions[i])
                    && interactions[i].1 == action && forall|j: int|
                    0 <= j < i ==> !effective(state, #[trigger] interactions[j]),
            None => forall|j: int|
                0 <= j < interactions.len() ==> !effective(state, #[trigger] interactions[j]),
        },
    decreases interactions.len(),
{
    if interactions.len() > 0 && !effective(state, interactions.first()) {
        let rest = interactions.drop_first();
        lemma_requested_is_first_effective(state, rest);
        match requested(state, rest) {
            Some(action) => {
                let i = choose|i: int|
                    0 <= i < rest.len() && effective(state, #[trigger] rest[i]) && rest[i].1
                        == action && forall|j: int|
                        0 <= j < i ==> !effective(state, #[trigger] rest[j]);
                assert(interactions[i + 1] == rest[i]);
                assert forall|j: int| 0 <= j < i + 1 implies !effective(
                    state,
                    #[trigger] interactions[j],
                ) by {
                    if j > 0 {
                        assert(interactions[j] == rest[j - 1]);
                    }
                }
            },
            None => {
                assert forall|j: int| 0 <= j < interactions.len() implies !effective(
                    state,
                    #[trigger] interactions[j],
                ) by {
                    if j > 0 {
                        assert(interactions[j] == rest[j - 1]);
                    }
                }
            },
        }
    } else if interactions.len() > 0 {
        assert(effective(state, interactions[0]));
    }
}

/// The state of the menu after the clicks `actions`, one in each tick.
pub open spec fn state_after_clicks(state: MenuState, actions: Seq<MenuButtonAction>) -> MenuState
    decreases actions.len(),
{
    if actions.len() == 0 {
        state
    } else {
        let before = state_after_clicks(state, actions.drop_last());
        state_after(before, requested(before, seq![(Interaction::Clicked, actions.last())]))
    }
}

/// A click that the table has a transition for leads to the state that the
/// table gives; any other click leaves the state as it is.
pub proof fn lemma_click_follows_table(state: MenuState, action: MenuButtonAction)
    ensures
        state_after(state, requested(state, seq![(Interaction::Clicked, action)])) == match next_state(
            state,
            action,
        ) {
            Some(next) => next,
            None => state,
        },
{
    let click = seq![(Interaction::Clicked, action)];
    assert(click.first() == (Interaction::Clicked, action));
    assert(requested(state, click.drop_first()) is None);
}

/// Along any sequence of clicks each of which the table has a transition
/// for, from the state that the menu is in when the click comes, the state
/// after every click is the one that the table gives.
pub proof fn lemma_clicks_follow_table(state: MenuState, actions: Seq<MenuButtonAction>, k: int)
    requires
        0 <= k < actions.len(),
        next_state(state_after_clicks(state, actions.take(k)), actions[k]) is Some,
    ensures
        Some(state_after_clicks(state, actions.take(k + 1))) == next_state(
            state_after_clicks(state, actions.take(k)),
            actions[k],
        ),
{
    let upto = actions.take(k + 1);
    assert(upto.drop_last() == actions.take(k));
    assert(upto.last() == actions[k]);
    lemma_click_follows_table(state_after_clicks(state, actions.take(k)), actions[k]);
}

} // verus!
