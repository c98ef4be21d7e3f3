//! The application mode controller: the outer mode, the menu that runs inside
//! the `Menu` mode, and the settings that outlive both.

use crate::interaction::Interaction;
use crate::menu::lemma_click_follows_table;
use crate::menu::lemma_move_keeps_inv;
use crate::menu::lemma_offered_actions_are_in_table;
use crate::menu::lemma_screens_are_hierarchies;
use crate::menu::live_in;
use crate::menu::mode_after;
use crate::menu::next_state;
use crate::menu::requested;
use crate::menu::screen_of;
use crate::menu::state_after;
use crate::menu::MenuButtonAction;
use crate::menu::MenuPlugin;
use crate::menu::MenuState;
use crate::menu::MenuView;
use crate::screen::is_hierarchy;
use crate::screen::nodes_of;
use crate::screen::tagged;
use crate::screen::Element;
use crate::screen::ScreenRegistry;
use crate::settings::selected;
use crate::settings::Difficulty;
use crate::settings::Nick;
use crate::settings::Setting;
use vstd::prelude::*;

verus! {

/// The outer mode of the application.
#[derive(Clone, Copy, Debug, PartialEq, Eq, Hash, Structural)]
pub enum ApplicationMode {
    Menu,
    Game,
}

/// The seconds for which the game shows the settings before the application
/// goes back to the menu.
pub const GAME_SECONDS: u64 = 5;

/// The application: its mode, its menu and its settings.
pub struct Application {
    mode: ApplicationMode,
    menu: MenuPlugin,
    difficulty: Setting<Difficulty>,
    nick: Nick,
}

/// What an application is, for the contracts.
pub ghost struct ApplicationView {
    pub mode: ApplicationMode,
    pub menu: MenuView,
    pub difficulty: Difficulty,
    pub nick: Seq<char>,
}

impl ApplicationView {
    /// What holds between any two ticks. While the application is in the
    /// menu, the live elements are exactly the screen of the current menu
    /// state; while it is in the game, the menu is disabled and no element
    /// is live.
    pub open spec fn inv(self) -> bool {
        &&& self.menu.inv()
        &&& self.mode == ApplicationMode::Game <==> self.menu.state == MenuState::Disabled
    }

    /// The application as it starts.
    pub open spec fn initial() -> ApplicationView {
        ApplicationView {
            mode: ApplicationMode::Menu,
            menu: MenuView { state: MenuState::Main, live: live_in(MenuState::Main) },
            difficulty: Difficulty::Normal,
            nick: "Player"@,
        }
    }

    /// The application one tick later, when the host reported `actions` for
    /// the buttons and `options` for the selectable options. In the game no
    /// menu is shown, and a tick changes nothing.
    pub open spec fn tick(
        self,
        actions: Seq<(Interaction, MenuButtonAction)>,
        options: Seq<(Interaction, Difficulty)>,
    ) -> ApplicationView {
        if self.mode == ApplicationMode::Menu {
            let request = requested(self.menu.state, actions);
            ApplicationView {
                mode: mode_after(self.mode, self.menu.state, request),
                menu: self.menu.moved_to(state_after(self.menu.state, request)),
                difficulty: if self.menu.state == MenuState::Difficulty {
                    selected(self.difficulty, options)
                } else {
                    self.difficulty
                },
                nick: self.nick,
            }
        } else {
            self
        }
    }

    /// The application after the game's wait has run out: back in the menu,
    /// the menu reset to its main screen, the settings as they were. In the
    /// menu there is no wait to run out, and nothing changes.
    pub open spec fn resume(self) -> ApplicationView {
        if self.mode == ApplicationMode::Game {
            ApplicationView {
                mode: ApplicationMode::Menu,
                menu: self.menu.moved_to(MenuState::Main),
                ..self
            }
        } else {
            self
        }
    }
}

impl View for Application {
    type V = ApplicationView;

    closed spec fn view(&self) -> ApplicationView {
        ApplicationView {
            mode: self.mode,
            menu: self.menu@,
            difficulty: self.difficulty@,
            nick: self.nick.0@,
        }
    }
}

impl Application {
    /// Starts the application: in the menu, the main screen shown, the
    /// difficulty `Normal` and the player called "Player".
    pub fn new() -> (app: Self)
        ensures
            app@ == ApplicationView::initial(),
            app@.inv(),
    {
        Application {
            mode: ApplicationMode::Menu,
            menu: MenuPlugin::build(),
            difficulty: Setting::new(Difficulty::Normal),
            nick: Nick("Player".to_owned()),
        }
    }

    /// One tick. `actions` holds, for each button whose interaction the host
    /// reported, the interaction and the action of the button; `options`
    /// holds, for each selectable option among them, the interaction and the
    /// value that the option stands for. The result names the menu state
    /// that was left and the one that was entered, where the state changed.
    pub fn update(
        &mut self,
        actions: &Vec<(Interaction, MenuButtonAction)>,
        options: &Vec<(Interaction, Difficulty)>,
    ) -> (change: Option<(MenuState, MenuState)>)
        ensures
            final(self)@ == old(self)@.tick(actions@, options@),
            old(self)@.inv() ==> final(self)@.inv(),
            change == if final(self)@.menu.state == old(self)@.menu.state {
                None
            } else {
                Some((old(self)@.menu.state, final(self)@.menu.state))
            },
    {
        match self.mode {
            ApplicationMode::Menu => self.menu.on_update(
                actions,
                options,
                &mut self.mode,
                &mut self.difficulty,
            ),
            ApplicationMode::Game => None,
        }
    }

    /// Tells the application that the game's wait has run out. From the game
    /// it goes back to the menu, which starts over at its main screen; the
    /// settings stay. The result says whether the mode changed.
    pub fn wait_elapsed(&mut self) -> (resumed: bool)
        ensures
            final(self)@ == old(self)@.resume(),
            old(self)@.inv() ==> final(self)@.inv(),
            resumed == (old(self)@.mode == ApplicationMode::Game),
    {
        match self.mode {
            ApplicationMode::Menu => false,
            ApplicationMode::Game => {
                self.mode = ApplicationMode::Menu;
                self.menu.menu_setup();
                true
            },
        }
    }

    /// The current mode.
    pub fn mode(&self) -> (mode: ApplicationMode)
        ensures
            mode == self@.mode,
    {
        self.mode
    }

    /// The current state of the menu.
    pub fn menu_state(&self) -> (state: MenuState)
        ensures
            state == self@.menu.state,
    {
        self.menu.state()
    }

    /// The current difficulty.
    pub fn difficulty(&self) -> (difficulty: Difficulty)
        ensures
            difficulty == self@.difficulty,
    {
        self.difficulty.get()
    }

    /// The name of the player.
    pub fn nick(&self) -> (nick: &String)
        ensures
            nick@ == self@.nick,
    {
        &self.nick.0
    }

    /// The registry of the live elements.
    pub fn registry(&self) -> (registry: &ScreenRegistry)
        ensures
            registry@ == self@.menu.live,
    {
        self.menu.registry()
    }
}

/// What can happen to the application between two tick boundaries.
pub ghost enum Event {
    /// A tick, with the interactions that the host reported.
    Tick {
        actions: Seq<(Interaction, MenuButtonAction)>,
        options: Seq<(Interaction, Difficulty)>,
    },
    /// The game's wait runs out.
    WaitElapsed,
}

impl ApplicationView {
    /// The application after `event`.
    pub open spec fn after(self, event: Event) -> ApplicationView {
        match event {
            Event::Tick { actions, options } => self.tick(actions, options),
            Event::WaitElapsed => self.resume(),
        }
    }

    /// The application after `events`, one after the other.
    pub open spec fn run(self, events: Seq<Event>) -> ApplicationView
        decreases events.len(),
    {
        if events.len() == 0 {
            self
        } else {
            self.run(events.drop_last()).after(events.last())
        }
    }
}

/// What is live, by mode: in the menu exactly the screen of the current
/// state, every element of it marked with the tag of that state; in the game
/// nothing.
pub proof fn lemma_live_elements(app: ApplicationView)
    requires
        app.inv(),
    ensures
        app.mode == ApplicationMode::Menu ==> app.menu.state.screen_tag() is Some && app.menu.live
            == tagged(app.menu.state.screen_tag()->0, screen_of(app.menu.state.screen_tag()->0)),
        app.mode == ApplicationMode::Game ==> app.menu.live == Seq::<Element>::empty(),
{
}

/// In the menu the live elements form one hierarchy: the first is the root,
/// and every other lies inside an element that stands before it.
pub proof fn lemma_live_is_a_hierarchy(app: ApplicationView)
    requires
        app.inv(),
        app.mode == ApplicationMode::Menu,
    ensures
        is_hierarchy(nodes_of(app.menu.live)),
{
    let tag = app.menu.state.screen_tag()->0;
    lemma_screens_are_hierarchies(tag);
    assert(nodes_of(app.menu.live) == screen_of(tag));
}

/// Whatever happens, what holds between two ticks holds again afterwards.
pub proof fn lemma_event_keeps_inv(app: ApplicationView, event: Event)
    requires
        app.inv(),
    ensures
        app.after(event).inv(),
{
    match event {
        Event::Tick { actions, options } => {
            let request = requested(app.menu.state, actions);
            lemma_move_keeps_inv(app.menu, state_after(app.menu.state, request));
        },
        Event::WaitElapsed => {
            lemma_move_keeps_inv(app.menu, MenuState::Main);
        },
    }
}

/// From its start on, the application is in order at every tick boundary,
/// whatever the host reports and whenever the game's wait runs out.
pub proof fn lemma_inv_at_every_boundary(events: Seq<Event>)
    ensures
        ApplicationView::initial().run(events).inv(),
    decreases events.len(),
{
    if events.len() > 0 {
        lemma_inv_at_every_boundary(events.drop_last());
        lemma_event_keeps_inv(ApplicationView::initial().run(events.drop_last()), events.last());
    }
}

/// In the menu, a tick in which one button is clicked that the current
/// screen offers leads to the state that the table gives for it, and shows
/// the screen of that state.
pub proof fn lemma_click_in_menu(
    app: ApplicationView,
    i: int,
    options: Seq<(Interaction, Difficulty)>,
)
    requires
        app.inv(),
        app.mode == ApplicationMode::Menu,
        0 <= i < app.menu.live.len(),
        app.menu.live[i].node.action() is Some,
    ensures
        ({
            let action = app.menu.live[i].node.action()->0;
            let after = app.tick(seq![(Interaction::Clicked, action)], options);
            &&& Some(after.menu.state) == next_state(app.menu.state, action)
            &&& after.menu.live == live_in(after.menu.state)
        }),
{
    let action = app.menu.live[i].node.action()->0;
    lemma_offered_actions_are_in_table(app.menu.state, i);
    lemma_click_follows_table(app.menu.state, action);
    lemma_move_keeps_inv(app.menu, next_state(app.menu.state, action)->0);
}

/// Going through the game and back changes no setting: only the menu starts
/// over.
pub proof fn lemma_settings_outlive_the_game(app: ApplicationView)
    ensures
        app.resume().difficulty == app.difficulty,
        app.resume().nick == app.nick,
        app.mode == ApplicationMode::Game ==> app.resume().mode == ApplicationMode::Menu
            && app.resume().menu.state == MenuState::Main,
{
}

} // verus!
