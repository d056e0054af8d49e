//! Which screen the program shows, and what its buttons do.

use vstd::prelude::*;

verus! {

/// The screens of the program, and the steps between them.
#[derive(Clone, Copy, Debug, PartialEq, Eq, Hash, Structural)]
pub enum GameState {
    Menu,
    GameEntering,
    GameIniting,
    GameRunning,
    GamePracticeEntering,
    GamePracticeIniting,
    GamePracticeRunning,
}

impl Default for GameState {
    fn default() -> (r: GameState)
        ensures
            r == GameState::Menu,
    {
        GameState::Menu
    }
}

/// The two games.
#[derive(Clone, Copy, Debug, PartialEq, Eq, Structural)]
pub enum Variant {
    Plain,
    Practice,
}

impl GameState {
    /// The state that comes by itself once `self` is entered: a game that is
    /// entered is set up, and a game that is set up runs. The menu and a
    /// running game stay until a button is pressed.
    pub open spec fn successor(self) -> Option<GameState> {
        match self {
            GameState::GameEntering => Some(GameState::GameIniting),
            GameState::GameIniting => Some(GameState::GameRunning),
            GameState::GamePracticeEntering => Some(GameState::GamePracticeIniting),
            GameState::GamePracticeIniting => Some(GameState::GamePracticeRunning),
            _ => None,
        }
    }

    /// The game whose simulation runs in this state, if one does. The
    /// commands are applied, the events handled and the ball looked after
    /// only while a game runs.
    pub open spec fn running(self) -> Option<Variant> {
        match self {
            GameState::GameRunning => Some(Variant::Plain),
            GameState::GamePracticeRunning => Some(Variant::Practice),
            _ => None,
        }
    }

    pub fn on_enter(self) -> (next: Option<GameState>)
        ensures
            next == self.successor(),
    {
        match self {
            GameState::GameEntering => Some(GameState::GameIniting),
            GameState::GameIniting => Some(GameState::GameRunning),
            GameState::GamePracticeEntering => Some(GameState::GamePracticeIniting),
            GameState::GamePracticeIniting => Some(GameState::GamePracticeRunning),
            _ => None,
        }
    }

    pub fn simulation(self) -> (game: Option<Variant>)
        ensures
            game == self.running(),
    {
        match self {
            GameState::GameRunning => Some(Variant::Plain),
            GameState::GamePracticeRunning => Some(Variant::Practice),
            _ => None,
        }
    }
}

/// What the pointer does to a button.
#[derive(Clone, Copy, Debug, PartialEq, Eq, Structural)]
pub enum Interaction {
    Pressed,
    Hovered,
    /// The pointer is elsewhere.
    Away,
}

/// The buttons of the main menu.
#[derive(Clone, Copy, Debug, PartialEq, Eq, Structural)]
pub enum MenuButtonAction {
    Play,
    Quit,
    Practice,
}

/// The button of a game.
#[derive(Clone, Copy, Debug, PartialEq, Eq, Structural)]
pub enum ButtonAction {
    Esc,
}

/// What a button of the main menu leads to.
#[derive(Clone, Copy, Debug, PartialEq, Eq, Structural)]
pub enum MenuOutcome {
    /// The button was not pressed.
    Stay,
    /// The program ends.
    Quit,
    /// The menu goes and the state given is entered.
    Enter(GameState),
}

/// What a button of the main menu leads to.
pub open spec fn menu_outcome(interaction: Interaction, action: MenuButtonAction) -> MenuOutcome {
    if interaction != Interaction::Pressed {
        MenuOutcome::Stay
    } else {
        match action {
            MenuButtonAction::Quit => MenuOutcome::Quit,
            MenuButtonAction::Play => MenuOutcome::Enter(GameState::GameEntering),
            MenuButtonAction::Practice => MenuOutcome::Enter(GameState::GamePracticeEntering),
        }
    }
}

/// A button of the main menu whose interaction has changed.
pub fn menu_action(interaction: Interaction, action: MenuButtonAction) -> (r: MenuOutcome)
    ensures
        r == menu_outcome(interaction, action),
{
    match interaction {
        Interaction::Pressed => match action {
            MenuButtonAction::Quit => MenuOutcome::Quit,
            MenuButtonAction::Play => MenuOutcome::Enter(GameState::GameEntering),
            MenuButtonAction::Practice => MenuOutcome::Enter(GameState::GamePracticeEntering),
        },
        _ => MenuOutcome::Stay,
    }
}

/// A button of a game whose interaction has changed: pressed, it leads back
/// to the menu.
pub fn game_action(interaction: Interaction, action: ButtonAction) -> (r: Option<GameState>)
    ensures
        r == if interaction == Interaction::Pressed {
            Some(GameState::Menu)
        } else {
            None
        },
{
    match (interaction, action) {
        (Interaction::Pressed, ButtonAction::Esc) => Some(GameState::Menu),
        _ => None,
    }
}

/// The four looks of a button.
#[derive(Clone, Copy, Debug, PartialEq, Eq, Structural)]
pub enum ButtonLook {
    Normal,
    Hovered,
    HoveredPressed,
    Pressed,
}

/// The look of a button: pressed while the pointer presses it and while it
/// is the selected one and the pointer is elsewhere, and hovered, in one of
/// two ways, while the pointer is over it.
pub open spec fn look_of(interaction: Interaction, selected: bool) -> ButtonLook {
    match interaction {
        Interaction::Pressed => ButtonLook::Pressed,
        Interaction::Hovered => if selected {
            ButtonLook::HoveredPressed
        } else {
            ButtonLook::Hovered
        },
        Interaction::Away => if selected {
            ButtonLook::Pressed
        } else {
            ButtonLook::Normal
        },
    }
}

/// A button whose interaction has changed: the look it takes.
pub fn button_system(interaction: Interaction, selected: bool) -> (look: ButtonLook)
    ensures
        look == look_of(interaction, selected),
{
    match (interaction, selected) {
        (Interaction::Pressed, _) | (Interaction::Away, true) => ButtonLook::Pressed,
        (Interaction::Hovered, true) => ButtonLook::HoveredPressed,
        (Interaction::Hovered, false) => ButtonLook::Hovered,
        (Interaction::Away, false) => ButtonLook::Normal,
    }
}

} // verus!
