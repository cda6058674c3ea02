//! What the menus decide: which events leave the program, which terminal
//! sizes are too small, and where a key leads from each screen.
//!
//! The terminal is not touched here. An event is described by the plain
//! values below; whoever reads the terminal fills them in.

use vstd::prelude::*;
use crate::duplex::{Direction, InputSample, KeyMotion};

verus! {

/// The smallest width of the terminal, in columns.
pub const WIDTH: u16 = 90;

/// The smallest height of the terminal, in rows.
pub const HEIGHT: u16 = 30;

/// The screens of the client.
#[derive(Clone, Copy, Debug, PartialEq, Eq, Structural)]
pub enum CurrentScreen {
    Welcome,
    GameChoice,
    SocialLife,
    FriendsDisplay,
    CreateGame,
    StartGame,
    PlayGame,
    EndGame,
}

/// The keys that the client tells apart.
#[derive(Clone, Copy, Debug, PartialEq, Eq, Structural)]
pub enum KeyCode {
    Esc,
    Enter,
    Up,
    Down,
    Char(char),
    Other,
}

/// The modifier keys held with a key.
#[derive(Clone, Copy, Debug, PartialEq, Eq, Structural)]
pub enum Modifiers {
    /// None at all.
    Plain,
    /// Control and nothing else.
    Control,
    /// Any other combination.
    Other,
}

/// One key event.
#[derive(Clone, Copy, Debug, PartialEq, Eq, Structural)]
pub struct KeyPress {
    pub code: KeyCode,
    pub modifiers: Modifiers,
    pub kind: KeyMotion,
}

/// One event of the terminal.
#[derive(Clone, Copy, Debug, PartialEq, Eq, Structural)]
pub enum TerminalEvent {
    Key(KeyPress),
    /// The terminal now has this many columns and rows.
    Resize(u16, u16),
    Other,
}

/// What a menu does with an event.
#[derive(Clone, Copy, Debug, PartialEq, Eq, Structural)]
pub enum MenuOutcome {
    /// Leave the program.
    Exit,
    /// Show this screen.
    Go(CurrentScreen),
    /// Stay on the screen.
    Stay,
}

/// Whether an event asks to leave: Escape with any modifiers, or `c` with
/// Control and nothing else.
pub open spec fn spec_should_exit(event: TerminalEvent) -> bool {
    match event {
        TerminalEvent::Key(key) => key.code == KeyCode::Esc || (key.code == KeyCode::Char('c')
            && key.modifiers == Modifiers::Control),
        _ => false,
    }
}

/// Whether an event is a resize to a terminal that is too small for the game
/// page.
pub open spec fn spec_wrong_resize(event: TerminalEvent) -> bool {
    match event {
        TerminalEvent::Resize(columns, rows) => columns < WIDTH || rows < HEIGHT,
        _ => false,
    }
}

/// The character of a key that was pressed, not repeated or released.
pub open spec fn spec_pressed_char(event: TerminalEvent) -> Option<char> {
    match event {
        TerminalEvent::Key(key) => match key.code {
            KeyCode::Char(c) => if key.kind == KeyMotion::Press {
                Some(c)
            } else {
                None
            },
            _ => None,
        },
        _ => None,
    }
}

/// The character of a key event of any kind.
pub open spec fn spec_any_char(event: TerminalEvent) -> Option<char> {
    match event {
        TerminalEvent::Key(key) => match key.code {
            KeyCode::Char(c) => Some(c),
            _ => None,
        },
        _ => None,
    }
}

/// The welcome screen: `1` leads to the choice of a game, `2` to the social
/// screen.
pub open spec fn spec_welcome_choice(event: TerminalEvent) -> MenuOutcome {
    if spec_should_exit(event) {
        MenuOutcome::Exit
    } else if spec_pressed_char(event) == Some('1') {
        MenuOutcome::Go(CurrentScreen::GameChoice)
    } else if spec_pressed_char(event) == Some('2') {
        MenuOutcome::Go(CurrentScreen::SocialLife)
    } else {
        MenuOutcome::Stay
    }
}

/// The choice of a game: `2` asks for an online match, `4` leads back.
pub open spec fn spec_gamechoice_choice(event: TerminalEvent) -> MenuOutcome {
    if spec_should_exit(event) {
        MenuOutcome::Exit
    } else if spec_pressed_char(event) == Some('2') {
        MenuOutcome::Go(CurrentScreen::CreateGame)
    } else if spec_pressed_char(event) == Some('4') {
        MenuOutcome::Go(CurrentScreen::Welcome)
    } else {
        MenuOutcome::Stay
    }
}

/// The login screen: `1` leads to the choice of a game, `2` asks for an
/// online match, `3` leads to the welcome screen.
pub open spec fn spec_login_choice(event: TerminalEvent) -> MenuOutcome {
    if spec_should_exit(event) {
        MenuOutcome::Exit
    } else if spec_pressed_char(event) == Some('1') {
        MenuOutcome::Go(CurrentScreen::GameChoice)
    } else if spec_pressed_char(event) == Some('2') {
        MenuOutcome::Go(CurrentScreen::CreateGame)
    } else if spec_pressed_char(event) == Some('3') {
        MenuOutcome::Go(CurrentScreen::Welcome)
    } else {
        MenuOutcome::Stay
    }
}

/// The social screen: `1` shows the friends, `3` leads back. Here a key
/// counts whether it is pressed, repeated or released.
pub open spec fn spec_social_choice(event: TerminalEvent) -> MenuOutcome {
    if spec_should_exit(event) {
        MenuOutcome::Exit
    } else if spec_any_char(event) == Some('1') {
        MenuOutcome::Go(CurrentScreen::FriendsDisplay)
    } else if spec_any_char(event) == Some('3') {
        MenuOutcome::Go(CurrentScreen::Welcome)
    } else {
        MenuOutcome::Stay
    }
}

/// The end of a match: an event that asks to leave, or Enter, leads back to
/// the choice of a game.
pub open spec fn spec_endgame_choice(event: TerminalEvent) -> MenuOutcome {
    match event {
        TerminalEvent::Key(key) => if spec_should_exit(event) || key.code == KeyCode::Enter {
            MenuOutcome::Go(CurrentScreen::GameChoice)
        } else {
            MenuOutcome::Stay
        },
        _ => MenuOutcome::Stay,
    }
}

/// What the send loop makes of a tick's event: `None` where the event asks
/// to leave, which cancels the session; else the sample that the loop
/// observes. No event at all is a quiet tick; the up and down keys are the two
/// directions; anything else is other input.
pub open spec fn spec_input_sample(event: Option<TerminalEvent>) -> Option<InputSample> {
    match event {
        None => Some(InputSample::Quiet),
        Some(event) => if spec_should_exit(event) {
            None
        } else {
            match event {
                TerminalEvent::Key(key) => match key.code {
                    KeyCode::Up => Some(InputSample::Key(Direction::Up, key.kind)),
                    KeyCode::Down => Some(InputSample::Key(Direction::Down, key.kind)),
                    _ => Some(InputSample::Other),
                },
                _ => Some(InputSample::Other),
            }
        },
    }
}

/// Whether an event asks to leave the program.
pub fn should_exit(event: &TerminalEvent) -> (exit: bool)
    ensures
        exit == spec_should_exit(*event),
{
    match event {
        TerminalEvent::Key(key) => match key.code {
            KeyCode::Esc => true,
            KeyCode::Char(c) => c == 'c' && key.modifiers == Modifiers::Control,
            _ => false,
        },
        _ => false,
    }
}

/// Whether an event is a resize to a terminal that is too small.
pub fn wrong_resize_game_page(event: &TerminalEvent) -> (wrong: bool)
    ensures
        wrong == spec_wrong_resize(*event),
{
    match event {
        TerminalEvent::Resize(columns, rows) => *columns < WIDTH || *rows < HEIGHT,
        _ => false,
    }
}

/// The character of a key event: of a press only, or of any kind.
fn char_of(event: &TerminalEvent, pressed_only: bool) -> (found: Option<char>)
    ensures
        pressed_only ==> found == spec_pressed_char(*event),
        !pressed_only ==> found == spec_any_char(*event),
{
    match event {
        TerminalEvent::Key(key) => match key.code {
            KeyCode::Char(c) => if pressed_only && key.kind != KeyMotion::Press {
                None
            } else {
                Some(c)
            },
            _ => None,
        },
        _ => None,
    }
}

/// Decides what the welcome screen does with an event.
pub fn welcome_choice(event: &TerminalEvent) -> (outcome: MenuOutcome)
    ensures
        outcome == spec_welcome_choice(*event),
{
    if should_exit(event) {
        return MenuOutcome::Exit;
    }
    match char_of(event, true) {
        Some('1') => MenuOutcome::Go(CurrentScreen::GameChoice),
        Some('2') => MenuOutcome::Go(CurrentScreen::SocialLife),
        _ => MenuOutcome::Stay,
    }
}

/// Decides what the choice of a game does with an event.
pub fn gamechoice_choice(event: &TerminalEvent) -> (outcome: MenuOutcome)
    ensures
        outcome == spec_gamechoice_choice(*event),
{
    if should_exit(event) {
        return MenuOutcome::Exit;
    }
    match char_of(event, true) {
        Some('2') => MenuOutcome::Go(CurrentScreen::CreateGame),
        Some('4') => MenuOutcome::Go(CurrentScreen::Welcome),
        _ => MenuOutcome::Stay,
    }
}

/// Decides what the login screen does with an event.
pub fn login_choice(event: &TerminalEvent) -> (outcome: MenuOutcome)
    ensures
        outcome == spec_login_choice(*event),
{
    if should_exit(event) {
        return MenuOutcome::Exit;
    }
    match char_of(event, true) {
        Some('1') => MenuOutcome::Go(CurrentScreen::GameChoice),
        Some('2') => MenuOutcome::Go(CurrentScreen::CreateGame),
        Some('3') => MenuOutcome::Go(CurrentScreen::Welcome),
        _ => MenuOutcome::Stay,
    }
}

/// Decides what the social screen does with an event.
pub fn social_choice(event: &TerminalEvent) -> (outcome: MenuOutcome)
    ensures
        outcome == spec_social_choice(*event),
{
    if should_exit(event) {
        return MenuOutcome::Exit;
    }
    match char_of(event, false) {
        Some('1') => MenuOutcome::Go(CurrentScreen::FriendsDisplay),
        Some('3') => MenuOutcome::Go(CurrentScreen::Welcome),
        _ => MenuOutcome::Stay,
    }
}

/// Decides what the screen at the end of a match does with an event.
pub fn endgame_choice(event: &TerminalEvent) -> (outcome: MenuOutcome)
    ensures
        outcome == spec_endgame_choice(*event),
{
    match event {
        TerminalEvent::Key(key) => {
            if should_exit(event) {
                return MenuOutcome::Go(CurrentScreen::GameChoice);
            }
            match key.code {
                KeyCode::Enter => MenuOutcome::Go(CurrentScreen::GameChoice),
                _ => MenuOutcome::Stay,
            }
        },
        _ => MenuOutcome::Stay,
    }
}

/// Turns the event of one tick, if there was one, into what the send loop
/// observes; `None` where the event cancels the session.
pub fn input_sample(event: Option<TerminalEvent>) -> (sample: Option<InputSample>)
    ensures
        sample == spec_input_sample(event),
{
    match event {
        None => Some(InputSample::Quiet),
        Some(event) => {
            if should_exit(&event) {
                return None;
            }
            match event {
                TerminalEvent::Key(key) => match key.code {
                    KeyCode::Up => Some(InputSample::Key(Direction::Up, key.kind)),
                    KeyCode::Down => Some(InputSample::Key(Direction::Down, key.kind)),
                    _ => Some(InputSample::Other),
                },
                _ => Some(InputSample::Other),
            }
        },
    }
}

} // verus!
