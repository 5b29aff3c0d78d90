//! The state behind an interactive display of the game, and what each event
//! does to it.

use crate::game::pattern::{pattern_error, pattern_grid, texts};
use crate::game::{CellBoardCreationError, Game};
use crate::speed::{Speed, SpeedAction, SpeedVariant};
use vstd::prelude::*;

verus! {

/// What the user asks for.
#[derive(Clone, Copy, Debug, PartialEq, Eq, Structural)]
pub enum UserAction {
    Quit,
    TogglePause,
    RegulateSpeed(SpeedAction),
}

/// What can happen to a running display.
#[derive(Clone, Copy, Debug, PartialEq, Eq, Structural)]
pub enum UpdateEvent {
    /// The time between two generations has passed.
    Tick,
    /// The user has asked for something.
    Input(UserAction),
}

/// A key of the keyboard, as far as the display tells keys apart.
#[derive(Clone, Copy, Debug, PartialEq, Eq, Structural)]
pub enum Key {
    Esc,
    Left,
    Right,
    Up,
    Down,
    Char(char),
    Other,
}

/// What is left to do after an event has been taken in.
#[derive(Clone, Copy, Debug, PartialEq, Eq, Structural)]
pub enum Response {
    /// Nothing but to show the display again.
    Redraw,
    /// The speed may have changed: whoever keeps the time must learn it.
    Announce(Speed),
    /// The display is to be closed.
    Quit,
}

/// What the user asks for with `key`: to quit with escape or `q`, to run
/// slower with left or down, faster with right or up, and to pause or go on
/// with the space bar. Only a key that goes down counts.
pub open spec fn action_of(key: Key, pressed: bool) -> Option<UserAction> {
    if !pressed {
        None
    } else {
        match key {
            Key::Esc => Some(UserAction::Quit),
            Key::Char(symbol) => if symbol == 'q' {
                Some(UserAction::Quit)
            } else if symbol == ' ' {
                Some(UserAction::TogglePause)
            } else {
                None
            },
            Key::Left | Key::Down => Some(UserAction::RegulateSpeed(SpeedAction::Decrease)),
            Key::Right | Key::Up => Some(UserAction::RegulateSpeed(SpeedAction::Increase)),
            Key::Other => None,
        }
    }
}

/// What the user asks for with `key`, if anything.
pub fn user_action(key: Key, pressed: bool) -> (action: Option<UserAction>)
    ensures
        action == action_of(key, pressed),
{
    if pressed {
        match key {
            Key::Esc | Key::Char('q') => Some(UserAction::Quit),
            Key::Left | Key::Down => Some(UserAction::RegulateSpeed(SpeedAction::Decrease)),
            Key::Right | Key::Up => Some(UserAction::RegulateSpeed(SpeedAction::Increase)),
            Key::Char(' ') => Some(UserAction::TogglePause),
            _ => None,
        }
    } else {
        None
    }
}

/// A game on display: the game, its speed, and the speed to go back to when
/// a pause ends.
pub struct GameWidget {
    game: Game,
    speed_when_unpaused: SpeedVariant,
    speed: Speed,
}

impl GameWidget {
    /// The game on display.
    pub closed spec fn spec_game(&self) -> Game {
        self.game
    }

    /// The speed of the display.
    pub closed spec fn spec_speed(&self) -> Speed {
        self.speed
    }

    /// The speed to go back to when a pause ends.
    pub closed spec fn resume_speed(&self) -> SpeedVariant {
        self.speed_when_unpaused
    }

    /// The game on display is well formed.
    pub open spec fn wf(&self) -> bool {
        self.spec_game().wf()
    }

    /// Puts `game` on display at `speed`. A display that starts paused goes
    /// on at the speed in the middle.
    pub fn new(game: Game, speed: Speed) -> (widget: Self)
        ensures
            widget.spec_game() == game,
            widget.spec_speed() == speed,
            widget.resume_speed() == match speed {
                Speed::Paused => SpeedVariant::Normal,
                Speed::Unpaused(speed_variant) => speed_variant,
            },
    {
        let speed_when_unpaused = match speed {
            Speed::Paused => SpeedVariant::Normal,
            Speed::Unpaused(speed_variant) => speed_variant,
        };
        Self { game, speed, speed_when_unpaused }
    }

    /// Puts on display, at `speed`, the game that the lines of a pattern
    /// describe, or says what is wrong with the pattern.
    pub fn from_file(lines: &Vec<String>, speed: Speed) -> (loaded: Result<
        Self,
        CellBoardCreationError,
    >)
        ensures
            match loaded {
                Ok(widget) => {
                    &&& pattern_error(texts(lines@)) is None
                    &&& widget.wf()
                    &&& widget.spec_game().spec_generation() == 0
                    &&& widget.spec_game().grid() == pattern_grid(texts(lines@))
                    &&& widget.spec_speed() == speed
                    &&& widget.resume_speed() == match speed {
                        Speed::Paused => SpeedVariant::Normal,
                        Speed::Unpaused(speed_variant) => speed_variant,
                    }
                },
                Err(error) => {
                    &&& pattern_error(texts(lines@)) is Some
                    &&& error == CellBoardCreationError::FormatError(
                        pattern_error(texts(lines@))->0,
                    )
                },
            },
    {
        match Game::from_file(lines) {
            Ok(game) => Ok(Self::new(game, speed)),
            Err(error) => Err(error),
        }
    }

    /// The game on display.
    pub fn game(&self) -> (game: &Game)
        ensures
            *game == self.spec_game(),
    {
        &self.game
    }

    /// Advances the game on display by one generation. The speeds stay as
    /// they are.
    pub fn tick(&mut self)
        requires
            old(self).wf(),
            old(self).spec_game().spec_generation() < usize::MAX,
        ensures
            final(self).wf(),
            final(self).spec_game().grid() == old(self).spec_game().grid().step(),
            final(self).spec_game().spec_generation() == old(self).spec_game().spec_generation()
                + 1,
            final(self).spec_speed() == old(self).spec_speed(),
            final(self).resume_speed() == old(self).resume_speed(),
    {
        self.game.tick();
    }

    /// Moves a running display one step faster or slower; a paused display
    /// stays paused. The game stays as it is.
    pub fn regulate_speed(&mut self, speed_action: SpeedAction)
        ensures
            final(self).spec_speed() == old(self).spec_speed().regulated(speed_action),
            final(self).resume_speed() == old(self).resume_speed(),
            final(self).spec_game() == old(self).spec_game(),
    {
        self.speed.regulate(speed_action);
    }

    /// Pauses a running display and remembers its speed; lets a paused
    /// display go on at the speed it remembers. The game stays as it is.
    pub fn toggle_pause(&mut self)
        ensures
            final(self).resume_speed() == match old(self).spec_speed() {
                Speed::Unpaused(speed_variant) => speed_variant,
                Speed::Paused => old(self).resume_speed(),
            },
            final(self).spec_speed() == old(self).spec_speed().toggled(
                Some(final(self).resume_speed()),
            ),
            final(self).spec_game() == old(self).spec_game(),
    {
        if let Speed::Unpaused(speed_variant) = self.speed {
            self.speed_when_unpaused = speed_variant
        }
        self.speed.toggle_pause(Some(self.speed_when_unpaused));
    }

    /// The speed of the display.
    #[verifier::when_used_as_spec(spec_speed)]
    pub fn speed(&self) -> (speed: Speed)
        ensures
            speed == self.spec_speed(),
    {
        self.speed
    }

    /// Takes in one event and says what is left to do: a tick advances the
    /// game, a wish of the user for another speed or for a pause changes the
    /// speed and has it announced, and a wish to quit changes nothing.
    pub fn update(&mut self, event: UpdateEvent) -> (response: Response)
        requires
            old(self).wf(),
            event == UpdateEvent::Tick ==> old(self).spec_game().spec_generation() < usize::MAX,
        ensures
            final(self).wf(),
            match event {
                UpdateEvent::Tick => {
                    &&& response == Response::Redraw
                    &&& final(self).spec_game().grid() == old(self).spec_game().grid().step()
                    &&& final(self).spec_game().spec_generation() == old(
                        self,
                    ).spec_game().spec_generation() + 1
                    &&& final(self).spec_speed() == old(self).spec_speed()
                    &&& final(self).resume_speed() == old(self).resume_speed()
                },
                UpdateEvent::Input(UserAction::Quit) => {
                    &&& response == Response::Quit
                    &&& *final(self) == *old(self)
                },
                UpdateEvent::Input(UserAction::RegulateSpeed(speed_action)) => {
                    &&& response == Response::Announce(final(self).spec_speed())
                    &&& final(self).spec_speed() == old(self).spec_speed().regulated(speed_action)
                    &&& final(self).resume_speed() == old(self).resume_speed()
                    &&& final(self).spec_game() == old(self).spec_game()
                },
                UpdateEvent::Input(UserAction::TogglePause) => {
                    &&& response == Response::Announce(final(self).spec_speed())
                    &&& final(self).resume_speed() == match old(self).spec_speed() {
                        Speed::Unpaused(speed_variant) => speed_variant,
                        Speed::Paused => old(self).resume_speed(),
                    }
                    &&& final(self).spec_speed() == old(self).spec_speed().toggled(
                        Some(final(self).resume_speed()),
                    )
                    &&& final(self).spec_game() == old(self).spec_game()
                },
            },
    {
        match event {
            UpdateEvent::Tick => {
                self.tick();
                Response::Redraw
            },
            UpdateEvent::Input(user_action) => match user_action {
                UserAction::Quit => Response::Quit,
                UserAction::RegulateSpeed(speed_action) => {
                    self.regulate_speed(speed_action);
                    Response::Announce(self.speed())
                },
                UserAction::TogglePause => {
                    self.toggle_pause();
                    Response::Announce(self.speed())
                },
            },
        }
    }
}

} // verus!
