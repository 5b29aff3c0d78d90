//! How fast the game runs: three speeds and a pause.

use std::time::Duration;
use vstd::prelude::*;

verus! {

/// One of the three speeds at which the game can run.
#[derive(Clone, Copy, Debug, PartialEq, Eq, Structural)]
pub enum SpeedVariant {
    Slow,
    Normal,
    Fast,
}

/// A request to run faster or slower.
#[derive(Clone, Copy, Debug, PartialEq, Eq, Structural)]
pub enum SpeedAction {
    Increase,
    Decrease,
}

/// Whether the game runs, and if it does, how fast.
#[derive(Clone, Copy, Debug, PartialEq, Eq, Structural)]
pub enum Speed {
    Paused,
    Unpaused(SpeedVariant),
}

/// The length of time that `millis` milliseconds are.
pub uninterp spec fn duration_of_millis(millis: u64) -> Duration;

/// `Duration::from_millis` builds the length of time that the given number
/// of milliseconds is. The same number always gives the same length, which
/// is all that is claimed here.
pub assume_specification[ Duration::from_millis ](millis: u64) -> (duration: Duration)
    ensures
        duration == duration_of_millis(millis),
;

impl SpeedVariant {
    /// The speed one step faster; the fastest speed stays what it is.
    pub open spec fn faster(self) -> SpeedVariant {
        match self {
            SpeedVariant::Slow => SpeedVariant::Normal,
            SpeedVariant::Normal => SpeedVariant::Fast,
            SpeedVariant::Fast => SpeedVariant::Fast,
        }
    }

    /// The speed one step slower; the slowest speed stays what it is.
    pub open spec fn slower(self) -> SpeedVariant {
        match self {
            SpeedVariant::Slow => SpeedVariant::Slow,
            SpeedVariant::Normal => SpeedVariant::Slow,
            SpeedVariant::Fast => SpeedVariant::Normal,
        }
    }

    /// This speed after `speed_action`.
    pub open spec fn regulated(self, speed_action: SpeedAction) -> SpeedVariant {
        match speed_action {
            SpeedAction::Increase => self.faster(),
            SpeedAction::Decrease => self.slower(),
        }
    }

    /// The milliseconds between two generations at this speed.
    pub open spec fn spec_millis(&self) -> u64 {
        match self {
            SpeedVariant::Slow => 500,
            SpeedVariant::Normal => 100,
            SpeedVariant::Fast => 50,
        }
    }

    /// The milliseconds between two generations at this speed.
    #[verifier::when_used_as_spec(spec_millis)]
    pub fn millis(&self) -> (millis: u64)
        ensures
            millis == self.spec_millis(),
    {
        match self {
            SpeedVariant::Slow => 500,
            SpeedVariant::Normal => 100,
            SpeedVariant::Fast => 50,
        }
    }

    /// The time between two generations at this speed.
    pub fn to_duration(&self) -> (duration: Duration)
        ensures
            duration == duration_of_millis(self.spec_millis()),
    {
        Duration::from_millis(self.millis())
    }

    /// Moves one step faster or slower and stops at either end.
    pub fn regulate(&mut self, speed_action: SpeedAction)
        ensures
            *final(self) == old(self).regulated(speed_action),
    {
        match speed_action {
            SpeedAction::Increase => match self {
                SpeedVariant::Slow => *self = SpeedVariant::Normal,
                SpeedVariant::Normal => *self = SpeedVariant::Fast,
                _ => {},
            },
            SpeedAction::Decrease => match self {
                SpeedVariant::Normal => *self = SpeedVariant::Slow,
                SpeedVariant::Fast => *self = SpeedVariant::Normal,
                _ => {},
            },
        }
    }
}

impl Default for SpeedVariant {
    /// The speed in the middle.
    fn default() -> (speed_variant: Self)
        ensures
            speed_variant == SpeedVariant::Normal,
    {
        Self::Normal
    }
}

impl Speed {
    /// This speed after `speed_action`: a running game moves one step, a
    /// paused game stays paused.
    pub open spec fn regulated(self, speed_action: SpeedAction) -> Speed {
        match self {
            Speed::Unpaused(speed_variant) => Speed::Unpaused(
                speed_variant.regulated(speed_action),
            ),
            Speed::Paused => Speed::Paused,
        }
    }

    /// This speed after the pause was toggled: a running game pauses, and a
    /// paused game runs at `speed_when_unpaused`, or at the speed in the
    /// middle where none is given.
    pub open spec fn toggled(self, speed_when_unpaused: Option<SpeedVariant>) -> Speed {
        match self {
            Speed::Unpaused(_) => Speed::Paused,
            Speed::Paused => Speed::Unpaused(
                match speed_when_unpaused {
                    Some(speed_variant) => speed_variant,
                    None => SpeedVariant::Normal,
                },
            ),
        }
    }

    /// The name of this speed.
    pub open spec fn label(self) -> Seq<char> {
        match self {
            Speed::Paused => "Paused"@,
            Speed::Unpaused(SpeedVariant::Slow) => "Slow"@,
            Speed::Unpaused(SpeedVariant::Normal) => "Normal"@,
            Speed::Unpaused(SpeedVariant::Fast) => "Fast"@,
        }
    }

    /// Moves a running game one step faster or slower; a paused game stays
    /// paused.
    pub fn regulate(&mut self, speed_action: SpeedAction)
        ensures
            *final(self) == old(self).regulated(speed_action),
    {
        match self {
            Self::Unpaused(speed_variant) => speed_variant.regulate(speed_action),
            Self::Paused => {},
        }
    }

    /// Pauses a running game, and lets a paused game run at
    /// `speed_when_unpaused`, or at the speed in the middle where none is
    /// given.
    pub fn toggle_pause(&mut self, speed_when_unpaused: Option<SpeedVariant>)
        ensures
            *final(self) == old(self).toggled(speed_when_unpaused),
    {
        match self {
            Self::Unpaused(_) => *self = Self::Paused,
            Self::Paused => *self = Self::Unpaused(
                match speed_when_unpaused {
                    Some(speed_variant) => speed_variant,
                    None => SpeedVariant::default(),
                },
            ),
        }
    }

    /// The name of this speed.
    pub fn to_string(&self) -> (text: String)
        ensures
            text@ == self.label(),
    {
        match self {
            Self::Paused => String::from_str("Paused"),
            Self::Unpaused(speed_variant) => match speed_variant {
                SpeedVariant::Slow => String::from_str("Slow"),
                SpeedVariant::Normal => String::from_str("Normal"),
                SpeedVariant::Fast => String::from_str("Fast"),
            },
        }
    }
}

impl Default for Speed {
    /// A game that runs at the speed in the middle.
    fn default() -> (speed: Self)
        ensures
            speed == Speed::Unpaused(SpeedVariant::Normal),
    {
        Self::Unpaused(SpeedVariant::default())
    }
}

} // verus!
