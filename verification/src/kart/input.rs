//! Kart input: what the driver asks of the kart during one tick.

use crate::fixed::{Fixed, SCALE};
use vstd::prelude::*;

verus! {

/// The list of inputs a player can have on a tick.
///
/// The default is commands that do nothing.
#[derive(Clone, Copy, Debug, PartialEq, Eq, Structural)]
pub struct Commands {
    /// The acceleration asked for: one unit is full forward, minus one unit full backward.
    pub acceleration: Fixed,
}

impl Default for Commands {
    fn default() -> (r: Commands)
        ensures
            r.acceleration@ == 0,
    {
        Commands { acceleration: Fixed { raw: 0 } }
    }
}

/// A single kart's commands.
#[derive(Clone, Copy, Debug, PartialEq, Eq, Structural)]
pub struct PlayerCommands {
    pub commands: Commands,
}

impl Default for PlayerCommands {
    fn default() -> (r: PlayerCommands)
        ensures
            r.commands.acceleration@ == 0,
    {
        PlayerCommands { commands: Commands { acceleration: Fixed { raw: 0 } } }
    }
}

/// The acceleration that the two keys ask for together.
pub open spec fn keyed_acceleration(forward: bool, backward: bool) -> int {
    (if forward {
        SCALE as int
    } else {
        0
    }) - (if backward {
        SCALE as int
    } else {
        0
    })
}

impl PlayerCommands {
    /// The current inputs for this tick.
    pub fn commands(&self) -> (r: Commands)
        ensures
            r == self.commands,
    {
        self.commands
    }
}

/// Replaces a kart's commands by what the keys held this tick ask for: the forward key
/// adds one unit of acceleration, the backward key takes one away.
pub fn collect_local_inputs(collector: &mut PlayerCommands, forward: bool, backward: bool)
    ensures
        final(collector).commands.acceleration@ == keyed_acceleration(forward, backward),
        -SCALE <= final(collector).commands.acceleration@ <= SCALE,
{
    let mut acceleration = Fixed::zero();
    if forward {
        acceleration = acceleration.plus(Fixed::one());
    }
    if backward {
        acceleration = acceleration.minus(Fixed::one());
    }
    collector.commands = Commands { acceleration };
}

} // verus!
