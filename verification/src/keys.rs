//! The keys the game listens to and what each one asks for.

use vstd::prelude::*;
use crate::court::PADDLE_ACCELERATION;

verus! {

/// One of the two players, named by the edge of the screen their paddle guards.
#[derive(Clone, Copy, Debug, PartialEq, Eq, Structural)]
pub enum Side {
    Left,
    Right,
}

/// The vertical push on a paddle.
#[derive(Clone, Copy, Debug, PartialEq, Eq, Structural)]
pub enum Thrust {
    Up,
    Down,
    Idle,
}

/// A key as the game understands it. Every key the host does not bind to one
/// of the six named roles is `Other`.
#[derive(Clone, Copy, Debug, PartialEq, Eq, Structural)]
pub enum Key {
    UpLeft,
    DownLeft,
    UpRight,
    DownRight,
    Serve,
    Quit,
    Other,
}

/// What a key event asks the game to do.
#[derive(Clone, Copy, Debug, PartialEq, Eq, Structural)]
pub enum Command {
    /// Set the push on one paddle, replacing whatever it was.
    Push(Side, Thrust),
    /// Give the ball its serve velocity.
    Serve,
    /// Leave the game; acted on by the host, not by the simulation.
    Quit,
    /// The event changes nothing.
    Nothing,
}

impl Thrust {
    /// The sign of the push: `1` upward, `-1` downward, `0` when idle.
    pub open spec fn sign(self) -> int {
        match self {
            Thrust::Up => 1,
            Thrust::Down => -1,
            Thrust::Idle => 0,
        }
    }

    /// The vertical acceleration this push stands for: the sign times
    /// [`PADDLE_ACCELERATION`].
    pub fn acceleration(self) -> (a: i32)
        ensures
            a == self.sign() * PADDLE_ACCELERATION,
    {
        match self {
            Thrust::Up => PADDLE_ACCELERATION,
            Thrust::Down => -PADDLE_ACCELERATION,
            Thrust::Idle => 0,
        }
    }
}

impl Key {
    /// The paddle a direction key belongs to; `None` for every other key.
    pub open spec fn side(self) -> Option<Side> {
        match self {
            Key::UpLeft | Key::DownLeft => Some(Side::Left),
            Key::UpRight | Key::DownRight => Some(Side::Right),
            _ => None,
        }
    }

    /// The push a direction key gives while held; `Idle` for every other key.
    pub open spec fn direction(self) -> Thrust {
        match self {
            Key::UpLeft | Key::UpRight => Thrust::Up,
            Key::DownLeft | Key::DownRight => Thrust::Down,
            _ => Thrust::Idle,
        }
    }

    /// What pressing this key asks for: a direction key sets its paddle's
    /// push to its direction, the serve key serves, the quit key quits, and
    /// any other key asks for nothing.
    pub open spec fn pressed(self) -> Command {
        match self.side() {
            Some(s) => Command::Push(s, self.direction()),
            None => match self {
                Key::Serve => Command::Serve,
                Key::Quit => Command::Quit,
                _ => Command::Nothing,
            },
        }
    }

    /// What releasing this key asks for: a direction key sets its paddle's
    /// push to idle, whichever key had set it; any other key asks for nothing.
    pub open spec fn released(self) -> Command {
        match self.side() {
            Some(s) => Command::Push(s, Thrust::Idle),
            None => Command::Nothing,
        }
    }

    /// The command for a key going down.
    pub fn on_press(self) -> (c: Command)
        ensures
            c == self.pressed(),
    {
        match self {
            Key::UpLeft => Command::Push(Side::Left, Thrust::Up),
            Key::DownLeft => Command::Push(Side::Left, Thrust::Down),
            Key::UpRight => Command::Push(Side::Right, Thrust::Up),
            Key::DownRight => Command::Push(Side::Right, Thrust::Down),
            Key::Serve => Command::Serve,
            Key::Quit => Command::Quit,
            Key::Other => Command::Nothing,
        }
    }

    /// The command for a key going up.
    pub fn on_release(self) -> (c: Command)
        ensures
            c == self.released(),
    {
        match self {
            Key::UpLeft | Key::DownLeft => Command::Push(Side::Left, Thrust::Idle),
            Key::UpRight | Key::DownRight => Command::Push(Side::Right, Thrust::Idle),
            Key::Serve | Key::Quit | Key::Other => Command::Nothing,
        }
    }
}

} // verus!
