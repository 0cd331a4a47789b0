//! What the two paddles are currently being told to do.
//!
//! Each paddle has one vertical push, set by whichever of its two direction
//! keys went down last and cleared by the release of either. The host keeps a
//! `Controls` value next to the moving bodies, feeds it every key event, and
//! reads each paddle's acceleration from it before a tick.

use vstd::prelude::*;
use crate::court::PADDLE_ACCELERATION;
use crate::keys::{Command, Key, Side, Thrust};

verus! {

/// What the host has to do after a key event, beyond reading the new pushes.
#[derive(Clone, Copy, Debug, PartialEq, Eq, Structural)]
pub enum Effect {
    /// Nothing further.
    Continue,
    /// Serve the ball.
    Serve,
    /// End the game loop.
    Quit,
}

/// The push on each paddle.
#[derive(Clone, Copy, Debug, PartialEq, Eq, Structural)]
pub struct Controls {
    pub left: Thrust,
    pub right: Thrust,
}

impl Command {
    /// What is left for the host once the pushes are updated.
    pub open spec fn effect(self) -> Effect {
        match self {
            Command::Serve => Effect::Serve,
            Command::Quit => Effect::Quit,
            _ => Effect::Continue,
        }
    }
}

impl Controls {
    /// Both paddles idle.
    pub open spec fn idle() -> Controls {
        Controls { left: Thrust::Idle, right: Thrust::Idle }
    }

    /// The push on the paddle of `side`.
    pub open spec fn thrust(self, side: Side) -> Thrust {
        match side {
            Side::Left => self.left,
            Side::Right => self.right,
        }
    }

    /// The controls after `command`: a push replaces that paddle's thrust
    /// and leaves the other paddle alone; nothing else touches the controls.
    pub open spec fn apply(self, command: Command) -> Controls {
        match command {
            Command::Push(Side::Left, t) => Controls { left: t, right: self.right },
            Command::Push(Side::Right, t) => Controls { left: self.left, right: t },
            _ => self,
        }
    }

    /// The controls after `key` goes down.
    pub open spec fn after_press(self, key: Key) -> Controls {
        self.apply(key.pressed())
    }

    /// The controls after `key` goes up.
    pub open spec fn after_release(self, key: Key) -> Controls {
        self.apply(key.released())
    }

    /// Controls at the start of a match: nobody is pushing.
    pub fn new() -> (c: Controls)
        ensures
            c == Controls::idle(),
    {
        Controls { left: Thrust::Idle, right: Thrust::Idle }
    }

    /// Carries out `command` on the pushes and reports what remains for the
    /// host.
    pub fn execute(&mut self, command: Command) -> (e: Effect)
        ensures
            *final(self) == old(self).apply(command),
            e == command.effect(),
    {
        match command {
            Command::Push(side, thrust) => {
                match side {
                    Side::Left => {
                        self.left = thrust;
                    },
                    Side::Right => {
                        self.right = thrust;
                    },
                }
                Effect::Continue
            },
            Command::Serve => Effect::Serve,
            Command::Quit => Effect::Quit,
            Command::Nothing => Effect::Continue,
        }
    }

    /// Handles a key going down. A direction key sets its paddle's push; the
    /// serve and quit keys leave the pushes alone and are reported back; any
    /// other key does nothing.
    pub fn key_down_event(&mut self, key: Key) -> (e: Effect)
        ensures
            *final(self) == old(self).after_press(key),
            e == key.pressed().effect(),
    {
        let command = key.on_press();
        self.execute(command)
    }

    /// Handles a key going up. Either direction key of a paddle clears that
    /// paddle's push, whether or not it was the key that set it; every other
    /// key does nothing. A release never serves and never quits.
    pub fn key_up_event(&mut self, key: Key)
        ensures
            *final(self) == old(self).after_release(key),
    {
        let command = key.on_release();
        let _ = self.execute(command);
    }

    /// The push on the paddle of `side`.
    pub fn thrust_of(&self, side: Side) -> (t: Thrust)
        ensures
            t == self.thrust(side),
    {
        match side {
            Side::Left => self.left,
            Side::Right => self.right,
        }
    }

    /// The vertical acceleration of the paddle of `side`: `PADDLE_ACCELERATION`
    /// upward, the same downward, or zero.
    pub fn acceleration(&self, side: Side) -> (a: i32)
        ensures
            a == self.thrust(side).sign() * PADDLE_ACCELERATION,
    {
        self.thrust_of(side).acceleration()
    }
}

/// Releasing either direction key of a paddle leaves that paddle idle and
/// without acceleration, whatever the controls were before and whichever key
/// went down last; in particular after pressing one direction key and
/// releasing the other, which was never down.
pub proof fn lemma_release_idles_paddle(c: Controls, held: Key, let_go: Key)
    requires
        let_go.side() is Some,
    ensures
        c.after_release(let_go).thrust(let_go.side().unwrap()) == Thrust::Idle,
        c.after_press(held).after_release(let_go).thrust(let_go.side().unwrap()) == Thrust::Idle,
        c.after_press(held).after_release(let_go).thrust(let_go.side().unwrap()).sign()
            * PADDLE_ACCELERATION == 0,
{
}

/// A key event for one paddle never changes the push on the other.
pub proof fn lemma_sides_independent(c: Controls, key: Key, side: Side)
    requires
        key.side() != Some(side),
    ensures
        c.after_press(key).thrust(side) == c.thrust(side),
        c.after_release(key).thrust(side) == c.thrust(side),
{
}

/// Pressing a direction key sets its paddle's push to that key's direction,
/// whatever was held before.
pub proof fn lemma_press_sets_direction(c: Controls, key: Key)
    requires
        key.side() is Some,
    ensures
        c.after_press(key).thrust(key.side().unwrap()) == key.direction(),
        key.direction() != Thrust::Idle,
{
}

/// Only a key going down can serve or quit, and only the key bound to it:
/// every release, and every press of another key, leaves nothing for the host.
pub proof fn lemma_effects(key: Key)
    ensures
        key.released().effect() == Effect::Continue,
        key.pressed().effect() == Effect::Serve <==> key == Key::Serve,
        key.pressed().effect() == Effect::Quit <==> key == Key::Quit,
{
}

/// Keys outside the bound set change nothing, down or up.
pub proof fn lemma_unbound_key_ignored(c: Controls)
    ensures
        c.after_press(Key::Other) == c,
        c.after_release(Key::Other) == c,
        Key::Other.pressed().effect() == Effect::Continue,
{
}

} // verus!
