//! What the players ask of their characters.
//!
//! An axis is a fixed-point number between -1 and 1.

use vstd::prelude::*;
use crate::vecmath::{saturate, widen, UNIT};

verus! {

/// How far the vertical stick must be pushed up to mean a jump.
pub const INPUT_THRESHOLD: i64 = 800;

/// A key that means something to the game.
#[derive(Clone, Copy, Debug, PartialEq, Eq)]
pub enum Key {
    Right,
    Left,
    Up,
    Down,
    /// Any other key.
    Other,
}

/// The state of one player's controls: digital directions and analog
/// axes.
#[derive(Clone, Copy, Debug)]
pub struct PlayerInput {
    pub d_right: bool,
    pub d_left: bool,
    pub d_up: bool,
    pub d_down: bool,
    pub d_jump: bool,
    pub a_x: i64,
    pub a_y: i64,
}

/// An axis from its analog part `a` and its two digital directions: their
/// sum, held between -1 and 1.
pub open spec fn axis(a: int, d_neg: bool, d_pos: bool) -> int {
    let value = a + (if d_neg {
        -UNIT
    } else {
        0
    }) + (if d_pos {
        UNIT as int
    } else {
        0
    });
    if value < -UNIT {
        -UNIT
    } else if value > UNIT {
        UNIT as int
    } else {
        value
    }
}

impl PlayerInput {
    /// Controls at rest: nothing held, both sticks in the middle.
    pub open spec fn at_rest() -> PlayerInput {
        PlayerInput {
            d_right: false,
            d_left: false,
            d_up: false,
            d_down: false,
            d_jump: false,
            a_x: 0,
            a_y: 0,
        }
    }

    /// Controls at rest.
    pub fn new() -> (r: PlayerInput)
        ensures
            r == PlayerInput::at_rest(),
    {
        PlayerInput {
            d_right: false,
            d_left: false,
            d_up: false,
            d_down: false,
            d_jump: false,
            a_x: 0,
            a_y: 0,
        }
    }

    /// The horizontal axis.
    pub open spec fn x_axis(&self) -> int {
        axis(self.a_x as int, self.d_left, self.d_right)
    }

    /// The vertical axis.
    pub open spec fn y_axis(&self) -> int {
        axis(self.a_y as int, self.d_down, self.d_up)
    }

    /// Whether the player asks for a jump: up is held, or the vertical
    /// stick is beyond the threshold.
    pub open spec fn wants_jump(&self) -> bool {
        self.d_up || self.a_y > INPUT_THRESHOLD
    }

    /// An axis from its analog part and its two digital directions.
    pub fn da_input(a: i64, d_neg: bool, d_pos: bool) -> (r: i64)
        ensures
            r == axis(a as int, d_neg, d_pos),
    {
        let neg: i128 = if d_neg {
            -1000
        } else {
            0
        };
        let pos: i128 = if d_pos {
            1000
        } else {
            0
        };
        let value = widen(a) + neg + pos;
        if value < -1000 {
            -1000
        } else if value > 1000 {
            1000
        } else {
            saturate(value)
        }
    }

    /// The horizontal axis.
    pub fn x(&self) -> (r: i64)
        ensures
            r == self.x_axis(),
            -UNIT <= r <= UNIT,
    {
        PlayerInput::da_input(self.a_x, self.d_left, self.d_right)
    }

    /// The vertical axis.
    pub fn y(&self) -> (r: i64)
        ensures
            r == self.y_axis(),
            -UNIT <= r <= UNIT,
    {
        PlayerInput::da_input(self.a_y, self.d_down, self.d_up)
    }

    /// Whether the player asks for a jump.
    pub fn jump(&self) -> (r: bool)
        ensures
            r == self.wants_jump(),
    {
        self.d_up || self.a_y > INPUT_THRESHOLD
    }
}

/// The input manager, mapping key events into player actions.
pub struct InputManager {
    players: Vec<PlayerInput>,
}

impl InputManager {
    #[verifier::type_invariant]
    spec fn has_first_player(&self) -> bool {
        self.players@.len() >= 1
    }

    /// The controls of each player.
    pub closed spec fn players(&self) -> Seq<PlayerInput> {
        self.players@
    }

    /// One player, controls at rest.
    pub fn new() -> (r: InputManager)
        ensures
            r.players() == seq![PlayerInput::at_rest()],
    {
        let r = InputManager { players: vec![PlayerInput::new()] };
        r
    }

    /// Takes note that `key` went down (`pressed`) or up. The arrow keys
    /// are the first player's digital directions; other keys mean nothing.
    pub fn handle_event(&mut self, key: Key, pressed: bool)
        ensures
            final(self).players().len() == old(self).players().len() >= 1,
            final(self).players() == old(self).players().update(
                0,
                match key {
                    Key::Right => (PlayerInput { d_right: pressed, ..old(self).players()[0] }),
                    Key::Left => (PlayerInput { d_left: pressed, ..old(self).players()[0] }),
                    Key::Up => (PlayerInput { d_up: pressed, ..old(self).players()[0] }),
                    Key::Down => (PlayerInput { d_down: pressed, ..old(self).players()[0] }),
                    Key::Other => old(self).players()[0],
                },
            ),
    {
        proof {
            use_type_invariant(&*self);
        }
        let mut first = self.players[0];
        match key {
            Key::Right => {
                first.d_right = pressed;
            },
            Key::Left => {
                first.d_left = pressed;
            },
            Key::Up => {
                first.d_up = pressed;
            },
            Key::Down => {
                first.d_down = pressed;
            },
            Key::Other => {},
        }
        self.players[0] = first;
    }

    /// Lets `dt` pass. The controls do not change with time.
    pub fn update(&mut self, dt: u64)
        ensures
            final(self).players() == old(self).players(),
    {
    }

    /// The controls of player number `player`, if there is that player.
    pub fn player_input(&self, player: usize) -> (r: Option<&PlayerInput>)
        ensures
            r is Some <==> player < self.players().len(),
            r matches Some(input) ==> *input == self.players()[player as int],
    {
        if player < self.players.len() {
            Some(&self.players[player])
        } else {
            None
        }
    }
}

} // verus!
