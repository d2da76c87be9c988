//! The two paddles: their spawn and their movement under the keys.

use vstd::prelude::*;
use crate::arena::{Arena, BodyType, Vector};
use crate::game_logic::{GameState, RoundState};
use crate::input::KeyInput;

verus! {

/// Width of a paddle.
pub const PADDLE_WIDTH: i64 = 40;

/// Height of a paddle.
pub const PADDLE_HEIGHT: i64 = 100;

/// Speed of the left paddle.
pub const PADDLE_SPEED: i32 = 400;

/// Speed of the right paddle: one and a half times that of the left one.
pub const PADDLE_SPEED_RIGHT: i32 = 600;

/// The side of the field that a paddle guards.
#[derive(Debug, Clone, Copy, PartialEq, Eq, Hash, Structural)]
pub enum Side {
    Left,
    Right,
}

/// Marks a paddle that no player steers.
#[derive(Debug, Clone, Copy, Default)]
pub struct Ai;

/// A paddle: its side and the speed at which it moves.
#[derive(Debug, Clone, Copy, PartialEq, Eq, Hash, Structural)]
pub struct Paddle {
    pub side: Side,
    pub speed: i32,
}

/// A paddle with its body: driven by velocity alone, never by forces.
#[derive(Debug, Clone, Copy, PartialEq, Eq, Hash, Structural)]
pub struct PaddleBody {
    pub paddle: Paddle,
    pub body_type: BodyType,
    pub position: Vector,
    pub linvel: Vector,
    /// Width and height of the collider.
    pub extents: Vector,
}

impl Paddle {
    /// The paddle of the left player.
    pub open spec fn spec_left() -> Paddle {
        Paddle { side: Side::Left, speed: PADDLE_SPEED }
    }

    /// The paddle of the right player, one and a half times as fast.
    pub open spec fn spec_right() -> Paddle {
        Paddle { side: Side::Right, speed: PADDLE_SPEED_RIGHT }
    }

    /// A paddle as it is spawned at `position`: kinematic and at rest.
    pub open spec fn spawned(paddle: Paddle, position: Vector) -> PaddleBody {
        PaddleBody {
            paddle,
            body_type: BodyType::KinematicVelocityBased,
            position,
            linvel: Vector::spec_zero(),
            extents: Vector { x: PADDLE_WIDTH, y: PADDLE_HEIGHT },
        }
    }

    /// The clamp: how far from the centre line the centre of a paddle may
    /// get before the key that moves it outwards loses its effect. Half the
    /// arena's height less half the paddle's.
    pub open spec fn max_offset(arena: Arena) -> int {
        arena.half_height() - PADDLE_HEIGHT / 2
    }

    /// Whether the keys ask this paddle to move up.
    pub open spec fn asks_up(self, keys: KeyInput) -> bool {
        match self.side {
            Side::Left => keys.w,
            Side::Right => keys.up,
        }
    }

    /// Whether the keys ask this paddle to move down.
    pub open spec fn asks_down(self, keys: KeyInput) -> bool {
        match self.side {
            Side::Left => keys.s,
            Side::Right => keys.down,
        }
    }

    pub fn left() -> (paddle: Paddle)
        ensures
            paddle == Paddle::spec_left(),
    {
        Paddle { side: Side::Left, speed: PADDLE_SPEED }
    }

    pub fn right() -> (paddle: Paddle)
        ensures
            paddle == Paddle::spec_right(),
    {
        Paddle { side: Side::Right, speed: PADDLE_SPEED_RIGHT }
    }

    /// Gives `paddle` its body at `position`, at rest.
    pub fn spawn(paddle: Paddle, position: Vector) -> (body: PaddleBody)
        ensures
            body == Paddle::spawned(paddle, position),
    {
        PaddleBody {
            paddle,
            body_type: BodyType::KinematicVelocityBased,
            position,
            linvel: Vector::zero(),
            extents: Vector::new(PADDLE_WIDTH, PADDLE_HEIGHT),
        }
    }

    /// Spawns the two paddles, the left one first, each on the centre line and
    /// on its side edge of the arena, and asks for the phase `NewRound`.
    pub fn setup_paddle(arena: Arena, game_state: &mut RoundState) -> (paddles: Vec<PaddleBody>)
        ensures
            paddles@ == seq![
                Paddle::spawned(
                    Paddle::spec_left(),
                    Vector { x: (-arena.half_width()) as i64, y: 0 },
                ),
                Paddle::spawned(
                    Paddle::spec_right(),
                    Vector { x: arena.half_width() as i64, y: 0 },
                ),
            ],
            *final(game_state) == old(game_state).after_set(GameState::NewRound),
    {
        let (half_width, _) = arena.half_extents();
        let mut paddles: Vec<PaddleBody> = Vec::new();
        paddles.push(Paddle::spawn(Paddle::left(), Vector::new(-half_width, 0)));
        paddles.push(Paddle::spawn(Paddle::right(), Vector::new(half_width, 0)));
        let _ = game_state.set(GameState::NewRound);
        paddles
    }
}

impl PaddleBody {
    /// The velocity that the keys command, if any. A key takes effect only
    /// while the paddle has not reached the clamp on that key's side, and
    /// "up" is asked first.
    pub open spec fn commanded(self, keys: KeyInput, arena: Arena) -> Option<Vector> {
        if self.paddle.asks_up(keys) && self.position.y < Paddle::max_offset(arena) {
            Some(Vector { x: 0, y: self.paddle.speed as i64 })
        } else if self.paddle.asks_down(keys) && self.position.y > -Paddle::max_offset(arena) {
            Some(Vector { x: 0, y: (-self.paddle.speed) as i64 })
        } else {
            None
        }
    }

    /// The body after the keys were read. Where they command nothing the
    /// velocity stays what it was: a released key, or a paddle at or beyond
    /// the clamp, stops nothing.
    pub open spec fn after_keys(self, keys: KeyInput, arena: Arena) -> PaddleBody {
        match self.commanded(keys, arena) {
            Some(linvel) => PaddleBody { linvel, ..self },
            None => self,
        }
    }

    /// Reads the keys for this paddle, commands its velocity, and tells
    /// whether a velocity was commanded.
    pub fn steer(&mut self, keys: &KeyInput, arena: Arena) -> (commanded: bool)
        ensures
            *final(self) == old(self).after_keys(*keys, arena),
            commanded == old(self).commanded(*keys, arena).is_some(),
    {
        let (_, half_height) = arena.half_extents();
        let max_y: i64 = half_height - PADDLE_HEIGHT / 2;
        let vel_y: i64 = self.paddle.speed as i64;
        let (up, down) = match self.paddle.side {
            Side::Left => (keys.w, keys.s),
            Side::Right => (keys.up, keys.down),
        };
        if up && self.position.y < max_y {
            self.linvel = Vector::new(0, vel_y);
            true
        } else if down && self.position.y > -max_y {
            self.linvel = Vector::new(0, -vel_y);
            true
        } else {
            false
        }
    }
}

impl Paddle {
    /// Reads the keys once for all paddles and commands their velocities.
    /// Tells of each paddle, in their order, whether a velocity was commanded.
    pub fn movement(key_input: &KeyInput, paddles: &mut Vec<PaddleBody>, arena: Arena) -> (commanded:
        Vec<bool>)
        ensures
            final(paddles)@ == old(paddles)@.map_values(
                |p: PaddleBody| p.after_keys(*key_input, arena),
            ),
            commanded@ == old(paddles)@.map_values(
                |p: PaddleBody| p.commanded(*key_input, arena).is_some(),
            ),
    {
        let mut commanded: Vec<bool> = Vec::new();
        let mut i: usize = 0;
        while i < paddles.len()
            invariant
                i <= paddles@.len(),
                paddles@.len() == old(paddles)@.len(),
                commanded@.len() == i,
                forall|k: int|
                    0 <= k < i ==> paddles@[k] == old(paddles)@[k].after_keys(*key_input, arena),
                forall|k: int|
                    0 <= k < i ==> commanded@[k] == old(paddles)@[k].commanded(
                        *key_input,
                        arena,
                    ).is_some(),
                forall|k: int| i <= k < paddles@.len() ==> paddles@[k] == old(paddles)@[k],
            decreases paddles@.len() - i,
        {
            let mut body = paddles[i];
            let given = body.steer(key_input, arena);
            paddles.set(i, body);
            commanded.push(given);
            i = i + 1;
        }
        commanded
    }
}

/// The right paddle is commanded exactly one and a half times as fast as the
/// left one, 600 against 400: whatever the keys command of the two, upwards
/// or downwards, has these speeds and no horizontal part.
pub proof fn lemma_right_paddle_half_as_fast_again(
    left: PaddleBody,
    right: PaddleBody,
    keys: KeyInput,
    arena: Arena,
)
    requires
        left.paddle == Paddle::spec_left(),
        right.paddle == Paddle::spec_right(),
    ensures
        2 * right.paddle.speed == 3 * left.paddle.speed,
        left.commanded(keys, arena) matches Some(v) ==> v.x == 0 && (v.y == 400 || v.y == -400),
        right.commanded(keys, arena) matches Some(v) ==> v.x == 0 && (v.y == 600 || v.y == -600),
{
}

/// The keys never command a paddle outwards once it has reached the clamp:
/// an upward velocity is commanded only below the upper clamp, a downward one
/// only above the lower clamp, and the position itself is never written.
pub proof fn lemma_clamp_guards_commands(body: PaddleBody, keys: KeyInput, arena: Arena)
    requires
        body.paddle.speed > 0,
    ensures
        body.after_keys(keys, arena).position == body.position,
        body.commanded(keys, arena) matches Some(v) && v.y > 0 ==> body.position.y
            < Paddle::max_offset(arena),
        body.commanded(keys, arena) matches Some(v) && v.y < 0 ==> body.position.y
            > -Paddle::max_offset(arena),
        body.position.y >= Paddle::max_offset(arena) && !body.paddle.asks_down(keys)
            ==> body.after_keys(keys, arena) == body,
        body.position.y <= -Paddle::max_offset(arena) && !body.paddle.asks_up(keys)
            ==> body.after_keys(keys, arena) == body,
{
}

} // verus!
