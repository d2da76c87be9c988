//! The rules of a two-player ball-and-paddle arcade game: the round state
//! machine, the launch countdown of the ball, the movement of the paddles, the
//! boundary colliders and the reaction to contact and intersection events.
//!
//! Positions and velocities are whole world units, time is whole nanoseconds,
//! and bodies are known by opaque `u64` handles.

pub mod arena;
pub mod ball;
pub mod collider;
pub mod game_logic;
pub mod input;
pub mod paddle;
pub mod timer;
