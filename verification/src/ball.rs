//! The ball: its spawn, its launch countdown and its launch.

use vstd::prelude::*;
use crate::arena::{BodyType, Vector};
use crate::collider::ColliderKind;
use crate::game_logic::{GameState, RoundState};
use crate::timer::{completes, tick_one_shot};

verus! {

/// Radius of the ball.
pub const BALL_RADIUS: i64 = 15;

/// Time between the spawn of a ball and its launch, in nanoseconds.
pub const BALL_LAUNCH_DELAY: u64 = 1_000_000_000;

/// Base speed of the ball.
pub const BALL_SPEED: i64 = 500;

/// Speed at which a ball is launched, and the most a push gives it: two and
/// a half times the base speed.
pub const BALL_TOP_SPEED: i64 = 1250;

/// What the physics engine is told of a ball's body and collider.
#[derive(Debug, Clone, Copy, PartialEq, Eq, Hash, Structural)]
pub struct BallBody {
    pub body_type: BodyType,
    /// The nature of the collider: a ball is solid.
    pub collider: ColliderKind,
    pub radius: i64,
    /// Continuous collision detection, against tunnelling at high speed.
    pub ccd_enabled: bool,
    pub linear_damping: u32,
    pub angular_damping: u32,
    /// Fraction of the relative velocity kept in a rebound, as a whole number.
    pub restitution: u32,
    /// Whether the body is removed once it has left the play field.
    pub despawn_offscreen: bool,
    /// Whether the physics engine reports the contacts of the body.
    pub contact_events: bool,
    /// Whether the physics engine reports its overlaps with sensors.
    pub intersection_events: bool,
}

/// A ball in play.
#[derive(Debug, Clone, Copy, PartialEq, Eq, Hash, Structural)]
pub struct Ball {
    /// Handle of the body.
    pub id: u64,
    pub position: Vector,
    pub linvel: Vector,
    /// Time run on the launch countdown; `None` once the ball is launched.
    pub timer: Option<u64>,
}

impl Ball {
    /// A ball as it is spawned: resting at the centre, its countdown at zero.
    pub open spec fn spawned(id: u64) -> Ball {
        Ball { id, position: Vector::spec_zero(), linvel: Vector::spec_zero(), timer: Some(0u64) }
    }

    /// The velocity that a launch gives: to the right, at top speed.
    pub open spec fn launch_velocity() -> Vector {
        Vector { x: BALL_TOP_SPEED, y: 0 }
    }

    /// The body of every ball: dynamic and solid, perfectly elastic, undamped,
    /// with continuous collision detection, removed when off screen, and with
    /// its contacts and overlaps reported.
    pub open spec fn spec_body() -> BallBody {
        BallBody {
            body_type: BodyType::Dynamic,
            collider: ColliderKind::Solid,
            radius: BALL_RADIUS,
            ccd_enabled: true,
            linear_damping: 0,
            angular_damping: 0,
            restitution: 1,
            despawn_offscreen: true,
            contact_events: true,
            intersection_events: true,
        }
    }

    /// The ball after a tick of `delta` nanoseconds in play. A countdown that
    /// reaches the launch delay is removed and the ball is launched; one that
    /// does not only runs on; a launched ball is left alone.
    pub open spec fn after_tick(self, delta: u64) -> Ball {
        match self.timer {
            None => self,
            Some(elapsed) => if completes(BALL_LAUNCH_DELAY, elapsed, delta) {
                Ball { linvel: Ball::launch_velocity(), timer: None, ..self }
            } else {
                Ball { timer: Some((elapsed + delta) as u64), ..self }
            },
        }
    }

    /// The ball after ticks of `deltas`, in their order.
    pub open spec fn after_ticks(self, deltas: Seq<u64>) -> Ball
        decreases deltas.len(),
    {
        if deltas.len() == 0 {
            self
        } else {
            self.after_ticks(deltas.drop_last()).after_tick(deltas.last())
        }
    }

    pub fn new(id: u64) -> (ball: Ball)
        ensures
            ball == Ball::spawned(id),
    {
        Ball { id, position: Vector::zero(), linvel: Vector::zero(), timer: Some(0) }
    }

    #[verifier::when_used_as_spec(spec_body)]
    pub fn body() -> (body: BallBody)
        ensures
            body == Ball::spec_body(),
    {
        BallBody {
            body_type: BodyType::Dynamic,
            collider: ColliderKind::Solid,
            radius: BALL_RADIUS,
            ccd_enabled: true,
            linear_damping: 0,
            angular_damping: 0,
            restitution: 1,
            despawn_offscreen: true,
            contact_events: true,
            intersection_events: true,
        }
    }

    /// Spawns the one ball of a new round under the handle `id`, with the
    /// body that the physics engine is to give it, and asks for the phase
    /// `Playing`, before the launch delay has run.
    pub fn setup_ball(id: u64, game_state: &mut RoundState) -> (spawned: (Ball, BallBody))
        ensures
            spawned.0 == Ball::spawned(id),
            spawned.1 == Ball::spec_body(),
            *final(game_state) == old(game_state).after_set(GameState::Playing),
    {
        let ball = Ball::new(id);
        let _ = game_state.set(GameState::Playing);
        (ball, Ball::body())
    }

    /// Advances this ball by one tick of `delta_ns` and tells whether the tick
    /// launched it.
    pub fn tick(&mut self, delta_ns: u64) -> (launched: bool)
        ensures
            *final(self) == old(self).after_tick(delta_ns),
            launched == (old(self).timer matches Some(elapsed) && completes(
                BALL_LAUNCH_DELAY,
                elapsed,
                delta_ns,
            )),
    {
        match self.timer {
            None => false,
            Some(elapsed) => {
                let (now, just_finished) = tick_one_shot(BALL_LAUNCH_DELAY, elapsed, delta_ns);
                if just_finished {
                    self.linvel = Vector::new(BALL_TOP_SPEED, 0);
                    self.timer = None;
                } else {
                    self.timer = Some(now);
                }
                just_finished
            },
        }
    }

    /// Advances every ball by one tick of `delta_ns`, each on its own
    /// countdown.
    pub fn launch_ball(balls: &mut Vec<Ball>, delta_ns: u64)
        ensures
            final(balls)@ == old(balls)@.map_values(|b: Ball| b.after_tick(delta_ns)),
    {
        let mut i: usize = 0;
        while i < balls.len()
            invariant
                i <= balls@.len(),
                balls@.len() == old(balls)@.len(),
                forall|k: int| 0 <= k < i ==> balls@[k] == old(balls)@[k].after_tick(delta_ns),
                forall|k: int| i <= k < balls@.len() ==> balls@[k] == old(balls)@[k],
            decreases balls@.len() - i,
        {
            let mut ball = balls[i];
            let _ = ball.tick(delta_ns);
            balls.set(i, ball);
            i = i + 1;
        }
    }
}

/// The time that ticks of `deltas` run in all.
pub open spec fn total_time(deltas: Seq<u64>) -> nat
    decreases deltas.len(),
{
    if deltas.len() == 0 {
        0
    } else {
        total_time(deltas.drop_last()) + deltas.last() as nat
    }
}

/// A spawned ball rests at the centre, its countdown at the time run so far,
/// for as long as the ticks have run less than the launch delay in all. Once
/// they have run the delay, the ball has the launch velocity and no countdown.
pub proof fn lemma_launch_waits_for_delay(id: u64, deltas: Seq<u64>)
    ensures
        total_time(deltas) < BALL_LAUNCH_DELAY ==> Ball::spawned(id).after_ticks(deltas) == (Ball {
            timer: Some(total_time(deltas) as u64),
            ..Ball::spawned(id)
        }),
        total_time(deltas) >= BALL_LAUNCH_DELAY ==> Ball::spawned(id).after_ticks(deltas) == (Ball {
            linvel: Ball::launch_velocity(),
            timer: None,
            ..Ball::spawned(id)
        }),
    decreases deltas.len(),
{
    if deltas.len() > 0 {
        lemma_launch_waits_for_delay(id, deltas.drop_last());
    }
}

/// A ball without a countdown is never given one again: ticks leave a
/// launched ball, whatever its velocity has become, exactly as it is.
pub proof fn lemma_launched_ball_is_left_alone(ball: Ball, deltas: Seq<u64>)
    requires
        ball.timer.is_none(),
    ensures
        ball.after_ticks(deltas) == ball,
    decreases deltas.len(),
{
    if deltas.len() > 0 {
        lemma_launched_ball_is_left_alone(ball, deltas.drop_last());
    }
}

/// Among the ticks of `deltas`, a spawned ball is launched by exactly one:
/// the first that brings the time run to the launch delay. `launched_by` says
/// of a tick, by its index, whether it is that one.
pub open spec fn launched_by(deltas: Seq<u64>, k: int) -> bool {
    &&& 0 <= k < deltas.len()
    &&& total_time(deltas.take(k)) < BALL_LAUNCH_DELAY
    &&& total_time(deltas.take(k + 1)) >= BALL_LAUNCH_DELAY
}

/// The tick that launches a spawned ball finds it waiting and leaves it
/// launched, and no other tick of the sequence does.
pub proof fn lemma_launched_exactly_once(id: u64, deltas: Seq<u64>, j: int, k: int)
    requires
        launched_by(deltas, j),
        launched_by(deltas, k),
    ensures
        j == k,
        Ball::spawned(id).after_ticks(deltas.take(k)).timer.is_some(),
        Ball::spawned(id).after_ticks(deltas.take(k)).linvel == Vector::spec_zero(),
        Ball::spawned(id).after_ticks(deltas.take(k + 1)).timer.is_none(),
        Ball::spawned(id).after_ticks(deltas.take(k + 1)).linvel == Ball::launch_velocity(),
{
    lemma_launch_waits_for_delay(id, deltas.take(k));
    lemma_launch_waits_for_delay(id, deltas.take(k + 1));
    if j < k {
        lemma_total_time_grows(deltas, j + 1, k);
    } else if k < j {
        lemma_total_time_grows(deltas, k + 1, j);
    }
}

/// The time run by a longer prefix of the ticks is no less.
pub proof fn lemma_total_time_grows(deltas: Seq<u64>, i: int, j: int)
    requires
        0 <= i <= j <= deltas.len(),
    ensures
        total_time(deltas.take(i)) <= total_time(deltas.take(j)),
    decreases j - i,
{
    if i < j {
        lemma_total_time_grows(deltas, i, j - 1);
        assert(deltas.take(j).drop_last() =~= deltas.take(j - 1));
    }
}

} // verus!
