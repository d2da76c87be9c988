//! The round state machine, the goal signal and the off-screen cleanup rule.

use vstd::prelude::*;
use crate::arena::{Arena, Vector};
use crate::collider::Collider;

verus! {

/// The phase of play. Exactly one phase is active at any instant.
///
/// `NotReady` and `Goal` are reserved: no transition of the game enters them.
#[derive(Debug, Clone, Copy, PartialEq, Eq, Hash, Structural)]
pub enum GameState {
    NotReady,
    Ready,
    NewRound,
    Playing,
    Goal,
}

impl GameState {
    /// Whether the game ever enters this phase.
    pub open spec fn is_live(self) -> bool {
        self == GameState::Ready || self == GameState::NewRound || self == GameState::Playing
    }
}

/// Why a requested transition was not taken.
#[derive(Debug, Clone, Copy, PartialEq, Eq, Hash, Structural)]
pub enum StateError {
    /// The requested phase is the current one.
    AlreadyInState,
    /// Another transition is waiting to take effect.
    StateAlreadyQueued,
}

/// The phase of play together with the one transition that may be waiting to
/// take effect before the next tick.
#[derive(Debug, Clone, Copy, PartialEq, Eq, Hash, Structural)]
pub struct RoundState {
    pub current: GameState,
    pub scheduled: Option<GameState>,
}

impl RoundState {
    /// The state in which a game starts: `Ready`, nothing waiting.
    pub open spec fn initial() -> RoundState {
        RoundState { current: GameState::Ready, scheduled: None }
    }

    /// The outcome of asking for `next`: the error, if the request is refused.
    pub open spec fn refusal(self, next: GameState) -> Option<StateError> {
        if self.current == next {
            Some(StateError::AlreadyInState)
        } else if self.scheduled.is_some() {
            Some(StateError::StateAlreadyQueued)
        } else {
            None
        }
    }

    /// The state after asking for `next`: a refused request changes nothing.
    pub open spec fn after_set(self, next: GameState) -> RoundState {
        if self.refusal(next).is_none() {
            RoundState { current: self.current, scheduled: Some(next) }
        } else {
            self
        }
    }

    /// The state once the waiting transition, if any, has taken effect.
    pub open spec fn after_advance(self) -> RoundState {
        match self.scheduled {
            Some(next) => RoundState { current: next, scheduled: None },
            None => self,
        }
    }

    /// Every phase that this state holds is one the game enters.
    pub open spec fn is_live(self) -> bool {
        &&& self.current.is_live()
        &&& self.scheduled matches Some(next) ==> next.is_live()
    }

    pub fn new() -> (state: RoundState)
        ensures
            state == RoundState::initial(),
    {
        RoundState { current: GameState::Ready, scheduled: None }
    }

    /// The active phase.
    pub fn current(&self) -> (phase: GameState)
        ensures
            phase == self.current,
    {
        self.current
    }

    /// Asks for a transition to `next`, to take effect at the next `advance`.
    ///
    /// Refused, with the state left as it was, when `next` is the current phase
    /// or when a transition is already waiting.
    pub fn set(&mut self, next: GameState) -> (outcome: Result<(), StateError>)
        ensures
            *final(self) == old(self).after_set(next),
            match old(self).refusal(next) {
                Some(e) => outcome == Err::<(), StateError>(e),
                None => outcome.is_ok(),
            },
    {
        if self.current == next {
            Err(StateError::AlreadyInState)
        } else if self.scheduled.is_some() {
            Err(StateError::StateAlreadyQueued)
        } else {
            self.scheduled = Some(next);
            Ok(())
        }
    }

    /// Lets the waiting transition take effect and returns the phase entered,
    /// or `None` when nothing was waiting.
    pub fn advance(&mut self) -> (entered: Option<GameState>)
        ensures
            *final(self) == old(self).after_advance(),
            entered == old(self).scheduled,
    {
        let entered = self.scheduled;
        match entered {
            Some(next) => {
                self.current = next;
                self.scheduled = None;
            },
            None => {},
        }
        entered
    }
}

/// A goal: the side boundary that the ball crossed.
#[derive(Debug, Clone, Copy, PartialEq, Eq, Hash, Structural)]
pub struct GoalEvent(pub Collider);

/// The scoring rule: any goal restarts the round.
#[derive(Debug, Clone, Copy, Default)]
pub struct Score;

impl Score {
    /// The state after the goals of one tick were consumed, `n` of them.
    pub open spec fn after_goals(state: RoundState, n: nat) -> RoundState {
        if n == 0 {
            state
        } else {
            state.after_set(GameState::NewRound)
        }
    }

    /// Consumes the goal signals of one tick: each asks for `NewRound`. A
    /// request that the state machine refuses is dropped silently, so any
    /// number of goals in `Playing` amounts to a single transition.
    pub fn goal(goal_events: &Vec<GoalEvent>, game_state: &mut RoundState)
        ensures
            *final(game_state) == Score::after_goals(*old(game_state), goal_events@.len()),
    {
        let mut i: usize = 0;
        while i < goal_events.len()
            invariant
                i <= goal_events@.len(),
                *game_state == Score::after_goals(*old(game_state), i as nat),
            decreases goal_events@.len() - i,
        {
            let _ = game_state.set(GameState::NewRound);
            i = i + 1;
        }
    }
}

/// Marks a body for removal once it has left the play field.
#[derive(Debug, Clone, Copy, Default)]
pub struct Despawn;

impl Despawn {
    /// The bodies among `positions` that are to be removed: those beyond an
    /// edge of the arena, in their order.
    pub open spec fn departed(positions: Seq<(u64, Vector)>, arena: Arena) -> Seq<u64> {
        positions.filter(|b: (u64, Vector)| arena.is_outside(b.1)).map_values(
            |b: (u64, Vector)| b.0,
        )
    }

    /// Picks the marked bodies, given as handle and position, that have left
    /// the play field.
    pub fn offscreen(entities: &Vec<(u64, Vector)>, arena: Arena) -> (gone: Vec<u64>)
        ensures
            gone@ == Despawn::departed(entities@, arena),
    {
        let mut gone: Vec<u64> = Vec::new();
        let mut i: usize = 0;
        proof {
            assert(entities@.subrange(0, 0) =~= Seq::empty());
            assert(Despawn::departed(Seq::empty(), arena) =~= Seq::empty()) by {
                reveal(Seq::filter);
            }
        }
        while i < entities.len()
            invariant
                i <= entities@.len(),
                gone@ == Despawn::departed(entities@.subrange(0, i as int), arena),
            decreases entities@.len() - i,
        {
            let (id, position) = entities[i];
            proof {
                let prefix = entities@.subrange(0, i as int);
                assert(entities@.subrange(0, i + 1) =~= prefix.push(entities@[i as int]));
                reveal(Seq::filter);
                assert(prefix.push(entities@[i as int]).drop_last() =~= prefix);
            }
            if arena.outside(position) {
                gone.push(id);
            }
            i = i + 1;
        }
        proof {
            assert(entities@.subrange(0, i as int) =~= entities@);
        }
        gone
    }
}

/// What the game does to the round state.
pub enum RoundStep {
    /// The paddles were spawned: `NewRound` is asked for.
    PaddlesSpawned,
    /// The ball was spawned: `Playing` is asked for.
    BallSpawned,
    /// The goals of a tick were consumed, this many of them.
    Goals(nat),
    /// The waiting transition took effect.
    Advance,
}

impl RoundState {
    /// The state after one step of the game.
    pub open spec fn after_step(self, step: RoundStep) -> RoundState {
        match step {
            RoundStep::PaddlesSpawned => self.after_set(GameState::NewRound),
            RoundStep::BallSpawned => self.after_set(GameState::Playing),
            RoundStep::Goals(n) => Score::after_goals(self, n),
            RoundStep::Advance => self.after_advance(),
        }
    }

    /// The state after `steps`, in their order.
    pub open spec fn after_steps(self, steps: Seq<RoundStep>) -> RoundState
        decreases steps.len(),
    {
        if steps.len() == 0 {
            self
        } else {
            self.after_steps(steps.drop_last()).after_step(steps.last())
        }
    }
}

/// Whatever the game does, in whatever order, the round never enters
/// `NotReady` or `Goal`, nor has either of them waiting.
pub proof fn lemma_reserved_phases_are_never_entered(steps: Seq<RoundStep>)
    ensures
        RoundState::initial().after_steps(steps).is_live(),
    decreases steps.len(),
{
    if steps.len() > 0 {
        lemma_reserved_phases_are_never_entered(steps.drop_last());
    }
}

/// A game goes from `Ready` to `NewRound` when the paddles are spawned and
/// on to `Playing` when the ball is, and any number of goals in one tick of
/// `Playing` brings it back to `NewRound`, by a single transition.
pub proof fn lemma_goal_returns_to_new_round(goals: nat)
    requires
        goals >= 1,
    ensures
        ({
            let new_round = RoundState::initial().after_step(RoundStep::PaddlesSpawned).after_step(
                RoundStep::Advance,
            );
            let playing = new_round.after_step(RoundStep::BallSpawned).after_step(
                RoundStep::Advance,
            );
            let scored = playing.after_step(RoundStep::Goals(goals));
            &&& new_round == (RoundState { current: GameState::NewRound, scheduled: None })
            &&& playing == (RoundState { current: GameState::Playing, scheduled: None })
            &&& scored == (RoundState {
                current: GameState::Playing,
                scheduled: Some(GameState::NewRound),
            })
            &&& scored.after_advance() == new_round
            &&& scored.after_advance().after_advance() == new_round
        }),
{
}

/// In `Playing` with nothing waiting, one goal or many ask for the same
/// single transition to `NewRound`; without a goal nothing is asked for.
pub proof fn lemma_goals_ask_once(state: RoundState, goals: nat)
    requires
        state.current == GameState::Playing,
        state.scheduled.is_none(),
    ensures
        goals == 0 ==> Score::after_goals(state, goals) == state,
        goals >= 1 ==> Score::after_goals(state, goals) == (RoundState {
            current: GameState::Playing,
            scheduled: Some(GameState::NewRound),
        }),
        goals >= 1 ==> Score::after_goals(state, goals).after_advance() == (RoundState {
            current: GameState::NewRound,
            scheduled: None,
        }),
{
}

} // verus!
