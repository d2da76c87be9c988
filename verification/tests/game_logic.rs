use ping_pong::arena::{Arena, Vector};
use ping_pong::collider::Collider;
use ping_pong::game_logic::{Despawn, GameState, GoalEvent, RoundState, Score, StateError};

#[test]
fn game_starts_ready_with_nothing_waiting() {
    let state = RoundState::new();
    assert_eq!(state.current(), GameState::Ready);
    assert_eq!(state.scheduled, None);
}

#[test]
fn set_schedules_and_advance_enters() {
    let mut state = RoundState::new();
    assert_eq!(state.set(GameState::NewRound), Ok(()));
    assert_eq!(state.current(), GameState::Ready);
    assert_eq!(state.scheduled, Some(GameState::NewRound));
    assert_eq!(state.advance(), Some(GameState::NewRound));
    assert_eq!(state.current(), GameState::NewRound);
    assert_eq!(state.scheduled, None);
}

#[test]
fn advance_without_request_changes_nothing() {
    let mut state = RoundState::new();
    assert_eq!(state.advance(), None);
    assert_eq!(state, RoundState { current: GameState::Ready, scheduled: None });
}

#[test]
fn set_to_current_phase_is_refused_and_changes_nothing() {
    let mut state = RoundState::new();
    assert_eq!(state.set(GameState::Ready), Err(StateError::AlreadyInState));
    assert_eq!(state, RoundState { current: GameState::Ready, scheduled: None });
}

#[test]
fn second_request_in_a_tick_is_refused() {
    let mut state = RoundState::new();
    assert_eq!(state.set(GameState::NewRound), Ok(()));
    assert_eq!(state.set(GameState::Playing), Err(StateError::StateAlreadyQueued));
    assert_eq!(state.scheduled, Some(GameState::NewRound));
}

#[test]
fn current_phase_is_checked_before_the_queue() {
    let mut state = RoundState { current: GameState::Playing, scheduled: Some(GameState::NewRound) };
    assert_eq!(state.set(GameState::Playing), Err(StateError::AlreadyInState));
}

#[test]
fn goal_in_playing_returns_to_new_round() {
    let mut state = RoundState::new();
    state.set(GameState::NewRound).unwrap();
    state.advance();
    state.set(GameState::Playing).unwrap();
    state.advance();
    assert_eq!(state.current(), GameState::Playing);
    Score::goal(&vec![GoalEvent(Collider::Left)], &mut state);
    assert_eq!(state.current(), GameState::Playing);
    assert_eq!(state.advance(), Some(GameState::NewRound));
    assert_eq!(state, RoundState { current: GameState::NewRound, scheduled: None });
}

#[test]
fn several_goals_in_one_tick_make_one_transition() {
    let mut state = RoundState { current: GameState::Playing, scheduled: None };
    let goals = vec![
        GoalEvent(Collider::Right),
        GoalEvent(Collider::Left),
        GoalEvent(Collider::Right),
    ];
    Score::goal(&goals, &mut state);
    assert_eq!(state.scheduled, Some(GameState::NewRound));
    assert_eq!(state.advance(), Some(GameState::NewRound));
    assert_eq!(state.advance(), None);
    assert_eq!(state.current(), GameState::NewRound);
}

#[test]
fn no_goal_asks_for_nothing() {
    let mut state = RoundState { current: GameState::Playing, scheduled: None };
    Score::goal(&Vec::new(), &mut state);
    assert_eq!(state, RoundState { current: GameState::Playing, scheduled: None });
}

#[test]
fn goal_during_new_round_is_dropped() {
    let mut state = RoundState { current: GameState::NewRound, scheduled: None };
    Score::goal(&vec![GoalEvent(Collider::Left)], &mut state);
    assert_eq!(state, RoundState { current: GameState::NewRound, scheduled: None });
}

#[test]
fn goal_does_not_replace_a_waiting_transition() {
    let mut state = RoundState { current: GameState::NewRound, scheduled: Some(GameState::Playing) };
    Score::goal(&vec![GoalEvent(Collider::Left)], &mut state);
    assert_eq!(state.scheduled, Some(GameState::Playing));
}

#[test]
fn offscreen_picks_bodies_beyond_an_edge() {
    let arena = Arena::new(1280, 720);
    let entities = vec![
        (1, Vector::new(0, 0)),
        (2, Vector::new(640, 0)),
        (3, Vector::new(641, 0)),
        (4, Vector::new(-640, 360)),
        (5, Vector::new(-641, 0)),
        (6, Vector::new(0, 361)),
        (7, Vector::new(0, -361)),
        (8, Vector::new(0, -360)),
    ];
    assert_eq!(Despawn::offscreen(&entities, arena), vec![3, 5, 6, 7]);
}

#[test]
fn offscreen_of_nothing_is_nothing() {
    assert_eq!(Despawn::offscreen(&Vec::new(), Arena::new(1280, 720)), Vec::<u64>::new());
}

#[test]
fn offscreen_halves_round_down() {
    let arena = Arena::new(1281, 721);
    assert_eq!(arena.half_extents(), (640, 360));
    assert!(arena.outside(Vector::new(641, 0)));
    assert!(!arena.outside(Vector::new(640, -360)));
}

#[test]
fn offscreen_at_the_ends_of_the_range() {
    let arena = Arena::new(u32::MAX, u32::MAX);
    let entities = vec![
        (1, Vector::new(i64::MAX, 0)),
        (2, Vector::new(0, i64::MIN)),
        (3, Vector::new(2147483647, -2147483647)),
    ];
    assert_eq!(Despawn::offscreen(&entities, arena), vec![1, 2]);
}
