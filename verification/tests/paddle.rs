use ping_pong::arena::{Arena, BodyType, Vector};
use ping_pong::game_logic::{GameState, RoundState};
use ping_pong::input::KeyInput;
use ping_pong::paddle::{Paddle, PaddleBody, Side, PADDLE_HEIGHT, PADDLE_SPEED, PADDLE_WIDTH};

fn arena() -> Arena {
    Arena::new(1280, 720)
}

fn keys() -> KeyInput {
    KeyInput::new()
}

fn left_at(y: i64, linvel: Vector) -> PaddleBody {
    PaddleBody { position: Vector::new(-640, y), linvel, ..Paddle::spawn(Paddle::left(), Vector::new(0, 0)) }
}

fn right_at(y: i64, linvel: Vector) -> PaddleBody {
    PaddleBody { position: Vector::new(640, y), linvel, ..Paddle::spawn(Paddle::right(), Vector::new(0, 0)) }
}

#[test]
fn right_paddle_is_half_as_fast_again_as_the_left() {
    assert_eq!(Paddle::left(), Paddle { side: Side::Left, speed: 400 });
    assert_eq!(Paddle::right(), Paddle { side: Side::Right, speed: 600 });
    assert_eq!(2 * Paddle::right().speed, 3 * Paddle::left().speed);
    assert_eq!(PADDLE_SPEED, 400);
}

#[test]
fn spawn_puts_a_resting_body_of_fixed_size() {
    let body = Paddle::spawn(Paddle::left(), Vector::new(-12, 34));
    assert_eq!(
        body,
        PaddleBody {
            paddle: Paddle::left(),
            body_type: BodyType::KinematicVelocityBased,
            position: Vector::new(-12, 34),
            linvel: Vector::new(0, 0),
            extents: Vector::new(40, 100),
        }
    );
    assert_eq!((PADDLE_WIDTH, PADDLE_HEIGHT), (40, 100));
}

#[test]
fn setup_paddle_spawns_both_on_the_side_edges_and_asks_for_new_round() {
    let mut state = RoundState::new();
    let paddles = Paddle::setup_paddle(arena(), &mut state);
    assert_eq!(
        paddles,
        vec![
            Paddle::spawn(Paddle::left(), Vector::new(-640, 0)),
            Paddle::spawn(Paddle::right(), Vector::new(640, 0)),
        ]
    );
    assert_eq!(state, RoundState { current: GameState::Ready, scheduled: Some(GameState::NewRound) });
}

#[test]
fn movement_keys_command_each_paddle_at_its_own_speed() {
    let mut paddles = vec![left_at(0, Vector::new(0, 0)), right_at(0, Vector::new(0, 0))];
    Paddle::movement(&KeyInput { w: true, down: true, ..keys() }, &mut paddles, arena());
    assert_eq!(paddles[0].linvel, Vector::new(0, 400));
    assert_eq!(paddles[1].linvel, Vector::new(0, -600));
    Paddle::movement(&KeyInput { s: true, up: true, ..keys() }, &mut paddles, arena());
    assert_eq!(paddles[0].linvel, Vector::new(0, -400));
    assert_eq!(paddles[1].linvel, Vector::new(0, 600));
}

#[test]
fn movement_never_writes_a_position() {
    let mut paddles = vec![left_at(17, Vector::new(0, 0)), right_at(-23, Vector::new(0, 0))];
    Paddle::movement(&KeyInput { w: true, up: true, ..keys() }, &mut paddles, arena());
    assert_eq!(paddles[0].position, Vector::new(-640, 17));
    assert_eq!(paddles[1].position, Vector::new(640, -23));
}

#[test]
fn key_takes_effect_short_of_the_clamp_and_not_at_it() {
    let up = KeyInput { w: true, ..keys() };
    let down = KeyInput { s: true, ..keys() };
    let rest = Vector::new(0, 0);
    let mut paddles = vec![left_at(309, rest), left_at(310, rest), left_at(311, rest)];
    assert_eq!(Paddle::movement(&up, &mut paddles, arena()), vec![true, false, false]);
    assert_eq!(paddles[0].linvel, Vector::new(0, 400));
    assert_eq!(paddles[1].linvel, rest);
    assert_eq!(paddles[2].linvel, rest);
    let mut paddles = vec![left_at(-309, rest), left_at(-310, rest), left_at(-311, rest)];
    assert_eq!(Paddle::movement(&down, &mut paddles, arena()), vec![true, false, false]);
    assert_eq!(paddles[0].linvel, Vector::new(0, -400));
    assert_eq!(paddles[1].linvel, rest);
    assert_eq!(paddles[2].linvel, rest);
}

#[test]
fn paddle_at_the_clamp_with_its_key_held_stays_at_rest() {
    let mut paddles = vec![left_at(310, Vector::new(0, 0))];
    let commanded = Paddle::movement(&KeyInput { w: true, ..keys() }, &mut paddles, arena());
    assert_eq!(commanded, vec![false]);
    assert_eq!(paddles[0].linvel, Vector::new(0, 0));
    let mut paddles = vec![right_at(-310, Vector::new(0, 0))];
    let commanded = Paddle::movement(&KeyInput { down: true, ..keys() }, &mut paddles, arena());
    assert_eq!(commanded, vec![false]);
    assert_eq!(paddles[0].linvel, Vector::new(0, 0));
}

#[test]
fn paddle_at_one_clamp_can_leave_towards_the_other() {
    let mut paddles = vec![left_at(310, Vector::new(0, 0)), right_at(-310, Vector::new(0, 0))];
    let back = KeyInput { s: true, up: true, ..keys() };
    assert_eq!(Paddle::movement(&back, &mut paddles, arena()), vec![true, true]);
    assert_eq!(paddles[0].linvel, Vector::new(0, -400));
    assert_eq!(paddles[1].linvel, Vector::new(0, 600));
}

#[test]
fn movement_tells_which_paddles_were_commanded() {
    let mut paddles = vec![left_at(0, Vector::new(0, 400)), right_at(0, Vector::new(7, 7))];
    let commanded = Paddle::movement(&KeyInput { w: true, ..keys() }, &mut paddles, arena());
    assert_eq!(commanded, vec![true, false]);
    assert_eq!(paddles[0].linvel, Vector::new(0, 400));
    assert_eq!(paddles[1].linvel, Vector::new(7, 7));
    assert_eq!(Paddle::movement(&keys(), &mut paddles, arena()), vec![false, false]);
    assert_eq!(Paddle::movement(&keys(), &mut Vec::new(), arena()), Vec::<bool>::new());
}

#[test]
fn paddle_beyond_the_clamp_keeps_its_velocity() {
    let mut paddles = vec![right_at(400, Vector::new(0, 600))];
    Paddle::movement(&KeyInput { up: true, ..keys() }, &mut paddles, arena());
    assert_eq!(paddles[0].linvel, Vector::new(0, 600));
}

#[test]
fn paddle_beyond_the_upper_clamp_can_still_go_down() {
    let mut paddles = vec![left_at(400, Vector::new(0, 400))];
    Paddle::movement(&KeyInput { w: true, s: true, ..keys() }, &mut paddles, arena());
    assert_eq!(paddles[0].linvel, Vector::new(0, -400));
}

#[test]
fn up_is_asked_before_down() {
    let mut paddles = vec![left_at(0, Vector::new(0, 0)), right_at(0, Vector::new(0, 0))];
    let all = KeyInput { w: true, s: true, up: true, down: true, ..keys() };
    Paddle::movement(&all, &mut paddles, arena());
    assert_eq!(paddles[0].linvel, Vector::new(0, 400));
    assert_eq!(paddles[1].linvel, Vector::new(0, 600));
}

#[test]
fn released_keys_leave_the_paddles_drifting() {
    let mut paddles = vec![left_at(0, Vector::new(0, 400)), right_at(0, Vector::new(3, -600))];
    Paddle::movement(&keys(), &mut paddles, arena());
    assert_eq!(paddles[0].linvel, Vector::new(0, 400));
    assert_eq!(paddles[1].linvel, Vector::new(3, -600));
}

#[test]
fn keys_of_the_other_player_and_push_keys_move_nothing() {
    let mut paddles = vec![left_at(0, Vector::new(1, 2))];
    let other = KeyInput { up: true, down: true, d: true, left: true, ..keys() };
    Paddle::movement(&other, &mut paddles, arena());
    assert_eq!(paddles[0].linvel, Vector::new(1, 2));
}

#[test]
fn command_drops_a_horizontal_velocity() {
    let mut body = left_at(0, Vector::new(9, 9));
    assert!(body.steer(&KeyInput { s: true, ..keys() }, arena()));
    assert_eq!(body.linvel, Vector::new(0, -400));
}

#[test]
fn arena_lower_than_a_paddle_has_a_negative_clamp() {
    let flat = Arena::new(1280, 60);
    let up = KeyInput { w: true, ..keys() };
    let down = KeyInput { s: true, ..keys() };
    let mut body = left_at(0, Vector::new(0, 0));
    assert!(!body.steer(&up, flat));
    assert!(!body.steer(&down, flat));
    assert_eq!(body.linvel, Vector::new(0, 0));
    let mut at_clamp = left_at(-20, Vector::new(0, 0));
    assert!(!at_clamp.steer(&up, flat));
    assert_eq!(at_clamp.linvel, Vector::new(0, 0));
    let mut low = left_at(-21, Vector::new(0, 0));
    assert!(low.steer(&up, flat));
    assert_eq!(low.linvel, Vector::new(0, 400));
    let mut high = left_at(21, Vector::new(0, 0));
    assert!(high.steer(&down, flat));
    assert_eq!(high.linvel, Vector::new(0, -400));
}

#[test]
fn steer_at_the_ends_of_the_range() {
    let mut body = PaddleBody {
        paddle: Paddle { side: Side::Left, speed: i32::MIN },
        ..left_at(0, Vector::new(0, 0))
    };
    body.steer(&KeyInput { s: true, ..keys() }, Arena::new(u32::MAX, u32::MAX));
    assert_eq!(body.linvel, Vector::new(0, 2147483648));
    let mut far = left_at(i64::MIN, Vector::new(0, 0));
    far.steer(&KeyInput { s: true, ..keys() }, Arena::new(u32::MAX, u32::MAX));
    assert_eq!(far.linvel, Vector::new(0, 0));
    far.steer(&KeyInput { w: true, ..keys() }, Arena::new(u32::MAX, u32::MAX));
    assert_eq!(far.linvel, Vector::new(0, 400));
}

#[test]
fn clear_forgets_every_key() {
    let mut all = KeyInput { w: true, s: true, d: true, up: true, down: true, left: true };
    all.clear();
    assert_eq!(all, KeyInput::new());
    assert_eq!(
        KeyInput::new(),
        KeyInput { w: false, s: false, d: false, up: false, down: false, left: false }
    );
}
