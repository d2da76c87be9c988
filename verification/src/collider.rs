//! The four boundary colliders and the reaction to physics events.

use vstd::prelude::*;
use crate::arena::{Arena, BodyType, Vector};
use crate::ball::{Ball, BALL_SPEED};
use crate::game_logic::{GameState, GoalEvent, RoundState, Score};
use crate::input::KeyInput;
use crate::paddle::Side;

verus! {

/// Thickness of the top and bottom walls.
pub const WALL_THICK: i64 = 5;

/// Thickness of the left and right sensor zones.
pub const EDGE_THICK: i64 = 50;

/// How far outside the side edges the centres of the sensor zones lie.
pub const EDGE_OFFSET: i64 = 15;

/// Factor by which a push scales the horizontal velocity before the clamp.
pub const PUSH_FACTOR: i64 = 200;

/// One of the four static boundaries of the play field.
#[derive(Debug, Clone, Copy, PartialEq, Eq, Hash, Structural)]
pub enum Collider {
    Top,
    Bottom,
    Left,
    Right,
}

/// The physical nature of a collider.
#[derive(Debug, Clone, Copy, PartialEq, Eq, Hash, Structural)]
pub enum ColliderKind {
    /// Reflects what hits it.
    Solid,
    /// Detects what enters it and alters nothing.
    Sensor,
}

/// A boundary as the physics engine is to create it: static, centred on
/// `position`, `extents.x` wide and `extents.y` high.
#[derive(Debug, Clone, Copy, PartialEq, Eq, Hash, Structural)]
pub struct Fixture {
    pub collider: Collider,
    pub body_type: BodyType,
    pub kind: ColliderKind,
    pub position: Vector,
    pub extents: Vector,
}

/// A boundary under the handle of its body.
#[derive(Debug, Clone, Copy, PartialEq, Eq, Hash, Structural)]
pub struct Edge {
    pub id: u64,
    pub collider: Collider,
}

/// A contact between two solid bodies: begun, or over.
#[derive(Debug, Clone, Copy, PartialEq, Eq, Hash, Structural)]
pub enum ContactEvent {
    Started(u64, u64),
    Stopped(u64, u64),
}

/// An overlap between a sensor and another body, entered or left.
#[derive(Debug, Clone, Copy, PartialEq, Eq, Hash, Structural)]
pub struct IntersectionEvent {
    pub collider1: u64,
    pub collider2: u64,
    pub intersecting: bool,
}

/// What the contact events of one tick came to.
#[derive(Debug, Clone, Copy, PartialEq, Eq, Hash, Structural)]
pub struct Reaction {
    /// Whether the keys were read and forgotten: a contact was over.
    pub keys_read: bool,
    /// The index of the ball that was pushed, if one was.
    pub pushed: Option<usize>,
}

/// The largest of `lo` and the smallest of `hi` and `x`.
pub open spec fn clamp(x: int, lo: int, hi: int) -> int {
    if x < lo {
        lo
    } else if x > hi {
        hi
    } else {
        x
    }
}

/// The speed that a push may give at most: two and a half times `speed`.
pub open spec fn push_limit(speed: int) -> int {
    speed * 5 / 2
}

/// The horizontal velocity after a push: `x` scaled by `PUSH_FACTOR` and
/// clamped to the push limit either way.
pub open spec fn pushed_x(x: int, speed: int) -> int {
    clamp(x * PUSH_FACTOR, -push_limit(speed), push_limit(speed))
}

/// The velocity after a push: the horizontal part scaled and clamped, the
/// vertical part zero.
pub open spec fn pushed(velocity: Vector, speed: i64) -> Vector {
    Vector { x: pushed_x(velocity.x as int, speed as int) as i64, y: 0 }
}

/// The boundary registered under the handle `id`: the first, if several are.
pub open spec fn edge_from(edges: Seq<Edge>, id: u64, start: int) -> Option<Collider>
    decreases edges.len() - start,
{
    if start < 0 || start >= edges.len() {
        None
    } else if edges[start].id == id {
        Some(edges[start].collider)
    } else {
        edge_from(edges, id, start + 1)
    }
}

/// The index of the ball with the handle `id`: the first, if several have it.
pub open spec fn ball_from(balls: Seq<Ball>, id: u64, start: int) -> Option<int>
    decreases balls.len() - start,
{
    if start < 0 || start >= balls.len() {
        None
    } else if balls[start].id == id {
        Some(start)
    } else {
        ball_from(balls, id, start + 1)
    }
}

/// The boundary among the two bodies of an event, the first body asked first.
pub open spec fn edge_among(edges: Seq<Edge>, h1: u64, h2: u64) -> Option<Collider> {
    match edge_from(edges, h1, 0) {
        Some(collider) => Some(collider),
        None => edge_from(edges, h2, 0),
    }
}

/// The ball among the two bodies of an event, the first body asked first.
pub open spec fn ball_among(balls: Seq<Ball>, h1: u64, h2: u64) -> Option<int> {
    match ball_from(balls, h1, 0) {
        Some(i) => Some(i),
        None => ball_from(balls, h2, 0),
    }
}

/// The player whose push key is held: `d` is asked before `left`.
pub open spec fn push_side(keys: KeyInput) -> Option<Side> {
    if keys.d {
        Some(Side::Left)
    } else if keys.left {
        Some(Side::Right)
    } else {
        None
    }
}

/// Whether a contact that is over makes for a push: no boundary is part of it
/// and a push key is held.
pub open spec fn is_push(keys: KeyInput, edges: Seq<Edge>, h1: u64, h2: u64) -> bool {
    edge_among(edges, h1, h2).is_none() && push_side(keys).is_some()
}

/// The ball that a contact event pushes, by its index: the ball that is
/// part of a contact that is over and makes for a push.
pub open spec fn push_target(
    keys: KeyInput,
    balls: Seq<Ball>,
    edges: Seq<Edge>,
    event: ContactEvent,
) -> Option<int> {
    match event {
        ContactEvent::Started(_, _) => None,
        ContactEvent::Stopped(h1, h2) => if is_push(keys, edges, h1, h2) {
            ball_among(balls, h1, h2)
        } else {
            None
        },
    }
}

/// Keys and balls after one contact event. A contact that begins changes
/// nothing. One that is over has the keys read and then forgotten, whatever
/// comes of it, and pushes the ball that is part of it if the contact makes
/// for a push; every other velocity stays as the physics engine left it.
pub open spec fn after_contact(
    keys: KeyInput,
    balls: Seq<Ball>,
    edges: Seq<Edge>,
    event: ContactEvent,
) -> (KeyInput, Seq<Ball>) {
    (
        match event {
            ContactEvent::Started(_, _) => keys,
            ContactEvent::Stopped(_, _) => KeyInput::released(),
        },
        match push_target(keys, balls, edges, event) {
            Some(i) => balls.update(
                i,
                Ball { linvel: pushed(balls[i].linvel, BALL_SPEED), ..balls[i] },
            ),
            None => balls,
        },
    )
}

/// Keys and balls after the contact events of one tick, in their order.
pub open spec fn after_contacts(
    keys: KeyInput,
    balls: Seq<Ball>,
    edges: Seq<Edge>,
    events: Seq<ContactEvent>,
) -> (KeyInput, Seq<Ball>)
    decreases events.len(),
{
    if events.len() == 0 {
        (keys, balls)
    } else {
        let before = after_contacts(keys, balls, edges, events.drop_last());
        after_contact(before.0, before.1, edges, events.last())
    }
}

/// Whether one of the contact events reports a contact that is over, so
/// that the keys were read and forgotten.
pub open spec fn contact_over(events: Seq<ContactEvent>) -> bool
    decreases events.len(),
{
    if events.len() == 0 {
        false
    } else {
        contact_over(events.drop_last()) || events.last() is Stopped
    }
}

/// The ball that the contact events of one tick push, by its index: that of
/// the first event that pushes one.
pub open spec fn pushed_among(
    keys: KeyInput,
    balls: Seq<Ball>,
    edges: Seq<Edge>,
    events: Seq<ContactEvent>,
) -> Option<int>
    decreases events.len(),
{
    if events.len() == 0 {
        None
    } else {
        match pushed_among(keys, balls, edges, events.drop_last()) {
            Some(i) => Some(i),
            None => {
                let before = after_contacts(keys, balls, edges, events.drop_last());
                push_target(before.0, before.1, edges, events.last())
            },
        }
    }
}

/// The goal that an intersection event makes for: the event reports an
/// overlap, a boundary is among its two bodies and a ball is too.
pub open spec fn goal_of(edges: Seq<Edge>, balls: Seq<Ball>, event: IntersectionEvent) -> Option<
    GoalEvent,
> {
    match edge_among(edges, event.collider1, event.collider2) {
        Some(collider) if event.intersecting && ball_among(
            balls,
            event.collider1,
            event.collider2,
        ).is_some() => Some(GoalEvent(collider)),
        _ => None,
    }
}

/// The goals that the intersection events of one tick make for, in their
/// order: at most one for each event.
pub open spec fn goals_of(edges: Seq<Edge>, balls: Seq<Ball>, events: Seq<IntersectionEvent>) -> Seq<
    GoalEvent,
>
    decreases events.len(),
{
    if events.len() == 0 {
        Seq::empty()
    } else {
        let before = goals_of(edges, balls, events.drop_last());
        match goal_of(edges, balls, events.last()) {
            Some(goal) => before.push(goal),
            None => before,
        }
    }
}

impl Collider {
    /// Top and bottom are solid walls, left and right are sensor zones.
    pub open spec fn spec_kind(self) -> ColliderKind {
        match self {
            Collider::Top | Collider::Bottom => ColliderKind::Solid,
            Collider::Left | Collider::Right => ColliderKind::Sensor,
        }
    }

    /// The fixture of this boundary for `arena`. The walls span the arena's
    /// width on its top and bottom edges; the sensor zones span its height,
    /// centred `EDGE_OFFSET` outside its side edges.
    pub open spec fn fixture(self, arena: Arena) -> Fixture {
        Fixture {
            collider: self,
            body_type: BodyType::Static,
            kind: self.spec_kind(),
            position: match self {
                Collider::Top => Vector { x: 0, y: arena.half_height() as i64 },
                Collider::Bottom => Vector { x: 0, y: (-arena.half_height()) as i64 },
                Collider::Left => Vector { x: (-(arena.half_width() + EDGE_OFFSET)) as i64, y: 0 },
                Collider::Right => Vector { x: (arena.half_width() + EDGE_OFFSET) as i64, y: 0 },
            },
            extents: match self {
                Collider::Top | Collider::Bottom => Vector { x: arena.width as i64, y: WALL_THICK },
                Collider::Left | Collider::Right => Vector {
                    x: EDGE_THICK,
                    y: arena.height as i64,
                },
            },
        }
    }

    #[verifier::when_used_as_spec(spec_kind)]
    pub fn kind(self) -> (kind: ColliderKind)
        ensures
            kind == self.spec_kind(),
    {
        match self {
            Collider::Top | Collider::Bottom => ColliderKind::Solid,
            Collider::Left | Collider::Right => ColliderKind::Sensor,
        }
    }

    /// The four fixtures for `arena` as it is now: top, bottom, left, right.
    pub fn setup_colliders(arena: Arena) -> (fixtures: Vec<Fixture>)
        ensures
            fixtures@ == seq![
                Collider::Top.fixture(arena),
                Collider::Bottom.fixture(arena),
                Collider::Left.fixture(arena),
                Collider::Right.fixture(arena),
            ],
    {
        let (half_width, half_height) = arena.half_extents();
        let wall = Vector::new(arena.width as i64, WALL_THICK);
        let zone = Vector::new(EDGE_THICK, arena.height as i64);
        let mut fixtures: Vec<Fixture> = Vec::new();
        fixtures.push(
            Fixture {
                collider: Collider::Top,
                body_type: BodyType::Static,
                kind: ColliderKind::Solid,
                position: Vector::new(0, half_height),
                extents: wall,
            },
        );
        fixtures.push(
            Fixture {
                collider: Collider::Bottom,
                body_type: BodyType::Static,
                kind: ColliderKind::Solid,
                position: Vector::new(0, -half_height),
                extents: wall,
            },
        );
        fixtures.push(
            Fixture {
                collider: Collider::Left,
                body_type: BodyType::Static,
                kind: ColliderKind::Sensor,
                position: Vector::new(-(half_width + EDGE_OFFSET), 0),
                extents: zone,
            },
        );
        fixtures.push(
            Fixture {
                collider: Collider::Right,
                body_type: BodyType::Static,
                kind: ColliderKind::Sensor,
                position: Vector::new(half_width + EDGE_OFFSET, 0),
                extents: zone,
            },
        );
        fixtures
    }

    /// Pushes a ball: scales its horizontal velocity by `PUSH_FACTOR`, clamps
    /// it to two and a half times `speed` either way, and stops its vertical
    /// motion.
    pub fn power_push_ball(ball_vel: &mut Vector, speed: i64)
        requires
            0 <= speed,
            push_limit(speed as int) <= i64::MAX,
        ensures
            *final(ball_vel) == pushed(*old(ball_vel), speed),
            -push_limit(speed as int) <= final(ball_vel).x <= push_limit(speed as int),
            final(ball_vel).y == 0,
    {
        let limit: i128 = speed as i128 * 5 / 2;
        let scaled: i128 = ball_vel.x as i128 * PUSH_FACTOR as i128;
        let x: i128 = if scaled < -limit {
            -limit
        } else if scaled > limit {
            limit
        } else {
            scaled
        };
        ball_vel.x = x as i64;
        ball_vel.y = 0;
    }

    /// Looks up the boundary registered under the handle `id`.
    pub fn find_edge(edges: &Vec<Edge>, id: u64) -> (found: Option<Collider>)
        ensures
            found == edge_from(edges@, id, 0),
    {
        let mut i: usize = 0;
        while i < edges.len()
            invariant
                i <= edges@.len(),
                edge_from(edges@, id, 0) == edge_from(edges@, id, i as int),
            decreases edges@.len() - i,
        {
            if edges[i].id == id {
                return Some(edges[i].collider);
            }
            i = i + 1;
        }
        None
    }

    /// Looks up the ball with the handle `id` and returns its index.
    pub fn find_ball(balls: &Vec<Ball>, id: u64) -> (found: Option<usize>)
        ensures
            match found {
                Some(i) => ball_from(balls@, id, 0) == Some(i as int) && i < balls@.len(),
                None => ball_from(balls@, id, 0).is_none(),
            },
    {
        let mut i: usize = 0;
        while i < balls.len()
            invariant
                i <= balls@.len(),
                ball_from(balls@, id, 0) == ball_from(balls@, id, i as int),
            decreases balls@.len() - i,
        {
            if balls[i].id == id {
                return Some(i);
            }
            i = i + 1;
        }
        None
    }

    /// Reacts to one contact event and returns the index of the ball that it
    /// pushed, if it pushed one.
    pub fn contact_event(
        key_input: &mut KeyInput,
        event: ContactEvent,
        balls: &mut Vec<Ball>,
        edges: &Vec<Edge>,
    ) -> (pushed: Option<usize>)
        ensures
            (*final(key_input), final(balls)@) == after_contact(
                *old(key_input),
                old(balls)@,
                edges@,
                event,
            ),
            match pushed {
                Some(i) => push_target(*old(key_input), old(balls)@, edges@, event) == Some(
                    i as int,
                ) && i < old(balls)@.len(),
                None => push_target(*old(key_input), old(balls)@, edges@, event).is_none(),
            },
    {
        match event {
            ContactEvent::Started(_, _) => None,
            ContactEvent::Stopped(h1, h2) => {
                let paddle_push: Option<Side> = if key_input.d {
                    Some(Side::Left)
                } else if key_input.left {
                    Some(Side::Right)
                } else {
                    None
                };
                key_input.clear();
                let is_edge = match Collider::find_edge(edges, h1) {
                    Some(_) => true,
                    None => Collider::find_edge(edges, h2).is_some(),
                };
                let hit = match Collider::find_ball(balls, h1) {
                    Some(i) => Some(i),
                    None => Collider::find_ball(balls, h2),
                };
                match hit {
                    Some(i) => {
                        if !is_edge && paddle_push.is_some() {
                            let mut ball = balls[i];
                            Collider::power_push_ball(&mut ball.linvel, BALL_SPEED);
                            balls.set(i, ball);
                            Some(i)
                        } else {
                            None
                        }
                    },
                    None => None,
                }
            },
        }
    }

    /// Reacts to the contact events of one tick, in their order, and tells
    /// what they came to.
    pub fn contact_events(
        key_input: &mut KeyInput,
        contact_events: &Vec<ContactEvent>,
        balls: &mut Vec<Ball>,
        edges: &Vec<Edge>,
    ) -> (reaction: Reaction)
        ensures
            (*final(key_input), final(balls)@) == after_contacts(
                *old(key_input),
                old(balls)@,
                edges@,
                contact_events@,
            ),
            reaction.keys_read == contact_over(contact_events@),
            match reaction.pushed {
                Some(i) => pushed_among(*old(key_input), old(balls)@, edges@, contact_events@)
                    == Some(i as int) && i < old(balls)@.len(),
                None => pushed_among(
                    *old(key_input),
                    old(balls)@,
                    edges@,
                    contact_events@,
                ).is_none(),
            },
    {
        let mut reaction = Reaction { keys_read: false, pushed: None };
        let mut i: usize = 0;
        proof {
            assert(contact_events@.take(0) =~= Seq::empty());
        }
        while i < contact_events.len()
            invariant
                i <= contact_events@.len(),
                (*key_input, balls@) == after_contacts(
                    *old(key_input),
                    old(balls)@,
                    edges@,
                    contact_events@.take(i as int),
                ),
                reaction.keys_read == contact_over(contact_events@.take(i as int)),
                match reaction.pushed {
                    Some(k) => pushed_among(
                        *old(key_input),
                        old(balls)@,
                        edges@,
                        contact_events@.take(i as int),
                    ) == Some(k as int) && k < old(balls)@.len(),
                    None => pushed_among(
                        *old(key_input),
                        old(balls)@,
                        edges@,
                        contact_events@.take(i as int),
                    ).is_none(),
                },
            decreases contact_events@.len() - i,
        {
            proof {
                assert(contact_events@.take(i + 1).drop_last() =~= contact_events@.take(i as int));
                lemma_contacts_keep_count(
                    *old(key_input),
                    old(balls)@,
                    edges@,
                    contact_events@.take(i as int),
                );
            }
            let event = contact_events[i];
            let pushed = Collider::contact_event(key_input, event, balls, edges);
            match event {
                ContactEvent::Started(_, _) => {},
                ContactEvent::Stopped(_, _) => {
                    reaction.keys_read = true;
                },
            }
            if reaction.pushed.is_none() {
                reaction.pushed = pushed;
            }
            i = i + 1;
        }
        proof {
            assert(contact_events@.take(i as int) =~= contact_events@);
        }
        reaction
    }

    /// Turns the intersection events of one tick into goals, in their order.
    pub fn intersection_events(
        events: &Vec<IntersectionEvent>,
        edges: &Vec<Edge>,
        balls: &Vec<Ball>,
    ) -> (goals: Vec<GoalEvent>)
        ensures
            goals@ == goals_of(edges@, balls@, events@),
    {
        let mut goals: Vec<GoalEvent> = Vec::new();
        let mut i: usize = 0;
        proof {
            assert(events@.take(0) =~= Seq::empty());
        }
        while i < events.len()
            invariant
                i <= events@.len(),
                goals@ == goals_of(edges@, balls@, events@.take(i as int)),
            decreases events@.len() - i,
        {
            proof {
                assert(events@.take(i + 1).drop_last() =~= events@.take(i as int));
            }
            let event = events[i];
            if event.intersecting {
                let side = match Collider::find_edge(edges, event.collider1) {
                    Some(collider) => Some(collider),
                    None => Collider::find_edge(edges, event.collider2),
                };
                match side {
                    Some(collider) => {
                        let ball = match Collider::find_ball(balls, event.collider1) {
                            Some(k) => Some(k),
                            None => Collider::find_ball(balls, event.collider2),
                        };
                        if ball.is_some() {
                            goals.push(GoalEvent(collider));
                        }
                    },
                    None => {},
                }
            }
            i = i + 1;
        }
        proof {
            assert(events@.take(i as int) =~= events@);
        }
        goals
    }
}

/// Whatever the speed, as long as it is not negative, a push leaves a
/// horizontal speed of at most two and a half times that speed.
pub proof fn lemma_push_within_limit(x: int, speed: int)
    requires
        0 <= speed,
    ensures
        -push_limit(speed) <= pushed_x(x, speed) <= push_limit(speed),
        -5 * speed <= 2 * pushed_x(x, speed) <= 5 * speed,
        speed == BALL_SPEED ==> -1250 <= pushed_x(x, speed) <= 1250,
{
}

/// The contact events of a tick change velocities only: as many balls are
/// there after them as before.
pub proof fn lemma_contacts_keep_count(
    keys: KeyInput,
    balls: Seq<Ball>,
    edges: Seq<Edge>,
    events: Seq<ContactEvent>,
)
    ensures
        after_contacts(keys, balls, edges, events).1.len() == balls.len(),
    decreases events.len(),
{
    if events.len() > 0 {
        lemma_contacts_keep_count(keys, balls, edges, events.drop_last());
        let before = after_contacts(keys, balls, edges, events.drop_last());
        lemma_ball_from_is_index(before.1, events.last()->Stopped_0, 0);
        lemma_ball_from_is_index(before.1, events.last()->Stopped_1, 0);
    }
}

/// A contact that is over between a ball and a body that is no boundary,
/// while a push key is held, leaves that ball with a horizontal speed of at
/// most 1250 and no vertical motion, and every other ball as it was.
pub proof fn lemma_push_is_bounded(
    keys: KeyInput,
    balls: Seq<Ball>,
    edges: Seq<Edge>,
    h1: u64,
    h2: u64,
)
    requires
        push_side(keys).is_some(),
        edge_among(edges, h1, h2).is_none(),
        ball_among(balls, h1, h2).is_some(),
    ensures
        ({
            let i = ball_among(balls, h1, h2).unwrap();
            let after = after_contact(keys, balls, edges, ContactEvent::Stopped(h1, h2)).1;
            &&& 0 <= i < balls.len() == after.len()
            &&& -1250 <= after[i].linvel.x <= 1250
            &&& after[i].linvel.y == 0
            &&& after[i] == (Ball { linvel: after[i].linvel, ..balls[i] })
            &&& forall|k: int| 0 <= k < balls.len() && k != i ==> after[k] == balls[k]
        }),
{
    lemma_ball_from_is_index(balls, h1, 0);
    lemma_ball_from_is_index(balls, h2, 0);
}

/// A contact with a boundary, a contact without a push key held, and a
/// contact that only begins leave every velocity as it was.
pub proof fn lemma_contact_passes_through(
    keys: KeyInput,
    balls: Seq<Ball>,
    edges: Seq<Edge>,
    event: ContactEvent,
)
    requires
        match event {
            ContactEvent::Started(_, _) => true,
            ContactEvent::Stopped(h1, h2) => edge_among(edges, h1, h2).is_some() || push_side(
                keys,
            ).is_none(),
        },
    ensures
        after_contact(keys, balls, edges, event).1 == balls,
{
}

/// Once a contact that is over has been handled the keys are forgotten, so
/// the contacts that follow in the same tick push nothing.
pub proof fn lemma_one_push_per_press(
    keys: KeyInput,
    balls: Seq<Ball>,
    edges: Seq<Edge>,
    events: Seq<ContactEvent>,
)
    requires
        keys == KeyInput::released(),
    ensures
        after_contacts(keys, balls, edges, events) == (keys, balls),
    decreases events.len(),
{
    if events.len() > 0 {
        lemma_one_push_per_press(keys, balls, edges, events.drop_last());
    }
}

/// An overlap that begins between a ball and a side boundary makes for
/// exactly one goal, which carries that boundary; and in `Playing` that goal
/// asks for exactly one transition, to `NewRound`.
pub proof fn lemma_sensor_entry_is_one_goal(
    edges: Seq<Edge>,
    balls: Seq<Ball>,
    event: IntersectionEvent,
    side: Collider,
    state: RoundState,
)
    requires
        event.intersecting,
        side == Collider::Left || side == Collider::Right,
        ({
            ||| edge_from(edges, event.collider1, 0) == Some(side) && ball_from(
                balls,
                event.collider2,
                0,
            ).is_some()
            ||| ball_from(balls, event.collider1, 0).is_some() && edge_from(
                edges,
                event.collider1,
                0,
            ).is_none() && edge_from(edges, event.collider2, 0) == Some(side)
        }),
        state.current == GameState::Playing,
        state.scheduled.is_none(),
    ensures
        goals_of(edges, balls, seq![event]) == seq![GoalEvent(side)],
        Score::after_goals(state, goals_of(edges, balls, seq![event]).len()) == (RoundState {
            current: GameState::Playing,
            scheduled: Some(GameState::NewRound),
        }),
        Score::after_goals(state, goals_of(edges, balls, seq![event]).len()).after_advance() == (
        RoundState { current: GameState::NewRound, scheduled: None }),
{
    assert(seq![event].drop_last() =~= Seq::<IntersectionEvent>::empty());
    assert(goals_of(edges, balls, Seq::<IntersectionEvent>::empty()) =~= Seq::<GoalEvent>::empty());
}

/// An event that reports the end of an overlap, or whose bodies hold no
/// boundary or no ball, makes for no goal.
pub proof fn lemma_no_goal_without_entry(
    edges: Seq<Edge>,
    balls: Seq<Ball>,
    event: IntersectionEvent,
)
    requires
        !event.intersecting || edge_among(edges, event.collider1, event.collider2).is_none()
            || ball_among(balls, event.collider1, event.collider2).is_none(),
    ensures
        goal_of(edges, balls, event).is_none(),
{
}

/// What a lookup of a ball finds: the first ball from `start` on that has
/// the handle, and nothing only if none has.
pub proof fn lemma_ball_from_is_index(balls: Seq<Ball>, id: u64, start: int)
    requires
        0 <= start,
    ensures
        match ball_from(balls, id, start) {
            Some(i) => {
                &&& start <= i < balls.len()
                &&& balls[i].id == id
                &&& forall|k: int| start <= k < i ==> balls[k].id != id
            },
            None => forall|k: int| start <= k < balls.len() ==> balls[k].id != id,
        },
    decreases balls.len() - start,
{
    if start < balls.len() && balls[start].id != id {
        lemma_ball_from_is_index(balls, id, start + 1);
    }
}

/// What a lookup of a boundary finds: that of the first registered edge from
/// `start` on that has the handle, and nothing only if none has.
pub proof fn lemma_edge_from_is_first(edges: Seq<Edge>, id: u64, start: int)
    requires
        0 <= start,
    ensures
        match edge_from(edges, id, start) {
            Some(collider) => exists|i: int|
                {
                    &&& start <= i < edges.len()
                    &&& #[trigger] edges[i].id == id
                    &&& edges[i].collider == collider
                    &&& forall|k: int| start <= k < i ==> edges[k].id != id
                },
            None => forall|k: int| start <= k < edges.len() ==> edges[k].id != id,
        },
    decreases edges.len() - start,
{
    if start < edges.len() {
        if edges[start].id == id {
            assert(edges[start].id == id);
        } else {
            lemma_edge_from_is_first(edges, id, start + 1);
        }
    }
}

} // verus!
