//! Enemies: the patrol, the jump of the jumper, and gravity.

use vstd::prelude::*;
use crate::geometry::{Vector2, Vector2View};
use crate::ballistics::{
    lemma_reach_after_fall, lemma_reach_at_rest, lemma_reach_at_takeoff,
    lemma_reach_limits_height, lemma_reach_limits_speed, within_reach,
};
use crate::units::{
    ground_level, in_range, CANVAS_HEIGHT, CANVAS_WIDTH, ENEMY_GRAVITY, ENEMY_JUMP_STRENGTH,
    GROUND_BAND, JUMP_TRIGGER_DISTANCE, KNOCKBACK,
};

verus! {

/// How an enemy behaves.
#[derive(Clone, Copy, Debug, PartialEq, Eq, Hash)]
pub enum EnemyKind {
    /// Walks back and forth around its starting point.
    Patrol,
    /// Patrols, and jumps whenever it stands far enough from its starting point.
    Jumper,
}

/// An enemy as mathematical values.
pub struct EnemyView {
    pub position: Vector2View,
    pub velocity: Vector2View,
    pub width: int,
    pub height: int,
    pub health: int,
    pub max_health: int,
    pub color: Seq<char>,
    pub kind: EnemyKind,
    pub move_direction: int,
    pub move_range: int,
    pub start_x: int,
    pub on_ground: bool,
}

/// An enemy. `position` is the top left corner of its rectangle and `color`
/// the fill style of its body. It walks
/// `velocity.x` per tick in the direction `move_direction` (1 or -1) and
/// turns round when it is farther than `move_range` from `start_x`.
#[derive(Clone, Copy, Debug, PartialEq, Eq)]
pub struct Enemy {
    pub position: Vector2,
    pub velocity: Vector2,
    pub width: i64,
    pub height: i64,
    pub health: i32,
    pub max_health: i32,
    pub color: &'static str,
    pub kind: EnemyKind,
    pub move_direction: i32,
    pub move_range: i64,
    pub start_x: i64,
    pub on_ground: bool,
}

impl View for Enemy {
    type V = EnemyView;

    open spec fn view(&self) -> EnemyView {
        EnemyView {
            position: self.position@,
            velocity: self.velocity@,
            width: self.width as int,
            height: self.height as int,
            health: self.health as int,
            max_health: self.max_health as int,
            color: self.color@,
            kind: self.kind,
            move_direction: self.move_direction as int,
            move_range: self.move_range as int,
            start_x: self.start_x as int,
            on_ground: self.on_ground,
        }
    }
}

/// The views of a sequence of enemies, in order.
pub open spec fn enemy_views(enemies: Seq<Enemy>) -> Seq<EnemyView> {
    Seq::new(enemies.len(), |i: int| enemies[i]@)
}

/// The distance between two coordinates.
pub open spec fn distance(a: int, b: int) -> int {
    if a >= b {
        a - b
    } else {
        b - a
    }
}

impl EnemyView {
    /// The y coordinate of the lower edge.
    pub open spec fn bottom(self) -> int {
        self.position.y + self.height
    }

    /// How far the enemy is from the middle of its patrol, to either side.
    pub open spec fn displacement(self) -> int {
        distance(self.position.x, self.start_x)
    }

    /// The direction is 1 or -1 and every number of the enemy is small
    /// enough for the arithmetic of a tick.
    pub open spec fn bounded(self) -> bool {
        &&& self.move_direction == 1 || self.move_direction == -1
        &&& in_range(self.position.x)
        &&& in_range(self.position.y)
        &&& in_range(self.velocity.x)
        &&& in_range(self.velocity.y)
        &&& in_range(self.width)
        &&& in_range(self.height)
        &&& in_range(self.move_range)
        &&& in_range(self.start_x)
    }

    /// What the enemy walks in one tick, signed: positive to the right.
    pub open spec fn stride(self) -> int {
        self.velocity.x * self.move_direction
    }

    /// What the enemy walks in one tick, unsigned.
    pub open spec fn speed(self) -> int {
        distance(self.velocity.x, 0)
    }

    /// Whether the enemy is where its patrol can take it: within
    /// `move_range` of `start_x`, or beyond it by less than one stride and
    /// walking back.
    pub open spec fn on_patrol(self) -> bool {
        let offset = self.position.x - self.start_x;
        ||| -self.move_range <= offset <= self.move_range
        ||| offset > self.move_range && self.stride() < 0 && offset + self.stride()
            <= self.move_range
        ||| offset < -self.move_range && self.stride() > 0 && offset + self.stride()
            >= -self.move_range
    }

    /// What holds of an enemy of a running game, before and after every tick.
    ///
    /// Its direction is 1 or -1, it fits on the canvas, its health is between
    /// zero and its positive maximum, its patrol starts on the canvas with a
    /// range and a speed of at most the canvas width, and it is on patrol. It
    /// is no lower than the ground and grounded exactly when it stands on
    /// the ground, then at rest vertically. It rises no faster than a jump
    /// and is no faster than a jump from the top of the canvas and the fall
    /// since can make it.
    pub open spec fn valid(self) -> bool {
        &&& self.move_direction == 1 || self.move_direction == -1
        &&& 0 < self.width <= CANVAS_WIDTH
        &&& 0 < self.height <= CANVAS_HEIGHT
        &&& 0 <= self.health <= self.max_health
        &&& 0 < self.max_health <= i32::MAX
        &&& 0 <= self.move_range <= CANVAS_WIDTH
        &&& -CANVAS_WIDTH <= self.velocity.x <= CANVAS_WIDTH
        &&& 0 <= self.start_x <= CANVAS_WIDTH
        &&& self.on_patrol()
        &&& self.bottom() <= ground_level(CANVAS_HEIGHT as int)
        &&& self.on_ground <==> self.bottom() == ground_level(CANVAS_HEIGHT as int)
        &&& self.on_ground ==> self.velocity.y == 0
        &&& ENEMY_JUMP_STRENGTH <= self.velocity.y
        &&& within_reach(
            self.velocity.y,
            self.bottom(),
            ENEMY_JUMP_STRENGTH as int,
            ENEMY_GRAVITY as int,
        )
    }

    /// Whether the whole patrol of the enemy, overshoot included, keeps it
    /// so far from both walls that a player of the given width, pushed away
    /// from the enemy by `KNOCKBACK`, still stands on the canvas.
    pub open spec fn clear_of_walls(self, player_width: int) -> bool {
        &&& self.start_x - self.move_range - self.speed() >= player_width + KNOCKBACK
        &&& self.start_x + self.move_range + self.speed() + self.width <= CANVAS_WIDTH
            - player_width - KNOCKBACK
    }
}

/// The patrolling enemy at the start of a game.
pub open spec fn initial_patroller() -> EnemyView {
    EnemyView {
        position: Vector2View { x: 40_000, y: 40_000 },
        velocity: Vector2View { x: 200, y: 0 },
        width: 3_200,
        height: 3_200,
        health: 30,
        max_health: 30,
        color: "#ff6b6b"@,
        kind: EnemyKind::Patrol,
        move_direction: 1,
        move_range: 15_000,
        start_x: 40_000,
        on_ground: false,
    }
}

/// The jumping enemy at the start of a game.
pub open spec fn initial_jumper() -> EnemyView {
    EnemyView {
        position: Vector2View { x: 60_000, y: 45_000 },
        velocity: Vector2View { x: 150, y: 0 },
        width: 2_800,
        height: 2_800,
        health: 20,
        max_health: 20,
        color: "#ffd93d"@,
        kind: EnemyKind::Jumper,
        move_direction: -1,
        move_range: 10_000,
        start_x: 60_000,
        on_ground: false,
    }
}

/// The enemy after the horizontal part of a tick: it has walked one stride,
/// and turned round if that took it farther than `move_range` from `start_x`.
/// It turns after the stride, so it may overshoot the range by up to a stride.
pub open spec fn patrol(e: EnemyView) -> EnemyView {
    let x = e.position.x + e.stride();
    let turns = distance(x, e.start_x) > e.move_range;
    EnemyView {
        position: Vector2View { x, y: e.position.y },
        move_direction: if turns { -e.move_direction } else { e.move_direction },
        ..e
    }
}

/// Whether the enemy, after its stride, takes off: it is a jumper, it is on
/// the ground, and it is farther than `JUMP_TRIGGER_DISTANCE` from `start_x`.
pub open spec fn takes_off(e: EnemyView) -> bool {
    e.kind == EnemyKind::Jumper && e.on_ground && e.displacement() > JUMP_TRIGGER_DISTANCE
}

/// The enemy after the vertical part of a tick.
///
/// A jumper may take off with `ENEMY_JUMP_STRENGTH`. An enemy that is then
/// in the air gains `ENEMY_GRAVITY` of downward speed, with no limit. The
/// velocity is added to the position. An enemy whose lower edge has reached
/// the ground is set down on it, at rest vertically and grounded; any other
/// is not grounded.
pub open spec fn fall(e: EnemyView, canvas_height: int) -> EnemyView {
    let jumps = takes_off(e);
    let launch: int = if jumps { ENEMY_JUMP_STRENGTH as int } else { e.velocity.y };
    let vy = if e.on_ground && !jumps { launch } else { launch + ENEMY_GRAVITY };
    let y = e.position.y + vy;
    if y + e.height >= ground_level(canvas_height) {
        EnemyView {
            position: Vector2View { x: e.position.x, y: ground_level(canvas_height) - e.height },
            velocity: Vector2View { x: e.velocity.x, y: 0 },
            on_ground: true,
            ..e
        }
    } else {
        EnemyView {
            position: Vector2View { x: e.position.x, y },
            velocity: Vector2View { x: e.velocity.x, y: vy },
            on_ground: false,
            ..e
        }
    }
}

/// The enemy after one tick: the patrol, then the vertical motion.
pub open spec fn step_enemy(e: EnemyView, canvas_height: int) -> EnemyView {
    fall(patrol(e), canvas_height)
}

/// Every enemy of the sequence after one tick.
pub open spec fn step_enemies(enemies: Seq<EnemyView>, canvas_height: int) -> Seq<EnemyView> {
    Seq::new(enemies.len(), |i: int| step_enemy(enemies[i], canvas_height))
}

/// The stride of an enemy is its speed, to the right or to the left.
pub proof fn lemma_stride(e: EnemyView)
    by (nonlinear_arith)
    requires
        e.move_direction == 1 || e.move_direction == -1,
    ensures
        e.stride() == (if e.move_direction == 1 {
            e.velocity.x
        } else {
            -e.velocity.x
        }),
        -e.speed() <= e.stride() <= e.speed(),
{
}

/// An enemy on patrol is within its range and one stride of its starting point.
pub proof fn lemma_patrol_band(e: EnemyView)
    requires
        e.move_direction == 1 || e.move_direction == -1,
        e.move_range >= 0,
        e.on_patrol(),
    ensures
        e.start_x - e.move_range - e.speed() <= e.position.x <= e.start_x + e.move_range
            + e.speed(),
{
    lemma_stride(e);
}

/// An enemy within reach of its jump, no lower than the ground of the
/// canvas, is less than 105 pixels above the canvas and falls no faster than
/// 25 pixels per tick.
pub proof fn lemma_enemy_reach_limits(vy: int, bottom: int)
    requires
        within_reach(vy, bottom, ENEMY_JUMP_STRENGTH as int, ENEMY_GRAVITY as int),
        bottom <= ground_level(CANVAS_HEIGHT as int),
    ensures
        bottom >= -10_417,
        -2_500 <= vy <= 2_500,
{
    assert(96 * bottom >= -1_000_000) by (nonlinear_arith)
        requires
            within_reach(vy, bottom, ENEMY_JUMP_STRENGTH as int, ENEMY_GRAVITY as int),
    {
        lemma_reach_limits_height(vy, bottom, ENEMY_JUMP_STRENGTH as int, ENEMY_GRAVITY as int);
    }
    assert(-2_500 <= vy <= 2_500) by (nonlinear_arith)
        requires
            within_reach(vy, bottom, ENEMY_JUMP_STRENGTH as int, ENEMY_GRAVITY as int),
            bottom <= 54_000,
    {
        lemma_reach_limits_speed(
            vy,
            bottom,
            ENEMY_JUMP_STRENGTH as int,
            ENEMY_GRAVITY as int,
            54_000,
            2_500,
        );
    }
}

/// A valid enemy is bounded.
pub proof fn lemma_valid_enemy_is_bounded(e: EnemyView)
    requires
        e.valid(),
    ensures
        e.bounded(),
{
    lemma_patrol_band(e);
    lemma_enemy_reach_limits(e.velocity.y, e.bottom());
}

/// The horizontal part of a tick keeps an enemy on patrol.
pub proof fn lemma_patrol_keeps_on_patrol(e: EnemyView)
    requires
        e.move_direction == 1 || e.move_direction == -1,
        e.move_range >= 0,
        e.on_patrol(),
    ensures
        patrol(e).on_patrol(),
{
    lemma_stride(e);
    lemma_stride(patrol(e));
}

/// One tick keeps an enemy valid, and as clear of the walls as it was.
pub proof fn lemma_step_enemy_valid(e: EnemyView)
    requires
        e.valid(),
    ensures
        step_enemy(e, CANVAS_HEIGHT as int).valid(),
        forall|w: int| e.clear_of_walls(w) ==> step_enemy(e, CANVAS_HEIGHT as int).clear_of_walls(w),
{
    lemma_patrol_keeps_on_patrol(e);
    let walked = patrol(e);
    let next = fall(walked, CANVAS_HEIGHT as int);
    assert(next.on_patrol() == walked.on_patrol());
    let ground = ground_level(CANVAS_HEIGHT as int);
    if next.on_ground {
        lemma_reach_at_rest(ground, ENEMY_JUMP_STRENGTH as int, ENEMY_GRAVITY as int);
    } else if takes_off(walked) {
        lemma_reach_at_takeoff(ground, ENEMY_JUMP_STRENGTH as int, ENEMY_GRAVITY as int);
        lemma_reach_after_fall(
            ENEMY_JUMP_STRENGTH as int,
            ground,
            ENEMY_JUMP_STRENGTH as int,
            ENEMY_GRAVITY as int,
        );
    } else {
        lemma_reach_after_fall(
            e.velocity.y,
            e.bottom(),
            ENEMY_JUMP_STRENGTH as int,
            ENEMY_GRAVITY as int,
        );
    }
}

/// The enemy after the given number of ticks on a canvas of the given height.
pub open spec fn step_enemy_for(e: EnemyView, canvas_height: int, ticks: nat) -> EnemyView
    decreases ticks,
{
    if ticks == 0 {
        e
    } else {
        step_enemy(step_enemy_for(e, canvas_height, (ticks - 1) as nat), canvas_height)
    }
}

/// A product of a count and a stride grows by one stride with the count, and
/// is as long as the count times the speed.
proof fn lemma_strides(count: int, stride: int, speed: int)
    by (nonlinear_arith)
    requires
        count >= 0,
        speed >= 0,
        stride == speed || stride == -speed,
    ensures
        (count + 1) * stride == count * stride + stride,
        (count + 1) * speed == count * speed + speed,
        distance(count * stride, 0) == count * speed,
        0 * stride == 0,
{
}

/// An enemy that starts in the middle of its patrol walks straight on, one
/// stride per tick, for as long as that keeps it within its range.
pub proof fn lemma_patrol_walks_straight(e: EnemyView, canvas_height: int, ticks: nat)
    requires
        e.move_direction == 1 || e.move_direction == -1,
        e.position.x == e.start_x,
        ticks * e.speed() <= e.move_range,
    ensures
        step_enemy_for(e, canvas_height, ticks).position.x == e.start_x + ticks * e.stride(),
        step_enemy_for(e, canvas_height, ticks).move_direction == e.move_direction,
        step_enemy_for(e, canvas_height, ticks).velocity.x == e.velocity.x,
        step_enemy_for(e, canvas_height, ticks).move_range == e.move_range,
        step_enemy_for(e, canvas_height, ticks).start_x == e.start_x,
    decreases ticks,
{
    lemma_stride(e);
    if ticks == 0 {
        lemma_strides(0, e.stride(), e.speed());
    } else {
        let before = (ticks - 1) as nat;
        lemma_strides(before as int, e.stride(), e.speed());
        lemma_patrol_walks_straight(e, canvas_height, before);
        let walked = step_enemy_for(e, canvas_height, before);
        lemma_strides(ticks as int, e.stride(), e.speed());
        assert(walked.stride() == e.stride());
        assert(patrol(walked).position.x - e.start_x == ticks * e.stride());
    }
}

/// An enemy that starts in the middle of its patrol and moves turns round in
/// the first tick that takes it farther than its range from its starting
/// point, and in no tick before: after that tick it stands `ticks` strides
/// out and faces the other way.
pub proof fn lemma_patrol_turns_beyond_range(e: EnemyView, canvas_height: int, ticks: nat)
    requires
        e.move_direction == 1 || e.move_direction == -1,
        e.position.x == e.start_x,
        ticks >= 1,
        (ticks - 1) * e.speed() <= e.move_range < ticks * e.speed(),
    ensures
        forall|earlier: nat|
            earlier < ticks ==> (#[trigger] step_enemy_for(
                e,
                canvas_height,
                earlier,
            )).move_direction == e.move_direction,
        step_enemy_for(e, canvas_height, ticks).position.x == e.start_x + ticks * e.stride(),
        step_enemy_for(e, canvas_height, ticks).displacement() > e.move_range,
        step_enemy_for(e, canvas_height, ticks).move_direction == -e.move_direction,
{
    lemma_stride(e);
    let before = (ticks - 1) as nat;
    assert forall|earlier: nat| earlier < ticks implies (#[trigger] step_enemy_for(
        e,
        canvas_height,
        earlier,
    )).move_direction == e.move_direction by {
        assert(earlier * e.speed() <= before * e.speed()) by (nonlinear_arith)
            requires
                earlier <= before,
                e.speed() >= 0,
        ;
        lemma_patrol_walks_straight(e, canvas_height, earlier);
    }
    lemma_patrol_walks_straight(e, canvas_height, before);
    let walked = step_enemy_for(e, canvas_height, before);
    lemma_strides(before as int, e.stride(), e.speed());
    lemma_strides(ticks as int, e.stride(), e.speed());
    assert(walked.stride() == e.stride());
    assert(patrol(walked).position.x - e.start_x == ticks * e.stride());
}

/// The enemies at the start of a game are valid and clear of the walls for
/// a player 32 pixels wide.
pub proof fn lemma_initial_enemies_valid()
    ensures
        initial_patroller().valid(),
        initial_patroller().clear_of_walls(3_200),
        initial_jumper().valid(),
        initial_jumper().clear_of_walls(3_200),
{
    lemma_stride(initial_patroller());
    lemma_stride(initial_jumper());
    lemma_reach_at_rest(
        initial_patroller().bottom(),
        ENEMY_JUMP_STRENGTH as int,
        ENEMY_GRAVITY as int,
    );
    lemma_reach_at_rest(
        initial_jumper().bottom(),
        ENEMY_JUMP_STRENGTH as int,
        ENEMY_GRAVITY as int,
    );
}

impl Enemy {
    /// The patrolling enemy at the start of a game.
    pub fn patroller() -> (e: Enemy)
        ensures
            e@ == initial_patroller(),
    {
        Enemy {
            position: Vector2 { x: 40_000, y: 40_000 },
            velocity: Vector2 { x: 200, y: 0 },
            width: 3_200,
            height: 3_200,
            health: 30,
            max_health: 30,
            color: "#ff6b6b",
            kind: EnemyKind::Patrol,
            move_direction: 1,
            move_range: 15_000,
            start_x: 40_000,
            on_ground: false,
        }
    }

    /// The jumping enemy at the start of a game.
    pub fn jumper() -> (e: Enemy)
        ensures
            e@ == initial_jumper(),
    {
        Enemy {
            position: Vector2 { x: 60_000, y: 45_000 },
            velocity: Vector2 { x: 150, y: 0 },
            width: 2_800,
            height: 2_800,
            health: 20,
            max_health: 20,
            color: "#ffd93d",
            kind: EnemyKind::Jumper,
            move_direction: -1,
            move_range: 10_000,
            start_x: 60_000,
            on_ground: false,
        }
    }

    /// Advances the enemy by one tick on a canvas of the given height.
    pub fn update(&mut self, canvas_height: i64)
        requires
            old(self)@.bounded(),
            in_range(canvas_height as int),
        ensures
            final(self)@ == step_enemy(old(self)@, canvas_height as int),
    {
        let stride: i64 = if self.move_direction == 1 {
            self.velocity.x
        } else {
            -self.velocity.x
        };
        assert(stride == self.velocity.x * self.move_direction) by (nonlinear_arith)
            requires
                self.move_direction == 1 || self.move_direction == -1,
                stride == (if self.move_direction == 1 {
                    self.velocity.x as int
                } else {
                    -self.velocity.x
                }),
        ;
        self.position.x = self.position.x + stride;
        let offset: i64 = if self.position.x >= self.start_x {
            self.position.x - self.start_x
        } else {
            self.start_x - self.position.x
        };
        if offset > self.move_range {
            self.move_direction = -self.move_direction;
        }
        let is_jumper: bool = match self.kind {
            EnemyKind::Jumper => true,
            EnemyKind::Patrol => false,
        };
        if is_jumper && self.on_ground && offset > JUMP_TRIGGER_DISTANCE {
            self.velocity.y = ENEMY_JUMP_STRENGTH;
            self.on_ground = false;
        }
        if !self.on_ground {
            self.velocity.y = self.velocity.y + ENEMY_GRAVITY;
        }
        self.position.y = self.position.y + self.velocity.y;

        let ground: i64 = canvas_height - GROUND_BAND;
        if self.position.y + self.height >= ground {
            self.position.y = ground - self.height;
            self.velocity.y = 0;
            self.on_ground = true;
        } else {
            self.on_ground = false;
        }
    }
}

} // verus!
