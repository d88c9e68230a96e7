//! The player: input resolution, integration and landing on platforms.

use vstd::prelude::*;
use crate::geometry::{Platform, PlatformView, Vector2, Vector2View};
use crate::input::KeyState;
use crate::ballistics::{
    lemma_reach_after_capped_fall, lemma_reach_after_fall, lemma_reach_at_rest,
    lemma_reach_at_takeoff, lemma_reach_limits_height, within_reach,
};
use crate::units::{
    ground_level, in_range, CANVAS_HEIGHT, CANVAS_WIDTH, GRAVITY, GROUND_BAND, JUMP_STRENGTH,
    MAX_FALL_SPEED, MOVE_SPEED, PLATFORM_TOLERANCE,
};

verus! {

/// The player as mathematical values.
pub struct PlayerView {
    pub position: Vector2View,
    pub velocity: Vector2View,
    pub width: int,
    pub height: int,
    pub on_ground: bool,
    pub facing_right: bool,
    pub color: Seq<char>,
}

/// The player character. `position` is the top left corner of its rectangle;
/// y grows downward. `color` is the fill style of its body.
#[derive(Clone, Copy, Debug, PartialEq, Eq)]
pub struct Player {
    pub position: Vector2,
    pub velocity: Vector2,
    pub width: i64,
    pub height: i64,
    pub on_ground: bool,
    pub facing_right: bool,
    pub color: &'static str,
}

impl View for Player {
    type V = PlayerView;

    open spec fn view(&self) -> PlayerView {
        PlayerView {
            position: self.position@,
            velocity: self.velocity@,
            width: self.width as int,
            height: self.height as int,
            on_ground: self.on_ground,
            facing_right: self.facing_right,
            color: self.color@,
        }
    }
}

impl PlayerView {
    /// The y coordinate of the lower edge.
    pub open spec fn bottom(self) -> int {
        self.position.y + self.height
    }

    /// Every number of the player is small enough for the arithmetic of a tick.
    pub open spec fn bounded(self) -> bool {
        &&& in_range(self.position.x)
        &&& in_range(self.position.y)
        &&& in_range(self.velocity.x)
        &&& in_range(self.velocity.y)
        &&& in_range(self.width)
        &&& in_range(self.height)
    }

    /// What holds of the player of a running game, before and after every
    /// part of a tick.
    ///
    /// The player fits on the canvas, stands between its left and right
    /// edges and no lower than the ground, walks no faster than `MOVE_SPEED`,
    /// rises no faster than a jump and falls no faster than `MAX_FALL_SPEED`,
    /// and is no faster than a jump from the top of the canvas and the fall
    /// since can make it. A grounded player is at rest vertically, on the
    /// canvas.
    pub open spec fn valid(self) -> bool {
        &&& 0 < self.width <= CANVAS_WIDTH
        &&& 0 < self.height <= CANVAS_HEIGHT
        &&& 0 <= self.position.x <= CANVAS_WIDTH - self.width
        &&& self.bottom() <= ground_level(CANVAS_HEIGHT as int)
        &&& -MOVE_SPEED <= self.velocity.x <= MOVE_SPEED
        &&& JUMP_STRENGTH <= self.velocity.y <= MAX_FALL_SPEED
        &&& within_reach(self.velocity.y, self.bottom(), JUMP_STRENGTH as int, GRAVITY as int)
        &&& self.on_ground ==> self.velocity.y == 0 && self.bottom() >= 0
    }
}

/// Whether the top of the platform lies on the canvas, no lower than the ground.
pub open spec fn above_ground(platform: PlatformView) -> bool {
    0 <= platform.y <= ground_level(CANVAS_HEIGHT as int)
}

/// The player at the start of a game: at rest in the air at (100, 300),
/// 32 by 48 pixels, looking right.
pub open spec fn initial_player() -> PlayerView {
    PlayerView {
        position: Vector2View { x: 10_000, y: 30_000 },
        velocity: Vector2View { x: 0, y: 0 },
        width: 3_200,
        height: 4_800,
        on_ground: false,
        facing_right: true,
        color: "#00ffff"@,
    }
}

/// The player after the held keys are read.
///
/// The horizontal velocity is `MOVE_SPEED` to the right if the right key is
/// held, else `MOVE_SPEED` to the left if the left key is held, else zero, and
/// the player looks the way it walks. A grounded player with the jump key
/// held takes off with `JUMP_STRENGTH` and is no longer on the ground.
pub open spec fn resolve_input(p: PlayerView, keys: KeyState) -> PlayerView {
    let vx: int = if keys.right {
        MOVE_SPEED as int
    } else if keys.left {
        -MOVE_SPEED
    } else {
        0
    };
    let facing_right = if keys.right {
        true
    } else if keys.left {
        false
    } else {
        p.facing_right
    };
    let jumps = keys.jump && p.on_ground;
    PlayerView {
        velocity: Vector2View { x: vx, y: if jumps { JUMP_STRENGTH as int } else { p.velocity.y } },
        facing_right,
        on_ground: p.on_ground && !jumps,
        ..p
    }
}

/// `x` moved into `[0, canvas_width - width]`; zero if that interval is empty.
pub open spec fn clamp_to_canvas(x: int, width: int, canvas_width: int) -> int {
    let high = if x < canvas_width - width { x } else { canvas_width - width };
    if high > 0 { high } else { 0 }
}

/// The vertical velocity of the player after gravity acted for one tick:
/// unchanged on the ground, else `GRAVITY` faster downward but never faster
/// than `MAX_FALL_SPEED`.
pub open spec fn fall_speed(p: PlayerView) -> int {
    if p.on_ground {
        p.velocity.y
    } else if p.velocity.y + GRAVITY < MAX_FALL_SPEED {
        p.velocity.y + GRAVITY
    } else {
        MAX_FALL_SPEED as int
    }
}

/// The player after one tick of motion, before platforms are looked at.
///
/// Gravity acts, the velocity is added to the position, the position is kept
/// on the canvas horizontally, and a player whose lower edge has reached the
/// ground is set down on it, at rest vertically and grounded.
pub open spec fn integrate(p: PlayerView, canvas_width: int, canvas_height: int) -> PlayerView {
    let vy = fall_speed(p);
    let x = clamp_to_canvas(p.position.x + p.velocity.x, p.width, canvas_width);
    let y = p.position.y + vy;
    if y + p.height >= ground_level(canvas_height) {
        PlayerView {
            position: Vector2View { x, y: ground_level(canvas_height) - p.height },
            velocity: Vector2View { x: p.velocity.x, y: 0 },
            on_ground: true,
            ..p
        }
    } else {
        PlayerView {
            position: Vector2View { x, y },
            velocity: Vector2View { x: p.velocity.x, y: vy },
            ..p
        }
    }
}

/// Whether the platform catches the player: their horizontal extents overlap,
/// the player's lower edge is strictly below the top of the platform and less
/// than `PLATFORM_TOLERANCE` below its underside, and the player is not
/// moving upward.
pub open spec fn lands_on(p: PlayerView, platform: PlatformView) -> bool {
    &&& p.position.x < platform.x + platform.width
    &&& p.position.x + p.width > platform.x
    &&& p.bottom() > platform.y
    &&& p.bottom() < platform.y + platform.height + PLATFORM_TOLERANCE
    &&& p.velocity.y >= 0
}

/// The player after one platform was looked at: standing on it, at rest
/// vertically and grounded, if the platform catches it, else unchanged.
pub open spec fn land_on(p: PlayerView, platform: PlatformView) -> PlayerView {
    if lands_on(p, platform) {
        PlayerView {
            position: Vector2View { x: p.position.x, y: platform.y - p.height },
            velocity: Vector2View { x: p.velocity.x, y: 0 },
            on_ground: true,
            ..p
        }
    } else {
        p
    }
}

/// The player after each platform was looked at in turn. Each platform sees
/// the player as the one before left it, so the last platform that catches
/// the player keeps it.
pub open spec fn land_on_all(p: PlayerView, platforms: Seq<PlatformView>) -> PlayerView
    decreases platforms.len(),
{
    if platforms.len() == 0 {
        p
    } else {
        land_on(land_on_all(p, platforms.drop_last()), platforms.last())
    }
}

/// A player within reach of its jump is less than 141 pixels above the canvas.
pub proof fn lemma_player_reach_limits(vy: int, bottom: int)
    requires
        within_reach(vy, bottom, JUMP_STRENGTH as int, GRAVITY as int),
    ensures
        bottom >= -14_063,
{
    assert(160 * bottom >= -2_250_000) by (nonlinear_arith)
        requires
            within_reach(vy, bottom, JUMP_STRENGTH as int, GRAVITY as int),
    {
        lemma_reach_limits_height(vy, bottom, JUMP_STRENGTH as int, GRAVITY as int);
    }
}

/// A valid player is bounded.
pub proof fn lemma_valid_player_is_bounded(p: PlayerView)
    requires
        p.valid(),
    ensures
        p.bounded(),
{
    lemma_player_reach_limits(p.velocity.y, p.bottom());
}

/// Reading the keys keeps the player valid.
pub proof fn lemma_resolve_input_valid(p: PlayerView, keys: KeyState)
    requires
        p.valid(),
    ensures
        resolve_input(p, keys).valid(),
{
    if keys.jump && p.on_ground {
        lemma_reach_at_takeoff(p.bottom(), JUMP_STRENGTH as int, GRAVITY as int);
    }
}

/// A tick of motion on the canvas keeps the player valid.
pub proof fn lemma_integrate_valid(p: PlayerView)
    requires
        p.valid(),
    ensures
        integrate(p, CANVAS_WIDTH as int, CANVAS_HEIGHT as int).valid(),
{
    let next = integrate(p, CANVAS_WIDTH as int, CANVAS_HEIGHT as int);
    let vy = fall_speed(p);
    if p.bottom() + vy >= ground_level(CANVAS_HEIGHT as int) {
        lemma_reach_at_rest(next.bottom(), JUMP_STRENGTH as int, GRAVITY as int);
    } else if p.on_ground {
    } else if p.velocity.y + GRAVITY < MAX_FALL_SPEED {
        lemma_reach_after_fall(p.velocity.y, p.bottom(), JUMP_STRENGTH as int, GRAVITY as int);
    } else {
        lemma_reach_after_capped_fall(
            p.velocity.y,
            p.bottom(),
            JUMP_STRENGTH as int,
            GRAVITY as int,
            MAX_FALL_SPEED as int,
        );
    }
}

/// Looking at a platform above the ground keeps the player valid.
pub proof fn lemma_land_on_valid(p: PlayerView, platform: PlatformView)
    requires
        p.valid(),
        above_ground(platform),
    ensures
        land_on(p, platform).valid(),
{
    if lands_on(p, platform) {
        lemma_reach_at_rest(platform.y, JUMP_STRENGTH as int, GRAVITY as int);
    }
}

/// Looking at platforms above the ground, one after another, keeps the
/// player valid.
pub proof fn lemma_land_on_all_valid(p: PlayerView, platforms: Seq<PlatformView>)
    requires
        p.valid(),
        forall|i: int| 0 <= i < platforms.len() ==> above_ground(#[trigger] platforms[i]),
    ensures
        land_on_all(p, platforms).valid(),
        land_on_all(p, platforms).width == p.width,
    decreases platforms.len(),
{
    if platforms.len() > 0 {
        lemma_land_on_all_valid(p, platforms.drop_last());
        lemma_land_on_valid(land_on_all(p, platforms.drop_last()), platforms.last());
    }
}

/// Platforms that do not catch the player leave it as it is.
pub proof fn lemma_no_platform_no_landing(p: PlayerView, platforms: Seq<PlatformView>)
    requires
        forall|i: int| 0 <= i < platforms.len() ==> !lands_on(p, #[trigger] platforms[i]),
    ensures
        land_on_all(p, platforms) == p,
    decreases platforms.len(),
{
    if platforms.len() > 0 {
        lemma_no_platform_no_landing(p, platforms.drop_last());
    }
}

/// With the right key held the player walks right at `MOVE_SPEED` and looks
/// right, whether the left key is held or not.
pub proof fn lemma_right_key_walks_right(p: PlayerView, keys: KeyState)
    requires
        keys.right,
    ensures
        resolve_input(p, keys).velocity.x == MOVE_SPEED,
        resolve_input(p, keys).facing_right,
{
}

/// With the left key alone held the player walks left at `MOVE_SPEED` and
/// looks left.
pub proof fn lemma_left_key_walks_left(p: PlayerView, keys: KeyState)
    requires
        keys.left,
        !keys.right,
    ensures
        resolve_input(p, keys).velocity.x == -MOVE_SPEED,
        !resolve_input(p, keys).facing_right,
{
}

/// With the jump key held a grounded player takes off: its vertical
/// velocity is `JUMP_STRENGTH` and it is no longer on the ground. A player
/// in the air keeps its vertical velocity.
pub proof fn lemma_jump_key_takes_off(p: PlayerView, keys: KeyState)
    requires
        keys.jump,
    ensures
        p.on_ground ==> resolve_input(p, keys).velocity.y == JUMP_STRENGTH,
        !p.on_ground ==> resolve_input(p, keys).velocity.y == p.velocity.y,
        !resolve_input(p, keys).on_ground,
        resolve_input(p, keys).position == p.position,
{
}

/// Motion and platforms leave the horizontal velocity and the facing of the
/// player as they are.
pub proof fn lemma_motion_keeps_walk(
    p: PlayerView,
    canvas_width: int,
    canvas_height: int,
    platforms: Seq<PlatformView>,
)
    ensures
        land_on_all(integrate(p, canvas_width, canvas_height), platforms).velocity.x
            == p.velocity.x,
        land_on_all(integrate(p, canvas_width, canvas_height), platforms).facing_right
            == p.facing_right,
    decreases platforms.len(),
{
    if platforms.len() > 0 {
        lemma_motion_keeps_walk(p, canvas_width, canvas_height, platforms.drop_last());
    }
}

/// The player at the start of a game is valid.
pub proof fn lemma_initial_player_valid()
    ensures
        initial_player().valid(),
{
    lemma_reach_at_rest(initial_player().bottom(), JUMP_STRENGTH as int, GRAVITY as int);
}

impl Default for Player {
    /// The player at the start of a game.
    fn default() -> (p: Player)
        ensures
            p@ == initial_player(),
    {
        Player {
            position: Vector2 { x: 10_000, y: 30_000 },
            velocity: Vector2 { x: 0, y: 0 },
            width: 3_200,
            height: 4_800,
            on_ground: false,
            facing_right: true,
            color: "#00ffff",
        }
    }
}

impl Player {
    /// Reads the held keys: sets the horizontal velocity and the facing, and
    /// starts a jump if the player is on the ground and the jump key is held.
    pub fn handle_input(&mut self, keys: &KeyState)
        ensures
            final(self)@ == resolve_input(old(self)@, *keys),
    {
        self.velocity.x = 0;
        if keys.left {
            self.velocity.x = -MOVE_SPEED;
            self.facing_right = false;
        }
        if keys.right {
            self.velocity.x = MOVE_SPEED;
            self.facing_right = true;
        }
        if keys.jump && self.on_ground {
            self.velocity.y = JUMP_STRENGTH;
            self.on_ground = false;
        }
    }

    /// Moves the player by one tick on a canvas of the given size: gravity,
    /// motion, the walls and the ground.
    pub fn integrate(&mut self, canvas_width: i64, canvas_height: i64)
        requires
            old(self)@.bounded(),
            in_range(canvas_width as int),
            in_range(canvas_height as int),
        ensures
            final(self)@ == integrate(old(self)@, canvas_width as int, canvas_height as int),
    {
        if !self.on_ground {
            let faster: i64 = self.velocity.y + GRAVITY;
            self.velocity.y = if faster < MAX_FALL_SPEED { faster } else { MAX_FALL_SPEED };
        }
        let moved: i64 = self.position.x + self.velocity.x;
        let right_limit: i64 = canvas_width - self.width;
        let high: i64 = if moved < right_limit { moved } else { right_limit };
        self.position.x = if high > 0 { high } else { 0 };
        self.position.y = self.position.y + self.velocity.y;

        let ground: i64 = canvas_height - GROUND_BAND;
        if self.position.y + self.height >= ground {
            self.position.y = ground - self.height;
            self.velocity.y = 0;
            self.on_ground = true;
        }
    }

    /// Sets the player down on the platform if the platform catches it.
    pub fn land_on(&mut self, platform: &Platform)
        requires
            old(self)@.bounded(),
            in_range(platform.x as int),
            in_range(platform.y as int),
            in_range(platform.width as int),
            in_range(platform.height as int),
        ensures
            final(self)@ == land_on(old(self)@, platform@),
    {
        let bottom: i64 = self.position.y + self.height;
        if self.position.x < platform.x + platform.width
            && self.position.x + self.width > platform.x
            && bottom > platform.y
            && bottom < platform.y + platform.height + PLATFORM_TOLERANCE
            && self.velocity.y >= 0 {
            self.position.y = platform.y - self.height;
            self.velocity.y = 0;
            self.on_ground = true;
        }
    }
}

} // verus!
