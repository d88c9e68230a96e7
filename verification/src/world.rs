//! The whole world as a mathematical value, what one tick makes of it, and
//! what holds of it in every frame.

use vstd::prelude::*;
use crate::collision::{
    knock_back_all, lemma_knock_back_all_valid, lemma_no_contact_no_push,
    lemma_pushes_are_horizontal, touches,
};
use crate::enemy::{
    initial_jumper, initial_patroller, lemma_initial_enemies_valid, lemma_step_enemy_valid,
    step_enemies, EnemyView,
};
use crate::geometry::{lemma_level_platforms_on_canvas, level_platforms};
use crate::input::KeyState;
use crate::player::{
    above_ground, initial_player, integrate, land_on_all, lemma_initial_player_valid,
    lemma_integrate_valid, lemma_land_on_all_valid, lemma_motion_keeps_walk,
    lemma_no_platform_no_landing, lemma_resolve_input_valid, lemma_right_key_walks_right,
    resolve_input, PlayerView,
};
use crate::units::{
    ground_level, CANVAS_HEIGHT, CANVAS_WIDTH, GRAVITY, JUMP_STRENGTH, MOVE_SPEED,
};

verus! {

/// The state of a game as mathematical values.
pub struct GameView {
    pub player: PlayerView,
    pub enemies: Seq<EnemyView>,
    pub keys: KeyState,
    pub canvas_width: int,
    pub canvas_height: int,
}

/// The world at the start of a game: the player in the air at (100, 300),
/// the patroller and the jumper in the air above their patrols, no key held.
pub open spec fn initial_world() -> GameView {
    GameView {
        player: initial_player(),
        enemies: seq![initial_patroller(), initial_jumper()],
        keys: KeyState { left: false, right: false, jump: false },
        canvas_width: CANVAS_WIDTH as int,
        canvas_height: CANVAS_HEIGHT as int,
    }
}

impl GameView {
    /// The world with other keys held.
    pub open spec fn with_keys(self, keys: KeyState) -> GameView {
        GameView { keys, ..self }
    }

    /// The world after the player read the held keys.
    pub open spec fn after_input(self) -> GameView {
        GameView { player: resolve_input(self.player, self.keys), ..self }
    }

    /// The world after the player moved, met the walls and the ground.
    pub open spec fn after_integration(self) -> GameView {
        GameView {
            player: integrate(self.player, self.canvas_width, self.canvas_height),
            ..self
        }
    }

    /// The world after the player met the platforms of the level.
    pub open spec fn after_platforms(self) -> GameView {
        GameView { player: land_on_all(self.player, level_platforms()), ..self }
    }

    /// The world after the player's part of a tick: motion, then platforms.
    pub open spec fn after_player(self) -> GameView {
        self.after_integration().after_platforms()
    }

    /// The world after every enemy's tick.
    pub open spec fn after_enemies(self) -> GameView {
        GameView { enemies: step_enemies(self.enemies, self.canvas_height), ..self }
    }

    /// The world after the enemies pushed the player, in list order.
    pub open spec fn after_collisions(self) -> GameView {
        GameView { player: knock_back_all(self.player, self.enemies), ..self }
    }

    /// The world after one tick: input, the player, the enemies, collisions.
    pub open spec fn step(self) -> GameView {
        self.after_input().after_player().after_enemies().after_collisions()
    }

    /// The world after one tick for each entry of `inputs`, the keys of the
    /// entry held during its tick.
    pub open spec fn run(self, inputs: Seq<KeyState>) -> GameView
        decreases inputs.len(),
    {
        if inputs.len() == 0 {
            self
        } else {
            self.run(inputs.drop_last()).with_keys(inputs.last()).step()
        }
    }

    /// The player stands no lower than the ground.
    pub open spec fn player_above_ground(self) -> bool {
        self.player.position.y + self.player.height <= ground_level(self.canvas_height)
    }

    /// The player stands between the left and the right edge of the canvas.
    pub open spec fn player_inside_walls(self) -> bool {
        0 <= self.player.position.x <= self.canvas_width - self.player.width
    }

    /// No enemy stands lower than the ground.
    pub open spec fn enemies_above_ground(self) -> bool {
        forall|i: int|
            0 <= i < self.enemies.len() ==> (#[trigger] self.enemies[i]).position.y
                + self.enemies[i].height <= ground_level(self.canvas_height)
    }

    /// What holds of the world of a running game between any two parts of a
    /// tick: the canvas is 800 by 600 pixels, the player and every enemy are
    /// valid, and every enemy is clear of the walls.
    pub open spec fn wf(self) -> bool {
        &&& self.canvas_width == CANVAS_WIDTH
        &&& self.canvas_height == CANVAS_HEIGHT
        &&& self.player.valid()
        &&& forall|i: int|
            0 <= i < self.enemies.len() ==> (#[trigger] self.enemies[i]).valid()
                && self.enemies[i].clear_of_walls(self.player.width)
    }
}

/// The platforms of the level lie above the ground.
pub proof fn lemma_level_platforms_above_ground()
    ensures
        forall|i: int|
            0 <= i < level_platforms().len() ==> above_ground(#[trigger] level_platforms()[i]),
{
    lemma_level_platforms_on_canvas();
}

/// The world at the start of a game is well formed.
pub proof fn lemma_initial_world_wf()
    ensures
        initial_world().wf(),
{
    lemma_initial_player_valid();
    lemma_initial_enemies_valid();
}

/// Holding other keys keeps the world well formed.
pub proof fn lemma_with_keys_wf(g: GameView, keys: KeyState)
    requires
        g.wf(),
    ensures
        g.with_keys(keys).wf(),
{
}

/// Reading the keys keeps the world well formed.
pub proof fn lemma_after_input_wf(g: GameView)
    requires
        g.wf(),
    ensures
        g.after_input().wf(),
{
    lemma_resolve_input_valid(g.player, g.keys);
}

/// The player's motion keeps the world well formed.
pub proof fn lemma_after_integration_wf(g: GameView)
    requires
        g.wf(),
    ensures
        g.after_integration().wf(),
{
    lemma_integrate_valid(g.player);
}

/// The platforms keep the world well formed.
pub proof fn lemma_after_platforms_wf(g: GameView)
    requires
        g.wf(),
    ensures
        g.after_platforms().wf(),
{
    lemma_level_platforms_above_ground();
    lemma_land_on_all_valid(g.player, level_platforms());
}

/// The enemies' ticks keep the world well formed.
pub proof fn lemma_after_enemies_wf(g: GameView)
    requires
        g.wf(),
    ensures
        g.after_enemies().wf(),
{
    let next = g.after_enemies();
    assert forall|i: int| 0 <= i < next.enemies.len() implies (#[trigger] next.enemies[i]).valid()
        && next.enemies[i].clear_of_walls(next.player.width) by {
        lemma_step_enemy_valid(g.enemies[i]);
    }
}

/// The enemies' pushes keep the world well formed.
pub proof fn lemma_after_collisions_wf(g: GameView)
    requires
        g.wf(),
    ensures
        g.after_collisions().wf(),
{
    lemma_knock_back_all_valid(g.player, g.enemies);
}

/// One tick keeps the world well formed.
pub proof fn lemma_step_wf(g: GameView)
    requires
        g.wf(),
    ensures
        g.step().wf(),
{
    lemma_after_input_wf(g);
    lemma_after_integration_wf(g.after_input());
    lemma_after_platforms_wf(g.after_input().after_integration());
    lemma_after_enemies_wf(g.after_input().after_player());
    lemma_after_collisions_wf(g.after_input().after_player().after_enemies());
}

/// In a well-formed world the player stands no lower than the ground and
/// between the walls, and no enemy stands lower than the ground.
pub proof fn lemma_wf_keeps_everyone_on_canvas(g: GameView)
    requires
        g.wf(),
    ensures
        g.player_above_ground(),
        g.player_inside_walls(),
        g.enemies_above_ground(),
{
}

/// Whatever keys are held from tick to tick, a well-formed world stays well
/// formed: after every tick the player stands no lower than the ground and
/// between the walls, and no enemy stands lower than the ground.
pub proof fn lemma_run_keeps_everyone_on_canvas(g: GameView, inputs: Seq<KeyState>)
    requires
        g.wf(),
    ensures
        g.run(inputs).wf(),
        g.run(inputs).player_above_ground(),
        g.run(inputs).player_inside_walls(),
        g.run(inputs).enemies_above_ground(),
    decreases inputs.len(),
{
    if inputs.len() > 0 {
        lemma_run_keeps_everyone_on_canvas(g, inputs.drop_last());
        lemma_step_wf(g.run(inputs.drop_last()).with_keys(inputs.last()));
    }
}

/// In every frame of a game, whatever keys were held in the frames before,
/// the player stands no lower than the ground and between the walls.
pub proof fn lemma_every_frame_keeps_player_on_canvas(inputs: Seq<KeyState>)
    ensures
        initial_world().run(inputs).wf(),
        initial_world().run(inputs).player_above_ground(),
        initial_world().run(inputs).player_inside_walls(),
{
    lemma_initial_world_wf();
    lemma_run_keeps_everyone_on_canvas(initial_world(), inputs);
}

/// A tick with the jump key held and the player on the ground leaves the
/// player in the air, one tick into its jump: gravity has acted once on the
/// take-off velocity, and the player has risen by the result.
pub proof fn lemma_tick_with_jump_key(g: GameView)
    requires
        g.wf(),
        g.keys.jump,
        g.player.on_ground,
    ensures
        g.after_input().player.velocity.y == JUMP_STRENGTH,
        !g.after_input().player.on_ground,
        g.step().player.velocity.y == JUMP_STRENGTH + GRAVITY,
        g.step().player.position.y == g.player.position.y + JUMP_STRENGTH + GRAVITY,
        !g.step().player.on_ground,
{
    let moved = g.after_input().after_integration().player;
    assert(moved.velocity.y == JUMP_STRENGTH + GRAVITY);
    lemma_no_platform_no_landing(moved, level_platforms());
    lemma_pushes_are_horizontal(moved, step_enemies(g.enemies, g.canvas_height));
}

/// A tick neither adds nor removes an enemy, and leaves every enemy its
/// kind, its color, its size, its health and its patrol.
pub proof fn lemma_step_keeps_roster(g: GameView)
    ensures
        g.step().enemies.len() == g.enemies.len(),
        forall|i: int|
            0 <= i < g.enemies.len() ==> {
                let before = g.enemies[i];
                let after = #[trigger] g.step().enemies[i];
                &&& after.kind == before.kind
                &&& after.color == before.color
                &&& after.width == before.width
                &&& after.height == before.height
                &&& after.health == before.health
                &&& after.max_health == before.max_health
                &&& after.velocity.x == before.velocity.x
                &&& after.move_range == before.move_range
                &&& after.start_x == before.start_x
            },
        g.step().canvas_width == g.canvas_width,
        g.step().canvas_height == g.canvas_height,
        g.step().keys == g.keys,
{
}

/// A tick with the right key held, in which no enemy touches the player,
/// leaves the player walking right at `MOVE_SPEED` and looking right.
pub proof fn lemma_tick_with_right_key(g: GameView)
    requires
        g.keys.right,
        forall|i: int|
            0 <= i < g.enemies.len() ==> !touches(
                g.after_input().after_player().player,
                #[trigger] step_enemies(g.enemies, g.canvas_height)[i],
            ),
    ensures
        g.step().player.velocity.x == MOVE_SPEED,
        g.step().player.facing_right,
{
    lemma_right_key_walks_right(g.player, g.keys);
    lemma_motion_keeps_walk(
        resolve_input(g.player, g.keys),
        g.canvas_width,
        g.canvas_height,
        level_platforms(),
    );
    lemma_no_contact_no_push(
        g.after_input().after_player().player,
        step_enemies(g.enemies, g.canvas_height),
    );
}

} // verus!
