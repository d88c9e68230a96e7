//! What becomes of a game that is left alone: the player falls straight
//! down from its starting point, lands on the ground after 22 ticks and
//! stays there.

use vstd::prelude::*;
use crate::collision::{lemma_no_contact_no_push, touches};
use crate::enemy::{
    initial_jumper, initial_patroller, lemma_patrol_band, lemma_step_enemy_valid, step_enemies,
    EnemyView,
};
use crate::geometry::{lemma_level_platforms_on_canvas, level_platforms, Vector2View};
use crate::input::KeyState;
use crate::player::{
    initial_player, integrate, lands_on, lemma_no_platform_no_landing, resolve_input, PlayerView,
};
use crate::world::{initial_world, lemma_initial_world_wf, lemma_step_wf, GameView};

verus! {

/// No key held.
pub open spec fn no_keys() -> KeyState {
    KeyState { left: false, right: false, jump: false }
}

/// No key held for the given number of ticks.
pub open spec fn idle(ticks: nat) -> Seq<KeyState> {
    Seq::new(ticks, |i: int| no_keys())
}

/// The player of an idle game after `ticks` ticks of its fall: it has
/// gained 0.8 pixels per tick of speed in every tick and has moved by its
/// speed in every tick.
pub open spec fn falling_player(ticks: nat) -> PlayerView {
    PlayerView {
        position: Vector2View { x: 10_000, y: 30_000 + 40 * (ticks * (ticks + 1)) as int },
        velocity: Vector2View { x: 0, y: 80 * ticks as int },
        ..initial_player()
    }
}

/// The player of an idle game once it has landed: at rest on the ground
/// below its starting point, at (100, 492).
pub open spec fn settled_player() -> PlayerView {
    PlayerView {
        position: Vector2View { x: 10_000, y: 49_200 },
        velocity: Vector2View { x: 0, y: 0 },
        on_ground: true,
        ..initial_player()
    }
}

/// The player of an idle game after `ticks` ticks.
pub open spec fn idle_player(ticks: nat) -> PlayerView {
    if ticks < 22 {
        falling_player(ticks)
    } else {
        settled_player()
    }
}

/// Whether an enemy patrols where `start` does, as fast and as wide.
pub open spec fn same_patrol(e: EnemyView, start: EnemyView) -> bool {
    &&& e.start_x == start.start_x
    &&& e.move_range == start.move_range
    &&& e.velocity.x == start.velocity.x
    &&& e.width == start.width
}

/// Whether the world is one that an idle game passes through after `ticks`
/// ticks: well formed, no key held, the two enemies on their patrols, and
/// the player where its fall has taken it.
pub open spec fn idling(g: GameView, ticks: nat) -> bool {
    &&& g.wf()
    &&& g.keys == no_keys()
    &&& g.enemies.len() == 2
    &&& same_patrol(g.enemies[0], initial_patroller())
    &&& same_patrol(g.enemies[1], initial_jumper())
    &&& g.player == idle_player(ticks)
}

/// The distance fallen grows with the ticks as the sum of the speeds does.
proof fn lemma_fall_distance(ticks: nat)
    by (nonlinear_arith)
    ensures
        (ticks + 1) * (ticks + 2) == ticks * (ticks + 1) + 2 * (ticks + 1),
        ticks <= 20 ==> (ticks + 1) * (ticks + 2) <= 462,
        ticks >= 21 ==> (ticks + 1) * (ticks + 2) >= 506,
{
}

/// One more tick of an idle game.
pub proof fn lemma_idle_tick(g: GameView, ticks: nat)
    requires
        idling(g, ticks),
    ensures
        idling(g.step(), ticks + 1),
{
    lemma_step_wf(g);
    lemma_fall_distance(ticks);
    let moved = integrate(resolve_input(g.player, g.keys), g.canvas_width, g.canvas_height);
    assert(moved == idle_player(ticks + 1));
    lemma_level_platforms_on_canvas();
    assert forall|i: int| 0 <= i < level_platforms().len() implies !lands_on(
        moved,
        #[trigger] level_platforms()[i],
    ) by {
        assert(level_platforms()[i].x >= 20_000);
    }
    lemma_no_platform_no_landing(moved, level_platforms());
    let enemies = step_enemies(g.enemies, g.canvas_height);
    assert forall|i: int| 0 <= i < enemies.len() implies !touches(moved, #[trigger] enemies[i]) by {
        lemma_step_enemy_valid(g.enemies[i]);
        lemma_patrol_band(enemies[i]);
    }
    lemma_no_contact_no_push(moved, enemies);
}

/// A game that is left alone for `ticks` ticks passes through the idle
/// worlds: the player falls for 21 ticks, lands on the ground in the 22nd
/// and stays there, at rest and grounded, at (100, 492).
pub proof fn lemma_idle_game_settles(ticks: nat)
    ensures
        idling(initial_world().run(idle(ticks)), ticks),
        initial_world().run(idle(ticks)).player == idle_player(ticks),
        ticks >= 22 ==> initial_world().run(idle(ticks)).player == settled_player(),
    decreases ticks,
{
    if ticks == 0 {
        lemma_initial_world_wf();
        assert(0nat * (0nat + 1) == 0) by (nonlinear_arith);
    } else {
        let before = (ticks - 1) as nat;
        lemma_idle_game_settles(before);
        assert(idle(ticks).drop_last() =~= idle(before));
        let g = initial_world().run(idle(before));
        assert(g.with_keys(idle(ticks).last()) == g);
        lemma_idle_tick(g, before);
    }
}

} // verus!
