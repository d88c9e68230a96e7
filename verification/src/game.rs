//! The game: the world, and the entry points that a host calls.

use vstd::prelude::*;
use crate::collision::{knock_back_all, lemma_knock_back_valid};
use crate::enemy::{
    enemy_views, lemma_valid_enemy_is_bounded, step_enemies, step_enemy, Enemy,
};
use crate::geometry::{
    get_platforms, lemma_level_platforms_on_canvas, level_platforms, platform_views, Platform,
    Vector2,
};
use crate::input::{with_key, Action, KeyState};
use crate::player::{
    land_on_all, lemma_land_on_valid, lemma_valid_player_is_bounded, Player,
};
use crate::render::{
    command_views, drawable, lemma_valid_enemy_is_drawable, render_backdrop, render_enemies,
    render_platforms, render_player, render_ui, scene, DrawCommand,
};
use crate::units::{CANVAS_HEIGHT, CANVAS_WIDTH};
use crate::world::{
    initial_world, lemma_after_collisions_wf, lemma_after_enemies_wf, lemma_after_input_wf,
    lemma_after_integration_wf, lemma_after_platforms_wf, lemma_initial_world_wf,
    lemma_level_platforms_above_ground, lemma_with_keys_wf, GameView,
};

verus! {

/// A game in progress. A game is well formed at all times (see
/// [`GameView::wf`]); every function that hands one out or changes one says
/// so again.
pub struct Game {
    player: Player,
    enemies: Vec<Enemy>,
    keys: KeyState,
    canvas_width: i64,
    canvas_height: i64,
}

impl View for Game {
    type V = GameView;

    closed spec fn view(&self) -> GameView {
        GameView {
            player: self.player@,
            enemies: enemy_views(self.enemies@),
            keys: self.keys,
            canvas_width: self.canvas_width as int,
            canvas_height: self.canvas_height as int,
        }
    }
}

impl Game {
    #[verifier::type_invariant]
    spec fn well_formed(&self) -> bool {
        self@.wf()
    }

    /// A new game.
    pub fn new() -> (game: Game)
        ensures
            game@ == initial_world(),
            game@.wf(),
    {
        let mut enemies: Vec<Enemy> = Vec::new();
        enemies.push(Enemy::patroller());
        enemies.push(Enemy::jumper());
        let game = Game {
            player: Player::default(),
            enemies,
            keys: KeyState::new(),
            canvas_width: CANVAS_WIDTH,
            canvas_height: CANVAS_HEIGHT,
        };
        proof {
            assert(game@.enemies =~= initial_world().enemies);
            lemma_initial_world_wf();
        }
        game
    }

    /// Advances the game by one tick: input, the player, the enemies,
    /// collisions. Afterwards the player stands no lower than the ground and
    /// between the walls.
    pub fn update(&mut self)
        ensures
            final(self)@ == old(self)@.step(),
            final(self)@.wf(),
            final(self)@.player_above_ground(),
            final(self)@.player_inside_walls(),
    {
        self.handle_input();
        self.update_player();
        self.update_enemies();
        self.check_collisions();
    }

    /// Lets the player read the held keys.
    pub fn handle_input(&mut self)
        ensures
            final(self)@ == old(self)@.after_input(),
            final(self)@.wf(),
    {
        proof {
            use_type_invariant(&*self);
            lemma_after_input_wf(self@);
        }
        let mut player: Player = self.player;
        player.handle_input(&self.keys);
        self.player = player;
    }

    /// Moves the player by one tick: gravity, motion, the walls, the ground,
    /// then the platforms.
    pub fn update_player(&mut self)
        ensures
            final(self)@ == old(self)@.after_player(),
            final(self)@.wf(),
    {
        proof {
            use_type_invariant(&*self);
            lemma_valid_player_is_bounded(self@.player);
            lemma_after_integration_wf(self@);
        }
        let mut player: Player = self.player;
        player.integrate(self.canvas_width, self.canvas_height);
        self.player = player;
        self.check_platform_collisions();
    }

    /// Sets the player down on each platform of the level that catches it,
    /// in the order of [`get_platforms`].
    pub fn check_platform_collisions(&mut self)
        ensures
            final(self)@ == old(self)@.after_platforms(),
            final(self)@.wf(),
    {
        proof {
            use_type_invariant(&*self);
            lemma_after_platforms_wf(self@);
            lemma_level_platforms_on_canvas();
            lemma_level_platforms_above_ground();
        }
        let platforms: Vec<Platform> = get_platforms();
        let mut player: Player = self.player;
        let ghost start = self.player@;
        let mut i: usize = 0;
        assert(level_platforms().take(0) =~= Seq::empty());
        while i < platforms.len()
            invariant
                i <= platforms.len(),
                platforms.len() == 3,
                platform_views(platforms@) == level_platforms(),
                player@ == land_on_all(start, level_platforms().take(i as int)),
                player@.valid(),
            decreases platforms.len() - i,
        {
            proof {
                lemma_level_platforms_on_canvas();
                lemma_level_platforms_above_ground();
                lemma_valid_player_is_bounded(player@);
                lemma_land_on_valid(player@, level_platforms()[i as int]);
                assert(platforms[i as int]@ == platform_views(platforms@)[i as int]);
                assert(level_platforms().take(i + 1).drop_last() =~= level_platforms().take(
                    i as int,
                ));
                assert(level_platforms().take(i + 1).last() == level_platforms()[i as int]);
            }
            player.land_on(&platforms[i]);
            i += 1;
        }
        assert(level_platforms().take(3) =~= level_platforms());
        self.player = player;
    }

    /// Advances every enemy by one tick.
    pub fn update_enemies(&mut self)
        ensures
            final(self)@ == old(self)@.after_enemies(),
            final(self)@.wf(),
    {
        proof {
            use_type_invariant(&*self);
            lemma_after_enemies_wf(self@);
        }
        let mut next: Vec<Enemy> = Vec::new();
        let mut i: usize = 0;
        while i < self.enemies.len()
            invariant
                i <= self.enemies.len(),
                next.len() == i,
                self@.wf(),
                forall|j: int|
                    0 <= j < i ==> (#[trigger] next[j])@ == step_enemy(
                        self.enemies[j]@,
                        self.canvas_height as int,
                    ),
            decreases self.enemies.len() - i,
        {
            let mut enemy: Enemy = self.enemies[i];
            proof {
                assert(enemy@ == self@.enemies[i as int]);
                lemma_valid_enemy_is_bounded(enemy@);
            }
            enemy.update(self.canvas_height);
            next.push(enemy);
            i += 1;
        }
        assert(enemy_views(next@) =~= step_enemies(self@.enemies, self@.canvas_height));
        self.enemies = next;
    }

    /// Lets every enemy that touches the player push it away, in list order.
    pub fn check_collisions(&mut self)
        ensures
            final(self)@ == old(self)@.after_collisions(),
            final(self)@.wf(),
    {
        proof {
            use_type_invariant(&*self);
            lemma_after_collisions_wf(self@);
        }
        let mut player: Player = self.player;
        let ghost start = self.player@;
        let mut i: usize = 0;
        assert(self@.enemies.take(0) =~= Seq::empty());
        while i < self.enemies.len()
            invariant
                i <= self.enemies.len(),
                self@.wf(),
                start == self@.player,
                player@ == knock_back_all(start, self@.enemies.take(i as int)),
                player@.valid(),
                player@.width == start.width,
            decreases self.enemies.len() - i,
        {
            proof {
                let enemy = self@.enemies[i as int];
                assert(self.enemies[i as int]@ == enemy);
                lemma_valid_player_is_bounded(player@);
                lemma_valid_enemy_is_bounded(enemy);
                lemma_knock_back_valid(player@, enemy);
                assert(self@.enemies.take(i + 1).drop_last() =~= self@.enemies.take(i as int));
                assert(self@.enemies.take(i + 1).last() == enemy);
            }
            player.knock_back(&self.enemies[i]);
            i += 1;
        }
        assert(self@.enemies.take(self.enemies.len() as int) =~= self@.enemies);
        self.player = player;
    }

    /// Records that the key with the given identifier went down. A key
    /// that is bound to no action is ignored.
    pub fn handle_key_down(&mut self, key: &str)
        ensures
            final(self)@ == old(self)@.with_keys(with_key(old(self)@.keys, key@, true)),
            final(self)@.wf(),
    {
        self.set_key(key, true);
    }

    /// Records that the key with the given identifier went up. A key that
    /// is bound to no action is ignored.
    pub fn handle_key_up(&mut self, key: &str)
        ensures
            final(self)@ == old(self)@.with_keys(with_key(old(self)@.keys, key@, false)),
            final(self)@.wf(),
    {
        self.set_key(key, false);
    }

    fn set_key(&mut self, key: &str, held: bool)
        ensures
            final(self)@ == old(self)@.with_keys(with_key(old(self)@.keys, key@, held)),
            final(self)@.wf(),
    {
        proof {
            use_type_invariant(&*self);
        }
        match Action::from_key(key) {
            Some(action) => {
                let mut keys: KeyState = self.keys;
                keys.set(action, held);
                proof {
                    lemma_with_keys_wf(self@, keys);
                }
                self.keys = keys;
            },
            None => {},
        }
    }

    /// The picture of the game as it stands: the list of drawing commands
    /// that a host replays on its surface. The game is not changed, so the
    /// same game always gives the same list.
    pub fn render(&self) -> (commands: Vec<DrawCommand>)
        ensures
            command_views(commands@) == scene(self@),
    {
        proof {
            use_type_invariant(self);
            lemma_valid_player_is_bounded(self@.player);
            assert forall|i: int| 0 <= i < self.enemies.len() implies drawable(
                #[trigger] self.enemies[i]@,
            ) by {
                assert(self.enemies[i]@ == self@.enemies[i]);
                lemma_valid_enemy_is_drawable(self@.enemies[i]);
            }
        }
        let mut commands: Vec<DrawCommand> = Vec::new();
        assert(command_views(commands@) =~= Seq::empty());
        render_backdrop(&mut commands, self.canvas_width, self.canvas_height);
        render_platforms(&mut commands);
        render_player(&mut commands, &self.player);
        render_enemies(&mut commands, &self.enemies);
        render_ui(&mut commands, self.player.position);
        assert(command_views(commands@) =~= scene(self@));
        commands
    }

    /// Where the player is: the top left corner of its rectangle.
    pub fn get_player_position(&self) -> (position: Vector2)
        ensures
            position@ == self@.player.position,
            self@.wf(),
    {
        proof {
            use_type_invariant(self);
        }
        self.player.position
    }

    /// The player.
    pub fn player(&self) -> (player: &Player)
        ensures
            player@ == self@.player,
            self@.wf(),
    {
        proof {
            use_type_invariant(self);
        }
        &self.player
    }

    /// The enemies, in list order.
    pub fn enemies(&self) -> (enemies: &Vec<Enemy>)
        ensures
            enemy_views(enemies@) == self@.enemies,
            self@.wf(),
    {
        proof {
            use_type_invariant(self);
        }
        &self.enemies
    }

    /// Which keys are held.
    pub fn keys(&self) -> (keys: KeyState)
        ensures
            keys == self@.keys,
    {
        self.keys
    }
}

} // verus!
