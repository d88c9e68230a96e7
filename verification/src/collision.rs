//! What touching an enemy does to the player.

use vstd::prelude::*;
use crate::enemy::{lemma_patrol_band, Enemy, EnemyView};
use crate::geometry::{check_rect_collision, rects_overlap, Vector2View};
use crate::player::{Player, PlayerView};
use crate::units::KNOCKBACK;

verus! {

/// Whether the rectangles of the player and of the enemy overlap.
pub open spec fn touches(p: PlayerView, e: EnemyView) -> bool {
    rects_overlap(
        p.position.x,
        p.position.y,
        p.width,
        p.height,
        e.position.x,
        e.position.y,
        e.width,
        e.height,
    )
}

/// A velocity turned round and halved; the half is rounded toward zero to a
/// whole unit.
pub open spec fn reversed_half(v: int) -> int {
    if v >= 0 {
        -(v / 2)
    } else {
        (-v) / 2
    }
}

/// The player after one enemy was looked at.
///
/// If they touch, the player is pushed `KNOCKBACK` away from the enemy along
/// the x axis, to the left if its left edge is left of the enemy's and to
/// the right otherwise, and its horizontal velocity is turned round and
/// halved. Nothing else changes, and nothing changes if they do not touch.
pub open spec fn knock_back(p: PlayerView, e: EnemyView) -> PlayerView {
    if touches(p, e) {
        let x = if p.position.x < e.position.x {
            p.position.x - KNOCKBACK
        } else {
            p.position.x + KNOCKBACK
        };
        PlayerView {
            position: Vector2View { x, y: p.position.y },
            velocity: Vector2View { x: reversed_half(p.velocity.x), y: p.velocity.y },
            ..p
        }
    } else {
        p
    }
}

/// The player after each enemy was looked at in turn. Each enemy sees the
/// player as the one before left it, so the pushes add up.
pub open spec fn knock_back_all(p: PlayerView, enemies: Seq<EnemyView>) -> PlayerView
    decreases enemies.len(),
{
    if enemies.len() == 0 {
        p
    } else {
        knock_back(knock_back_all(p, enemies.drop_last()), enemies.last())
    }
}

/// Being pushed by a valid enemy that is clear of the walls keeps the
/// player valid: the push never takes it off the canvas.
pub proof fn lemma_knock_back_valid(p: PlayerView, e: EnemyView)
    requires
        p.valid(),
        e.valid(),
        e.clear_of_walls(p.width),
    ensures
        knock_back(p, e).valid(),
{
    lemma_patrol_band(e);
}

/// Being pushed by valid enemies that are clear of the walls, one after
/// another, keeps the player valid.
pub proof fn lemma_knock_back_all_valid(p: PlayerView, enemies: Seq<EnemyView>)
    requires
        p.valid(),
        forall|i: int|
            0 <= i < enemies.len() ==> (#[trigger] enemies[i]).valid() && enemies[i].clear_of_walls(
                p.width,
            ),
    ensures
        knock_back_all(p, enemies).valid(),
        knock_back_all(p, enemies).width == p.width,
    decreases enemies.len(),
{
    if enemies.len() > 0 {
        lemma_knock_back_all_valid(p, enemies.drop_last());
        lemma_knock_back_valid(knock_back_all(p, enemies.drop_last()), enemies.last());
    }
}

/// A player that touches an enemy with its left edge left of the enemy's is
/// moved exactly `KNOCKBACK` to the left, and its horizontal velocity is
/// turned round and halved: exactly, if it was an even number of units.
pub proof fn lemma_contact_from_the_left(p: PlayerView, e: EnemyView)
    requires
        touches(p, e),
        p.position.x < e.position.x,
    ensures
        knock_back(p, e).position.x == p.position.x - KNOCKBACK,
        knock_back(p, e).velocity.x == reversed_half(p.velocity.x),
        p.velocity.x % 2 == 0 ==> 2 * knock_back(p, e).velocity.x == -p.velocity.x,
        knock_back(p, e).position.y == p.position.y,
        knock_back(p, e).velocity.y == p.velocity.y,
        knock_back_all(p, seq![e]) == knock_back(p, e),
{
    lemma_single_enemy(p, e);
}

/// A player that touches an enemy with its left edge not left of the
/// enemy's is moved exactly `KNOCKBACK` to the right, and its horizontal
/// velocity is turned round and halved.
pub proof fn lemma_contact_from_the_right(p: PlayerView, e: EnemyView)
    requires
        touches(p, e),
        p.position.x >= e.position.x,
    ensures
        knock_back(p, e).position.x == p.position.x + KNOCKBACK,
        knock_back(p, e).velocity.x == reversed_half(p.velocity.x),
        p.velocity.x % 2 == 0 ==> 2 * knock_back(p, e).velocity.x == -p.velocity.x,
        knock_back(p, e).position.y == p.position.y,
        knock_back(p, e).velocity.y == p.velocity.y,
        knock_back_all(p, seq![e]) == knock_back(p, e),
{
    lemma_single_enemy(p, e);
}

/// With one enemy in the list, the player is pushed by that enemy alone.
pub proof fn lemma_single_enemy(p: PlayerView, e: EnemyView)
    ensures
        knock_back_all(p, seq![e]) == knock_back(p, e),
{
    let enemies = seq![e];
    assert(enemies.drop_last() =~= Seq::empty());
    assert(enemies.last() == e);
    assert(knock_back_all(p, enemies.drop_last()) == p);
}

/// Pushes move the player along the x axis only: they leave its height, its
/// vertical velocity, its size, whether it is grounded and where it looks
/// as they are.
pub proof fn lemma_pushes_are_horizontal(p: PlayerView, enemies: Seq<EnemyView>)
    ensures
        knock_back_all(p, enemies).position.y == p.position.y,
        knock_back_all(p, enemies).velocity.y == p.velocity.y,
        knock_back_all(p, enemies).width == p.width,
        knock_back_all(p, enemies).height == p.height,
        knock_back_all(p, enemies).on_ground == p.on_ground,
        knock_back_all(p, enemies).facing_right == p.facing_right,
        knock_back_all(p, enemies).color == p.color,
    decreases enemies.len(),
{
    if enemies.len() > 0 {
        lemma_pushes_are_horizontal(p, enemies.drop_last());
    }
}

/// Enemies that do not touch the player leave it as it is.
pub proof fn lemma_no_contact_no_push(p: PlayerView, enemies: Seq<EnemyView>)
    requires
        forall|i: int| 0 <= i < enemies.len() ==> !touches(p, #[trigger] enemies[i]),
    ensures
        knock_back_all(p, enemies) == p,
    decreases enemies.len(),
{
    if enemies.len() > 0 {
        lemma_no_contact_no_push(p, enemies.drop_last());
    }
}

impl Player {
    /// Pushes the player away from the enemy if they touch.
    pub fn knock_back(&mut self, enemy: &Enemy)
        requires
            old(self)@.bounded(),
            enemy@.bounded(),
        ensures
            final(self)@ == knock_back(old(self)@, enemy@),
    {
        if check_rect_collision(
            self.position.x,
            self.position.y,
            self.width,
            self.height,
            enemy.position.x,
            enemy.position.y,
            enemy.width,
            enemy.height,
        ) {
            if self.position.x < enemy.position.x {
                self.position.x = self.position.x - KNOCKBACK;
            } else {
                self.position.x = self.position.x + KNOCKBACK;
            }
            self.velocity.x = -(self.velocity.x / 2);
        }
    }
}

} // verus!
