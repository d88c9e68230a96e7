//! The picture of a world as a list of drawing commands.
//!
//! A command list is meant for a 2D drawing surface with a current fill
//! style and a current font; the host replays it in order.

use vstd::prelude::*;
use vstd::arithmetic::div_mod::lemma_div_pos_is_pos;
use crate::enemy::{enemy_views, lemma_valid_enemy_is_bounded, Enemy, EnemyView};
use crate::geometry::{
    get_platforms, level_platforms, platform_views, Platform, PlatformView, Vector2, Vector2View,
};
use crate::player::{Player, PlayerView};
use crate::text::{position_line, position_text};
use crate::units::{in_range, GROUND_BAND};
use crate::world::GameView;

verus! {

/// A drawing command as mathematical values.
pub enum DrawCommandView {
    ClearRect { x: int, y: int, width: int, height: int },
    SetFillStyle { color: Seq<char> },
    FillRect { x: int, y: int, width: int, height: int },
    SetFont { font: Seq<char> },
    FillText { text: Seq<char>, x: int, y: int },
}

/// One call on a 2D drawing surface. Coordinates and lengths are in units;
/// colors and fonts are written as the surface expects them.
#[derive(Clone, Debug, PartialEq, Eq)]
pub enum DrawCommand {
    /// Erase a rectangle.
    ClearRect { x: i64, y: i64, width: i64, height: i64 },
    /// Make `color` the current fill style.
    SetFillStyle { color: &'static str },
    /// Fill a rectangle with the current fill style.
    FillRect { x: i64, y: i64, width: i64, height: i64 },
    /// Make `font` the current font.
    SetFont { font: &'static str },
    /// Write `text` in the current font and fill style, its baseline starting at `(x, y)`.
    FillText { text: String, x: i64, y: i64 },
}

impl View for DrawCommand {
    type V = DrawCommandView;

    open spec fn view(&self) -> DrawCommandView {
        match *self {
            DrawCommand::ClearRect { x, y, width, height } => DrawCommandView::ClearRect {
                x: x as int,
                y: y as int,
                width: width as int,
                height: height as int,
            },
            DrawCommand::SetFillStyle { color } => DrawCommandView::SetFillStyle { color: color@ },
            DrawCommand::FillRect { x, y, width, height } => DrawCommandView::FillRect {
                x: x as int,
                y: y as int,
                width: width as int,
                height: height as int,
            },
            DrawCommand::SetFont { font } => DrawCommandView::SetFont { font: font@ },
            DrawCommand::FillText { text, x, y } => DrawCommandView::FillText {
                text: text@,
                x: x as int,
                y: y as int,
            },
        }
    }
}

/// The views of a sequence of commands, in order.
pub open spec fn command_views(commands: Seq<DrawCommand>) -> Seq<DrawCommandView> {
    Seq::new(commands.len(), |i: int| commands[i]@)
}

/// The command that makes `color` the current fill style.
pub open spec fn fill_style(color: Seq<char>) -> DrawCommandView {
    DrawCommandView::SetFillStyle { color }
}

/// The command that fills a rectangle.
pub open spec fn fill_rect(x: int, y: int, width: int, height: int) -> DrawCommandView {
    DrawCommandView::FillRect { x, y, width, height }
}

/// The backdrop: the canvas erased and filled, and the ground band, which
/// is the bottom `GROUND_BAND` of the canvas.
pub open spec fn backdrop(canvas_width: int, canvas_height: int) -> Seq<DrawCommandView> {
    seq![
        DrawCommandView::ClearRect { x: 0, y: 0, width: canvas_width, height: canvas_height },
        fill_style("#1a1a2e"@),
        fill_rect(0, 0, canvas_width, canvas_height),
        fill_style("#16213e"@),
        fill_rect(0, canvas_height - GROUND_BAND, canvas_width, GROUND_BAND as int),
    ]
}

/// One filled rectangle for each platform, in order.
pub open spec fn platform_rects(platforms: Seq<PlatformView>) -> Seq<DrawCommandView> {
    Seq::new(
        platforms.len(),
        |i: int| fill_rect(platforms[i].x, platforms[i].y, platforms[i].width, platforms[i].height),
    )
}

/// The platforms: one fill style, then the rectangles.
pub open spec fn platform_shapes(platforms: Seq<PlatformView>) -> Seq<DrawCommandView> {
    seq![fill_style("#0f3460"@)] + platform_rects(platforms)
}

/// The player: its body in its own color, and a white eye of 4 by 4
/// pixels, 10 pixels below the top and 20 pixels from the left edge when it
/// looks right, 8 pixels when it looks left.
pub open spec fn player_shapes(p: PlayerView) -> Seq<DrawCommandView> {
    seq![
        fill_style(p.color),
        fill_rect(p.position.x, p.position.y, p.width, p.height),
        fill_style("#ffffff"@),
        fill_rect(
            p.position.x + if p.facing_right { 2_000int } else { 800int },
            p.position.y + 1_000,
            400,
            400,
        ),
    ]
}

/// The quotient of two integers, rounded toward zero.
pub open spec fn quotient_toward_zero(a: int, b: int) -> int {
    if a >= 0 && b > 0 {
        a / b
    } else if a >= 0 {
        -(a / (-b))
    } else if b > 0 {
        -((-a) / b)
    } else {
        (-a) / (-b)
    }
}

/// The width of the filled part of an enemy's health bar: the share
/// `health / max_health` of the enemy's width, rounded toward zero to a
/// whole unit.
pub open spec fn health_bar_width(e: EnemyView) -> int {
    quotient_toward_zero(e.width * e.health, e.max_health)
}

/// An enemy: its body in its own color; a health bar as wide as the body,
/// 4 pixels high and 8 pixels above it, dark with the share of health that
/// is left in green from the left; and two black eyes of 3 by 3 pixels,
/// 8 pixels below the top, 6 pixels in from either side.
pub open spec fn enemy_shapes(e: EnemyView) -> Seq<DrawCommandView> {
    seq![
        fill_style(e.color),
        fill_rect(e.position.x, e.position.y, e.width, e.height),
        fill_style("#333333"@),
        fill_rect(e.position.x, e.position.y - 800, e.width, 400),
        fill_style("#00ff00"@),
        fill_rect(e.position.x, e.position.y - 800, health_bar_width(e), 400),
        fill_style("#000000"@),
        fill_rect(e.position.x + 600, e.position.y + 800, 300, 300),
        fill_rect(e.position.x + e.width - 900, e.position.y + 800, 300, 300),
    ]
}

/// The enemies, one after another in list order.
pub open spec fn enemies_shapes(enemies: Seq<EnemyView>) -> Seq<DrawCommandView>
    decreases enemies.len(),
{
    if enemies.len() == 0 {
        Seq::empty()
    } else {
        enemies_shapes(enemies.drop_last()) + enemy_shapes(enemies.last())
    }
}

/// The writing on top: the title, the controls and the position of the
/// player, in white.
pub open spec fn overlay(position: Vector2View) -> Seq<DrawCommandView> {
    seq![
        fill_style("#ffffff"@),
        DrawCommandView::SetFont { font: "bold 24px monospace"@ },
        DrawCommandView::FillText { text: "METROIDVANIA"@, x: 2_000, y: 4_000 },
        DrawCommandView::SetFont { font: "14px monospace"@ },
        DrawCommandView::FillText {
            text: "Controls: \u{2190} \u{2192} Move | SPACE Jump"@,
            x: 2_000,
            y: 6_500,
        },
        DrawCommandView::FillText {
            text: position_line(position.x, position.y),
            x: 2_000,
            y: 8_500,
        },
    ]
}

/// The picture of a world: the backdrop, the platforms of the level, the
/// player, the enemies and the writing, in that order.
pub open spec fn scene(g: GameView) -> Seq<DrawCommandView> {
    backdrop(g.canvas_width, g.canvas_height) + platform_shapes(level_platforms())
        + player_shapes(g.player) + enemies_shapes(g.enemies) + overlay(g.player.position)
}

/// Whether the enemy can be drawn: its numbers are small enough and its
/// greatest health is not zero.
pub open spec fn drawable(e: EnemyView) -> bool {
    &&& e.bounded()
    &&& e.max_health != 0
}

/// Divides, rounding toward zero.
fn quotient(a: i64, b: i64) -> (q: i64)
    requires
        b != 0,
        a > i64::MIN,
        b > i64::MIN,
    ensures
        q == quotient_toward_zero(a as int, b as int),
{
    proof {
        if a >= 0 && b > 0 {
            lemma_div_pos_is_pos(a as int, b as int);
        } else if a >= 0 {
            lemma_div_pos_is_pos(a as int, -b);
        } else if b > 0 {
            lemma_div_pos_is_pos(-a, b as int);
        } else {
            lemma_div_pos_is_pos(-a, -b);
        }
    }
    if a >= 0 && b > 0 {
        a / b
    } else if a >= 0 {
        -(a / (-b))
    } else if b > 0 {
        -((-a) / b)
    } else {
        (-a) / (-b)
    }
}

/// Appends one command.
fn emit(out: &mut Vec<DrawCommand>, command: DrawCommand)
    ensures
        command_views(final(out)@) == command_views(old(out)@).push(command@),
{
    out.push(command);
    assert(command_views(out@) =~= command_views(old(out)@).push(command@));
}

/// Appends the command that fills a rectangle.
fn emit_rect(out: &mut Vec<DrawCommand>, x: i64, y: i64, width: i64, height: i64)
    ensures
        command_views(final(out)@) == command_views(old(out)@).push(
            fill_rect(x as int, y as int, width as int, height as int),
        ),
{
    emit(out, DrawCommand::FillRect { x, y, width, height });
}

/// Appends the command that sets the fill style.
fn emit_style(out: &mut Vec<DrawCommand>, color: &'static str)
    ensures
        command_views(final(out)@) == command_views(old(out)@).push(fill_style(color@)),
{
    emit(out, DrawCommand::SetFillStyle { color });
}

/// Appends the backdrop of a canvas of the given size.
pub fn render_backdrop(out: &mut Vec<DrawCommand>, canvas_width: i64, canvas_height: i64)
    requires
        in_range(canvas_height as int),
    ensures
        command_views(final(out)@) == command_views(old(out)@) + backdrop(
            canvas_width as int,
            canvas_height as int,
        ),
{
    emit(out, DrawCommand::ClearRect { x: 0, y: 0, width: canvas_width, height: canvas_height });
    emit_style(out, "#1a1a2e");
    emit_rect(out, 0, 0, canvas_width, canvas_height);
    emit_style(out, "#16213e");
    emit_rect(out, 0, canvas_height - GROUND_BAND, canvas_width, GROUND_BAND);
    assert(command_views(out@) =~= command_views(old(out)@) + backdrop(
        canvas_width as int,
        canvas_height as int,
    ));
}

/// Appends the platforms of the level.
pub fn render_platforms(out: &mut Vec<DrawCommand>)
    ensures
        command_views(final(out)@) == command_views(old(out)@) + platform_shapes(
            level_platforms(),
        ),
{
    emit_style(out, "#0f3460");
    let platforms: Vec<Platform> = get_platforms();
    let ghost styled = command_views(out@);
    let mut i: usize = 0;
    assert(platform_rects(level_platforms()).take(0) =~= Seq::empty());
    while i < platforms.len()
        invariant
            i <= platforms.len(),
            platform_views(platforms@) == level_platforms(),
            command_views(out@) == styled + platform_rects(level_platforms()).take(i as int),
        decreases platforms.len() - i,
    {
        let platform: &Platform = &platforms[i];
        proof {
            assert(platforms[i as int]@ == platform_views(platforms@)[i as int]);
            assert(platform_rects(level_platforms()).take(i + 1) =~= platform_rects(
                level_platforms(),
            ).take(i as int).push(platform_rects(level_platforms())[i as int]));
        }
        emit_rect(out, platform.x, platform.y, platform.width, platform.height);
        i += 1;
        assert(command_views(out@) =~= styled + platform_rects(level_platforms()).take(i as int));
    }
    assert(platform_rects(level_platforms()).take(platforms.len() as int) =~= platform_rects(
        level_platforms(),
    ));
    assert(command_views(out@) =~= command_views(old(out)@) + platform_shapes(level_platforms()));
}

/// Appends the player.
pub fn render_player(out: &mut Vec<DrawCommand>, player: &Player)
    requires
        player@.bounded(),
    ensures
        command_views(final(out)@) == command_views(old(out)@) + player_shapes(player@),
{
    emit_style(out, player.color);
    emit_rect(out, player.position.x, player.position.y, player.width, player.height);
    emit_style(out, "#ffffff");
    if player.facing_right {
        emit_rect(out, player.position.x + 2_000, player.position.y + 1_000, 400, 400);
    } else {
        emit_rect(out, player.position.x + 800, player.position.y + 1_000, 400, 400);
    }
    assert(command_views(out@) =~= command_views(old(out)@) + player_shapes(player@));
}

/// Appends one enemy.
pub fn render_enemy(out: &mut Vec<DrawCommand>, enemy: &Enemy)
    requires
        drawable(enemy@),
    ensures
        command_views(final(out)@) == command_views(old(out)@) + enemy_shapes(enemy@),
{
    let health: i64 = enemy.health as i64;
    let max_health: i64 = enemy.max_health as i64;
    assert(-1_000_000_000 * 2_147_483_648 <= enemy.width * health <= 1_000_000_000
        * 2_147_483_648) by (nonlinear_arith)
        requires
            -1_000_000_000 <= enemy.width <= 1_000_000_000,
            -2_147_483_648 <= health <= 2_147_483_647,
    ;
    let bar: i64 = quotient(enemy.width * health, max_health);
    emit_style(out, enemy.color);
    emit_rect(out, enemy.position.x, enemy.position.y, enemy.width, enemy.height);
    emit_style(out, "#333333");
    emit_rect(out, enemy.position.x, enemy.position.y - 800, enemy.width, 400);
    emit_style(out, "#00ff00");
    emit_rect(out, enemy.position.x, enemy.position.y - 800, bar, 400);
    emit_style(out, "#000000");
    emit_rect(out, enemy.position.x + 600, enemy.position.y + 800, 300, 300);
    emit_rect(out, enemy.position.x + enemy.width - 900, enemy.position.y + 800, 300, 300);
    assert(command_views(out@) =~= command_views(old(out)@) + enemy_shapes(enemy@));
}

/// Appends the enemies, in list order.
pub fn render_enemies(out: &mut Vec<DrawCommand>, enemies: &Vec<Enemy>)
    requires
        forall|i: int| 0 <= i < enemies.len() ==> drawable(#[trigger] enemies[i]@),
    ensures
        command_views(final(out)@) == command_views(old(out)@) + enemies_shapes(
            enemy_views(enemies@),
        ),
{
    let ghost views = enemy_views(enemies@);
    let mut i: usize = 0;
    assert(views.take(0) =~= Seq::empty());
    assert(command_views(out@) =~= command_views(old(out)@) + enemies_shapes(views.take(0)));
    while i < enemies.len()
        invariant
            i <= enemies.len(),
            views == enemy_views(enemies@),
            forall|j: int| 0 <= j < enemies.len() ==> drawable(#[trigger] enemies[j]@),
            command_views(out@) == command_views(old(out)@) + enemies_shapes(
                views.take(i as int),
            ),
        decreases enemies.len() - i,
    {
        proof {
            assert(views.take(i + 1).drop_last() =~= views.take(i as int));
            assert(views.take(i + 1).last() == enemies[i as int]@);
        }
        render_enemy(out, &enemies[i]);
        i += 1;
        assert(command_views(out@) =~= command_views(old(out)@) + enemies_shapes(
            views.take(i as int),
        ));
    }
    assert(views.take(enemies.len() as int) =~= views);
}

/// Appends the writing on top; `position` is where the player is.
pub fn render_ui(out: &mut Vec<DrawCommand>, position: Vector2)
    ensures
        command_views(final(out)@) == command_views(old(out)@) + overlay(position@),
{
    emit_style(out, "#ffffff");
    emit(out, DrawCommand::SetFont { font: "bold 24px monospace" });
    emit(
        out,
        DrawCommand::FillText { text: String::from_str("METROIDVANIA"), x: 2_000, y: 4_000 },
    );
    emit(out, DrawCommand::SetFont { font: "14px monospace" });
    emit(
        out,
        DrawCommand::FillText {
            text: String::from_str("Controls: \u{2190} \u{2192} Move | SPACE Jump"),
            x: 2_000,
            y: 6_500,
        },
    );
    emit(
        out,
        DrawCommand::FillText { text: position_text(position.x, position.y), x: 2_000, y: 8_500 },
    );
    assert(command_views(out@) =~= command_views(old(out)@) + overlay(position@));
}

/// The picture does not depend on the keys that are held: two pictures of a
/// game with no tick in between are the same, whatever keys went down or up
/// in between.
pub proof fn lemma_picture_ignores_keys(g: GameView, keys: crate::input::KeyState)
    ensures
        scene(g.with_keys(keys)) == scene(g),
{
}

/// A valid enemy can be drawn.
pub proof fn lemma_valid_enemy_is_drawable(e: EnemyView)
    requires
        e.valid(),
    ensures
        drawable(e),
{
    lemma_valid_enemy_is_bounded(e);
}

} // verus!
