//! Points, rectangles and the overlap test.

use vstd::prelude::*;

verus! {

/// A point or a velocity as mathematical integers.
pub struct Vector2View {
    pub x: int,
    pub y: int,
}

/// A point of the canvas, or a velocity.
#[derive(Clone, Copy, Debug, PartialEq, Eq)]
pub struct Vector2 {
    pub x: i64,
    pub y: i64,
}

impl View for Vector2 {
    type V = Vector2View;

    open spec fn view(&self) -> Vector2View {
        Vector2View { x: self.x as int, y: self.y as int }
    }
}

impl Default for Vector2 {
    /// The origin.
    fn default() -> (v: Vector2)
        ensures
            v@ == (Vector2View { x: 0, y: 0 }),
    {
        Vector2 { x: 0, y: 0 }
    }
}

/// A platform as mathematical integers.
pub struct PlatformView {
    pub x: int,
    pub y: int,
    pub width: int,
    pub height: int,
}

/// A fixed rectangle that the player can stand on; `(x, y)` is its top left corner.
#[derive(Clone, Copy, Debug, PartialEq, Eq)]
pub struct Platform {
    pub x: i64,
    pub y: i64,
    pub width: i64,
    pub height: i64,
}

impl View for Platform {
    type V = PlatformView;

    open spec fn view(&self) -> PlatformView {
        PlatformView {
            x: self.x as int,
            y: self.y as int,
            width: self.width as int,
            height: self.height as int,
        }
    }
}

/// The views of a sequence of platforms, in order.
pub open spec fn platform_views(platforms: Seq<Platform>) -> Seq<PlatformView> {
    Seq::new(platforms.len(), |i: int| platforms[i]@)
}

/// The three platforms of the level, in the order in which they are tried.
pub open spec fn level_platforms() -> Seq<PlatformView> {
    seq![
        PlatformView { x: 20_000, y: 45_000, width: 12_000, height: 2_000 },
        PlatformView { x: 40_000, y: 35_000, width: 10_000, height: 2_000 },
        PlatformView { x: 55_000, y: 28_000, width: 15_000, height: 2_000 },
    ]
}

/// Every platform of the level lies on the 800 by 600 canvas.
pub proof fn lemma_level_platforms_on_canvas()
    ensures
        level_platforms().len() == 3,
        forall|i: int|
            0 <= i < 3 ==> {
                let platform = #[trigger] level_platforms()[i];
                &&& 0 <= platform.x <= 80_000
                &&& 0 <= platform.y <= 54_000
                &&& 0 <= platform.width <= 80_000
                &&& 0 <= platform.height <= 60_000
            },
{
}

/// Whether two axis-aligned rectangles, each given by its top left corner,
/// width and height, share a point. The rectangles are half-open: two that
/// only touch along an edge do not overlap.
pub open spec fn rects_overlap(
    x1: int,
    y1: int,
    w1: int,
    h1: int,
    x2: int,
    y2: int,
    w2: int,
    h2: int,
) -> bool {
    x1 < x2 + w2 && x1 + w1 > x2 && y1 < y2 + h2 && y1 + h1 > y2
}

/// Tests two axis-aligned rectangles for overlap.
pub fn check_rect_collision(
    x1: i64,
    y1: i64,
    w1: i64,
    h1: i64,
    x2: i64,
    y2: i64,
    w2: i64,
    h2: i64,
) -> (hit: bool)
    ensures
        hit == rects_overlap(
            x1 as int,
            y1 as int,
            w1 as int,
            h1 as int,
            x2 as int,
            y2 as int,
            w2 as int,
            h2 as int,
        ),
{
    let left1: i128 = x1 as i128;
    let top1: i128 = y1 as i128;
    let right1: i128 = left1 + w1 as i128;
    let bottom1: i128 = top1 + h1 as i128;
    let left2: i128 = x2 as i128;
    let top2: i128 = y2 as i128;
    let right2: i128 = left2 + w2 as i128;
    let bottom2: i128 = top2 + h2 as i128;
    left1 < right2 && right1 > left2 && top1 < bottom2 && bottom1 > top2
}

/// The platforms of the level.
pub fn get_platforms() -> (platforms: Vec<Platform>)
    ensures
        platform_views(platforms@) == level_platforms(),
{
    let mut platforms: Vec<Platform> = Vec::new();
    platforms.push(Platform { x: 20_000, y: 45_000, width: 12_000, height: 2_000 });
    platforms.push(Platform { x: 40_000, y: 35_000, width: 10_000, height: 2_000 });
    platforms.push(Platform { x: 55_000, y: 28_000, width: 15_000, height: 2_000 });
    assert(platform_views(platforms@) =~= level_platforms());
    platforms
}

} // verus!
