use metroidvania::{check_rect_collision, Enemy, EnemyKind, Player, Vector2};

fn player_at(x: i64, y: i64, vx: i64) -> Player {
    Player {
        position: Vector2 { x, y },
        velocity: Vector2 { x: vx, y: 0 },
        width: 3_200,
        height: 4_800,
        on_ground: true,
        facing_right: true,
        color: "#00ffff",
    }
}

fn enemy_at(x: i64, y: i64) -> Enemy {
    Enemy {
        position: Vector2 { x, y },
        velocity: Vector2 { x: 200, y: 0 },
        width: 3_200,
        height: 3_200,
        health: 30,
        max_health: 30,
        color: "#ff6b6b",
        kind: EnemyKind::Patrol,
        move_direction: 1,
        move_range: 15_000,
        start_x: 40_000,
        on_ground: true,
    }
}

#[test]
fn overlapping_rectangles_collide() {
    assert!(check_rect_collision(0, 0, 10, 10, 5, 5, 10, 10));
    assert!(check_rect_collision(5, 5, 10, 10, 0, 0, 10, 10));
    assert!(check_rect_collision(0, 0, 10, 10, 2, 2, 3, 3));
    assert!(check_rect_collision(2, 2, 3, 3, 0, 0, 10, 10));
    assert!(check_rect_collision(0, 0, 10, 10, 0, 0, 10, 10));
}

#[test]
fn touching_rectangles_do_not_collide() {
    assert!(!check_rect_collision(0, 0, 10, 10, 10, 0, 10, 10));
    assert!(!check_rect_collision(10, 0, 10, 10, 0, 0, 10, 10));
    assert!(!check_rect_collision(0, 0, 10, 10, 0, 10, 10, 10));
    assert!(!check_rect_collision(0, 10, 10, 10, 0, 0, 10, 10));
    assert!(check_rect_collision(0, 0, 10, 10, 9, 9, 10, 10));
}

#[test]
fn separate_rectangles_do_not_collide() {
    assert!(!check_rect_collision(0, 0, 10, 10, 20, 0, 10, 10));
    assert!(!check_rect_collision(0, 0, 10, 10, 0, 20, 10, 10));
    assert!(!check_rect_collision(0, 0, 10, 10, 5, 20, 10, 10));
    assert!(!check_rect_collision(-30, -30, 10, 10, -5, -5, 10, 10));
}

#[test]
fn empty_rectangles_never_collide_with_themselves() {
    assert!(!check_rect_collision(5, 5, 0, 0, 5, 5, 0, 0));
    assert!(check_rect_collision(5, 5, 0, 0, 0, 0, 10, 10));
}

#[test]
fn overlap_test_takes_any_coordinates() {
    assert!(check_rect_collision(i64::MAX - 5, 0, i64::MAX, 10, i64::MAX - 1, 0, i64::MAX, 10));
    assert!(!check_rect_collision(i64::MIN, 0, 10, 10, i64::MAX, 0, i64::MAX, 10));
    assert!(check_rect_collision(i64::MIN, i64::MIN, i64::MAX, i64::MAX, -5, -5, 1, 1));
    assert!(!check_rect_collision(0, 0, i64::MIN, 10, -5, 0, 10, 10));
    assert!(!check_rect_collision(0, 0, -10, 10, -5, 0, 10, 10));
}

#[test]
fn player_left_of_the_enemy_is_pushed_left() {
    let mut player = player_at(39_000, 49_200, 500);
    player.knock_back(&enemy_at(40_000, 50_800));
    assert_eq!(player.position, Vector2 { x: 37_000, y: 49_200 });
    assert_eq!(player.velocity, Vector2 { x: -250, y: 0 });
}

#[test]
fn player_covering_the_enemy_is_pushed_left_when_its_edge_is_left() {
    let mut player = player_at(39_999, 49_200, -500);
    let mut small = enemy_at(40_000, 50_000);
    small.width = 1_000;
    small.height = 1_000;
    player.knock_back(&small);
    assert_eq!(player.position.x, 37_999);
    assert_eq!(player.velocity.x, 250);
}

#[test]
fn player_level_with_or_right_of_the_enemy_is_pushed_right() {
    let mut player = player_at(40_000, 49_200, 500);
    player.knock_back(&enemy_at(40_000, 50_800));
    assert_eq!(player.position, Vector2 { x: 42_000, y: 49_200 });
    assert_eq!(player.velocity.x, -250);

    let mut player = player_at(41_000, 49_200, -500);
    player.knock_back(&enemy_at(40_000, 50_800));
    assert_eq!(player.position.x, 43_000);
    assert_eq!(player.velocity.x, 250);
}

#[test]
fn vertical_order_does_not_matter() {
    let mut above = player_at(39_000, 46_100, 0);
    above.knock_back(&enemy_at(40_000, 50_800));
    assert_eq!(above.position, Vector2 { x: 37_000, y: 46_100 });
    let mut below = player_at(39_000, 53_900, 0);
    below.knock_back(&enemy_at(40_000, 50_800));
    assert_eq!(below.position, Vector2 { x: 37_000, y: 53_900 });
}

#[test]
fn no_touch_no_push() {
    let mut player = player_at(36_800, 49_200, 500);
    player.knock_back(&enemy_at(40_000, 50_800));
    assert_eq!(player, player_at(36_800, 49_200, 500));
    let mut player = player_at(39_000, 46_000, 500);
    player.knock_back(&enemy_at(40_000, 50_800));
    assert_eq!(player, player_at(39_000, 46_000, 500));
}

#[test]
fn push_changes_nothing_else() {
    let mut player = player_at(39_000, 49_200, 500);
    player.velocity.y = -700;
    player.on_ground = false;
    player.facing_right = false;
    let enemy = enemy_at(40_000, 50_800);
    player.knock_back(&enemy);
    assert_eq!(player.velocity.y, -700);
    assert!(!player.on_ground);
    assert!(!player.facing_right);
    assert_eq!((player.width, player.height), (3_200, 4_800));
    assert_eq!(enemy, enemy_at(40_000, 50_800));
}

#[test]
fn halves_are_rounded_toward_zero() {
    for (before, after) in [(500, -250), (-500, 250), (250, -125), (125, -62), (-125, 62), (1, 0), (-1, 0), (0, 0), (3, -1), (-3, 1)] {
        let mut player = player_at(39_000, 49_200, before);
        player.knock_back(&enemy_at(40_000, 50_800));
        assert_eq!(player.velocity.x, after);
    }
}

#[test]
fn pushes_add_up_in_list_order() {
    let first = enemy_at(40_000, 50_800);
    let second = enemy_at(38_000, 50_800);
    let mut player = player_at(39_000, 49_200, 500);
    player.knock_back(&first);
    assert_eq!(player.position.x, 37_000);
    player.knock_back(&second);
    assert_eq!(player.position.x, 35_000);
    assert_eq!(player.velocity.x, 125);

    let mut player = player_at(39_000, 49_200, 500);
    player.knock_back(&second);
    assert_eq!(player.position.x, 41_000);
    player.knock_back(&first);
    assert_eq!(player.position.x, 43_000);
    assert_eq!(player.velocity.x, 125);
}

#[test]
fn still_touching_is_pushed_again() {
    let enemy = enemy_at(40_000, 50_800);
    let mut player = player_at(39_900, 49_200, 0);
    player.width = 9_000;
    player.knock_back(&enemy);
    assert_eq!(player.position.x, 37_900);
    player.knock_back(&enemy);
    assert_eq!(player.position.x, 35_900);
    player.knock_back(&enemy);
    assert_eq!(player.position.x, 33_900);
    player.knock_back(&enemy);
    assert_eq!(player.position.x, 31_900);
    player.knock_back(&enemy);
    assert_eq!(player.position.x, 29_900);
    player.knock_back(&enemy);
    assert_eq!(player.position.x, 29_900);
}
