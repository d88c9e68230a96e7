use metroidvania::{Enemy, EnemyKind, Game, KeyState, Player, Vector2};

fn run(game: &mut Game, ticks: usize) {
    for _ in 0..ticks {
        game.update();
    }
}

#[test]
fn new_game_starts_with_the_player_in_the_air() {
    let game = Game::new();
    let expected = Player {
        position: Vector2 { x: 10_000, y: 30_000 },
        velocity: Vector2 { x: 0, y: 0 },
        width: 3_200,
        height: 4_800,
        on_ground: false,
        facing_right: true,
        color: "#00ffff",
    };
    assert_eq!(*game.player(), expected);
    assert_eq!(*game.player(), Player::default());
    assert_eq!(game.get_player_position(), Vector2 { x: 10_000, y: 30_000 });
    assert_eq!(game.keys(), KeyState { left: false, right: false, jump: false });
}

#[test]
fn new_game_has_a_patroller_and_a_jumper() {
    let game = Game::new();
    let patroller = Enemy {
        position: Vector2 { x: 40_000, y: 40_000 },
        velocity: Vector2 { x: 200, y: 0 },
        width: 3_200,
        height: 3_200,
        health: 30,
        max_health: 30,
        color: "#ff6b6b",
        kind: EnemyKind::Patrol,
        move_direction: 1,
        move_range: 15_000,
        start_x: 40_000,
        on_ground: false,
    };
    let jumper = Enemy {
        position: Vector2 { x: 60_000, y: 45_000 },
        velocity: Vector2 { x: 150, y: 0 },
        width: 2_800,
        height: 2_800,
        health: 20,
        max_health: 20,
        color: "#ffd93d",
        kind: EnemyKind::Jumper,
        move_direction: -1,
        move_range: 10_000,
        start_x: 60_000,
        on_ground: false,
    };
    assert_eq!(*game.enemies(), vec![patroller, jumper]);
}

#[test]
fn first_tick_applies_gravity_to_everyone() {
    let mut game = Game::new();
    game.update();
    let player = game.player();
    assert_eq!(player.velocity, Vector2 { x: 0, y: 80 });
    assert_eq!(player.position, Vector2 { x: 10_000, y: 30_080 });
    assert!(!player.on_ground);
    let enemies = game.enemies();
    assert_eq!(enemies[0].position, Vector2 { x: 40_200, y: 40_048 });
    assert_eq!(enemies[0].velocity, Vector2 { x: 200, y: 48 });
    assert_eq!(enemies[1].position, Vector2 { x: 59_850, y: 45_048 });
    assert_eq!(enemies[1].velocity, Vector2 { x: 150, y: 48 });
}

#[test]
fn holding_right_walks_right() {
    let mut game = Game::new();
    game.handle_key_down("ArrowRight");
    game.update();
    assert_eq!(game.player().velocity.x, 500);
    assert!(game.player().facing_right);
    assert_eq!(game.player().position.x, 10_500);
}

#[test]
fn holding_left_walks_left() {
    let mut game = Game::new();
    game.handle_key_down("ArrowLeft");
    game.update();
    assert_eq!(game.player().velocity.x, -500);
    assert!(!game.player().facing_right);
    assert_eq!(game.player().position.x, 9_500);
}

#[test]
fn right_wins_when_both_directions_are_held() {
    let mut game = Game::new();
    game.handle_key_down("ArrowRight");
    game.handle_key_down("ArrowLeft");
    game.update();
    assert_eq!(game.player().velocity.x, 500);
    assert!(game.player().facing_right);
}

#[test]
fn releasing_the_key_stops_the_player_but_keeps_the_facing() {
    let mut game = Game::new();
    game.handle_key_down("ArrowLeft");
    game.update();
    game.handle_key_up("ArrowLeft");
    game.update();
    assert_eq!(game.player().velocity.x, 0);
    assert_eq!(game.player().position.x, 9_500);
    assert!(!game.player().facing_right);
}

#[test]
fn player_lands_on_the_ground_after_22_ticks() {
    let mut game = Game::new();
    run(&mut game, 21);
    assert_eq!(game.player().position, Vector2 { x: 10_000, y: 48_480 });
    assert_eq!(game.player().velocity.y, 1_680);
    assert!(!game.player().on_ground);
    game.update();
    assert_eq!(game.player().position, Vector2 { x: 10_000, y: 49_200 });
    assert_eq!(game.player().velocity.y, 0);
    assert!(game.player().on_ground);
}

#[test]
fn jump_key_on_the_ground_starts_a_jump() {
    let mut game = Game::new();
    run(&mut game, 22);
    assert!(game.player().on_ground);
    game.handle_key_down(" ");
    game.handle_input();
    assert_eq!(game.player().velocity.y, -1_500);
    assert!(!game.player().on_ground);
    assert_eq!(game.player().position.y, 49_200);
}

#[test]
fn a_whole_tick_with_the_jump_key_adds_gravity_to_the_jump() {
    let mut game = Game::new();
    run(&mut game, 22);
    game.handle_key_down(" ");
    game.update();
    assert_eq!(game.player().velocity.y, -1_420);
    assert_eq!(game.player().position.y, 47_780);
    assert!(!game.player().on_ground);
}

#[test]
fn jump_key_in_the_air_does_nothing() {
    let mut game = Game::new();
    game.update();
    game.handle_key_down(" ");
    game.handle_input();
    assert_eq!(game.player().velocity.y, 80);
    assert!(!game.player().on_ground);
}

#[test]
fn settles_after_200_idle_ticks() {
    let mut game = Game::new();
    run(&mut game, 200);
    let player = game.player();
    assert_eq!(player.velocity, Vector2 { x: 0, y: 0 });
    assert!(player.on_ground);
    assert_eq!(player.position, Vector2 { x: 10_000, y: 49_200 });
    assert_eq!(player.position.y + player.height, 54_000);
}

#[test]
fn patroller_turns_after_passing_its_range() {
    let mut game = Game::new();
    run(&mut game, 75);
    assert_eq!(game.enemies()[0].position.x, 55_000);
    assert_eq!(game.enemies()[0].move_direction, 1);
    game.update();
    assert_eq!(game.enemies()[0].position.x, 55_200);
    assert_eq!(game.enemies()[0].move_direction, -1);
    game.update();
    assert_eq!(game.enemies()[0].position.x, 55_000);
    assert_eq!(game.enemies()[0].move_direction, -1);
}

#[test]
fn jumper_lands_then_jumps_when_far_from_its_start() {
    let mut game = Game::new();
    run(&mut game, 16);
    assert_eq!(game.enemies()[1].position, Vector2 { x: 57_600, y: 51_200 });
    assert!(game.enemies()[1].on_ground);
    run(&mut game, 4);
    assert_eq!(game.enemies()[1].position, Vector2 { x: 57_000, y: 51_200 });
    assert!(game.enemies()[1].on_ground);
    game.update();
    assert_eq!(game.enemies()[1].position, Vector2 { x: 56_850, y: 50_248 });
    assert_eq!(game.enemies()[1].velocity.y, -952);
    assert!(!game.enemies()[1].on_ground);
}

#[test]
fn patroller_stays_on_the_ground() {
    let mut game = Game::new();
    run(&mut game, 21);
    assert_eq!(game.enemies()[0].position.y, 50_800);
    assert!(game.enemies()[0].on_ground);
    run(&mut game, 179);
    assert_eq!(game.enemies()[0].position, Vector2 { x: 30_400, y: 50_800 });
    assert_eq!(game.enemies()[0].velocity.y, 0);
    assert!(game.enemies()[0].on_ground);
}

#[test]
fn jumping_to_the_right_lands_on_the_first_platform() {
    let mut game = Game::new();
    run(&mut game, 22);
    game.handle_key_down("ArrowRight");
    game.handle_key_down(" ");
    game.update();
    game.handle_key_up(" ");
    run(&mut game, 17);
    assert_eq!(game.player().position, Vector2 { x: 19_000, y: 35_880 });
    assert_eq!(game.player().velocity.y, -60);
    run(&mut game, 10);
    assert!(!game.player().on_ground);
    game.update();
    assert_eq!(game.player().position, Vector2 { x: 24_500, y: 40_200 });
    assert_eq!(game.player().velocity, Vector2 { x: 500, y: 0 });
    assert!(game.player().on_ground);
}

#[test]
fn walking_off_a_platform_keeps_the_player_grounded() {
    let mut game = Game::new();
    run(&mut game, 22);
    game.handle_key_down("ArrowRight");
    game.handle_key_down(" ");
    game.update();
    game.handle_key_up(" ");
    run(&mut game, 28);
    assert_eq!(game.player().position, Vector2 { x: 24_500, y: 40_200 });
    run(&mut game, 31);
    assert_eq!(game.player().position, Vector2 { x: 40_000, y: 40_200 });
    assert!(game.player().on_ground);
    assert_eq!(game.player().velocity.y, 0);
}

#[test]
fn an_enemy_in_the_way_pushes_the_player_back() {
    let mut game = Game::new();
    game.handle_key_down("ArrowRight");
    run(&mut game, 76);
    assert_eq!(game.player().position, Vector2 { x: 48_000, y: 40_200 });
    game.handle_input();
    game.update_player();
    game.update_enemies();
    assert_eq!(game.player().position.x, 48_500);
    assert_eq!(game.player().velocity.x, 500);
    game.check_collisions();
    assert_eq!(game.player().position, Vector2 { x: 46_500, y: 40_200 });
    assert_eq!(game.player().velocity.x, -250);
    game.update();
    assert_eq!(game.player().position.x, 47_000);
    assert_eq!(game.player().velocity.x, 500);
}

#[test]
fn update_is_its_four_parts_in_order() {
    let mut whole = Game::new();
    let mut parts = Game::new();
    whole.handle_key_down("ArrowRight");
    parts.handle_key_down("ArrowRight");
    for tick in 0..300 {
        if tick == 30 {
            whole.handle_key_down(" ");
            parts.handle_key_down(" ");
        }
        whole.update();
        parts.handle_input();
        parts.update_player();
        parts.update_enemies();
        parts.check_collisions();
        assert_eq!(whole.player(), parts.player());
        assert_eq!(whole.enemies(), parts.enemies());
    }
}

#[test]
fn update_player_is_motion_then_platforms() {
    let mut game = Game::new();
    run(&mut game, 22);
    game.handle_key_down("ArrowRight");
    game.handle_key_down(" ");
    game.update();
    game.handle_key_up(" ");
    run(&mut game, 27);
    game.handle_input();
    let mut player = *game.player();
    player.integrate(80_000, 60_000);
    assert_eq!(player.position, Vector2 { x: 24_500, y: 40_500 });
    assert_eq!(player.velocity, Vector2 { x: 500, y: 820 });
    assert!(!player.on_ground);
    game.update_player();
    assert_eq!(game.player().position, Vector2 { x: 24_500, y: 40_200 });
    assert!(game.player().on_ground);
    game.check_platform_collisions();
    assert_eq!(game.player().position, Vector2 { x: 24_500, y: 40_200 });
}

#[test]
fn player_stays_on_the_canvas_in_every_frame() {
    let mut game = Game::new();
    let mut seed: u32 = 12_345;
    for _ in 0..5_000 {
        seed = seed.wrapping_mul(1_664_525).wrapping_add(1_013_904_223);
        let choice: u32 = (seed >> 24) % 8;
        match choice {
            0 => game.handle_key_down("ArrowLeft"),
            1 => game.handle_key_up("ArrowLeft"),
            2 | 3 => game.handle_key_down("ArrowRight"),
            4 => game.handle_key_up("ArrowRight"),
            5 => game.handle_key_down(" "),
            6 => game.handle_key_up(" "),
            _ => {}
        }
        game.update();
        let player = game.player();
        assert!(player.position.y + player.height <= 60_000 - 6_000);
        assert!(0 <= player.position.x);
        assert!(player.position.x <= 80_000 - player.width);
    }
}

#[test]
fn unbound_keys_are_ignored() {
    let mut game = Game::new();
    game.handle_key_down("Enter");
    game.handle_key_down("arrowright");
    game.handle_key_down("");
    game.handle_key_down("  ");
    assert_eq!(game.keys(), KeyState { left: false, right: false, jump: false });
    game.update();
    assert_eq!(game.player().velocity.x, 0);
}

#[test]
fn keys_are_staged_until_the_next_tick() {
    let mut game = Game::new();
    game.handle_key_down("ArrowLeft");
    game.handle_key_down(" ");
    assert_eq!(game.keys(), KeyState { left: true, right: false, jump: true });
    assert_eq!(*game.player(), Player::default());
    game.handle_key_up("ArrowLeft");
    game.handle_key_up("ArrowRight");
    assert_eq!(game.keys(), KeyState { left: false, right: false, jump: true });
}
