//! The rules of the simulation written out in floating point, in pixels, and
//! a frame-by-frame comparison of the fixed-point game against them.

use metroidvania::{Enemy, EnemyKind, Game, Player};

struct FloatPlayer {
    x: f64,
    y: f64,
    vx: f64,
    vy: f64,
    width: f64,
    height: f64,
    on_ground: bool,
    facing_right: bool,
}

struct FloatEnemy {
    x: f64,
    y: f64,
    vx: f64,
    vy: f64,
    width: f64,
    height: f64,
    jumper: bool,
    direction: i32,
    range: f64,
    start_x: f64,
    on_ground: bool,
}

struct FloatGame {
    player: FloatPlayer,
    enemies: Vec<FloatEnemy>,
    left: bool,
    right: bool,
    jump: bool,
}

impl FloatGame {
    fn new() -> FloatGame {
        FloatGame {
            player: FloatPlayer {
                x: 100.0,
                y: 300.0,
                vx: 0.0,
                vy: 0.0,
                width: 32.0,
                height: 48.0,
                on_ground: false,
                facing_right: true,
            },
            enemies: vec![
                FloatEnemy {
                    x: 400.0,
                    y: 400.0,
                    vx: 2.0,
                    vy: 0.0,
                    width: 32.0,
                    height: 32.0,
                    jumper: false,
                    direction: 1,
                    range: 150.0,
                    start_x: 400.0,
                    on_ground: false,
                },
                FloatEnemy {
                    x: 600.0,
                    y: 450.0,
                    vx: 1.5,
                    vy: 0.0,
                    width: 28.0,
                    height: 28.0,
                    jumper: true,
                    direction: -1,
                    range: 100.0,
                    start_x: 600.0,
                    on_ground: false,
                },
            ],
            left: false,
            right: false,
            jump: false,
        }
    }

    fn update(&mut self) {
        let p = &mut self.player;
        p.vx = 0.0;
        if self.left {
            p.vx = -5.0;
            p.facing_right = false;
        }
        if self.right {
            p.vx = 5.0;
            p.facing_right = true;
        }
        if self.jump && p.on_ground {
            p.vy = -15.0;
            p.on_ground = false;
        }

        if !p.on_ground {
            p.vy += 0.8;
            p.vy = p.vy.min(20.0);
        }
        p.x += p.vx;
        p.y += p.vy;
        p.x = f64::max(0.0, f64::min(800.0 - p.width, p.x));
        let ground = 600.0 - 60.0;
        if p.y + p.height >= ground {
            p.y = ground - p.height;
            p.vy = 0.0;
            p.on_ground = true;
        }
        for (x, y, width, height) in
            [(200.0, 450.0, 120.0, 20.0), (400.0, 350.0, 100.0, 20.0), (550.0, 280.0, 150.0, 20.0)]
        {
            if p.x < x + width
                && p.x + p.width > x
                && p.y + p.height > y
                && p.y + p.height < y + height + 10.0
                && p.vy >= 0.0
            {
                p.y = y - p.height;
                p.vy = 0.0;
                p.on_ground = true;
            }
        }

        for e in self.enemies.iter_mut() {
            e.x += e.vx * e.direction as f64;
            if (e.x - e.start_x).abs() > e.range {
                e.direction *= -1;
            }
            if e.jumper && e.on_ground && (e.x - e.start_x).abs() > 30.0 {
                e.vy = -10.0;
                e.on_ground = false;
            }
            if !e.on_ground {
                e.vy += 0.8 * 0.6;
            }
            e.y += e.vy;
            if e.y + e.height >= ground {
                e.y = ground - e.height;
                e.vy = 0.0;
                e.on_ground = true;
            } else {
                e.on_ground = false;
            }
        }

        for e in self.enemies.iter() {
            if p.x < e.x + e.width
                && p.x + p.width > e.x
                && p.y < e.y + e.height
                && p.y + p.height > e.y
            {
                if p.x < e.x {
                    p.x -= 20.0;
                } else {
                    p.x += 20.0;
                }
                p.vx *= -0.5;
            }
        }
    }
}

fn units(pixels: f64) -> i64 {
    (pixels * 100.0).round() as i64
}

fn assert_same_player(tick: usize, fixed: &Player, float: &FloatPlayer) {
    assert_eq!(fixed.position.x, units(float.x), "player x at tick {}", tick);
    assert_eq!(fixed.position.y, units(float.y), "player y at tick {}", tick);
    assert_eq!(fixed.velocity.x, units(float.vx), "player vx at tick {}", tick);
    assert_eq!(fixed.velocity.y, units(float.vy), "player vy at tick {}", tick);
    assert_eq!(fixed.width, units(float.width));
    assert_eq!(fixed.height, units(float.height));
    assert_eq!(fixed.on_ground, float.on_ground, "player on_ground at tick {}", tick);
    assert_eq!(fixed.facing_right, float.facing_right, "player facing at tick {}", tick);
}

fn assert_same_enemy(tick: usize, fixed: &Enemy, float: &FloatEnemy) {
    assert_eq!(fixed.position.x, units(float.x), "enemy x at tick {}", tick);
    assert_eq!(fixed.position.y, units(float.y), "enemy y at tick {}", tick);
    assert_eq!(fixed.velocity.x, units(float.vx), "enemy vx at tick {}", tick);
    assert_eq!(fixed.velocity.y, units(float.vy), "enemy vy at tick {}", tick);
    assert_eq!(fixed.width, units(float.width));
    assert_eq!(fixed.height, units(float.height));
    assert_eq!(fixed.move_direction, float.direction, "enemy direction at tick {}", tick);
    assert_eq!(fixed.move_range, units(float.range));
    assert_eq!(fixed.start_x, units(float.start_x));
    assert_eq!(fixed.kind == EnemyKind::Jumper, float.jumper);
    assert_eq!(fixed.on_ground, float.on_ground, "enemy on_ground at tick {}", tick);
}

fn assert_same(tick: usize, fixed: &Game, float: &FloatGame) {
    assert_same_player(tick, fixed.player(), &float.player);
    assert_eq!(fixed.enemies().len(), float.enemies.len());
    for (a, b) in fixed.enemies().iter().zip(float.enemies.iter()) {
        assert_same_enemy(tick, a, b);
    }
}

fn set_key(fixed: &mut Game, float: &mut FloatGame, key: &str, held: bool) {
    if held {
        fixed.handle_key_down(key);
    } else {
        fixed.handle_key_up(key);
    }
    match key {
        "ArrowLeft" => float.left = held,
        "ArrowRight" => float.right = held,
        " " => float.jump = held,
        _ => {}
    }
}

fn play(seed: u32, ticks: usize, change_every: u32) {
    let mut fixed = Game::new();
    let mut float = FloatGame::new();
    assert_same(0, &fixed, &float);
    let mut state: u32 = seed;
    for tick in 1..=ticks {
        state = state.wrapping_mul(1_664_525).wrapping_add(1_013_904_223);
        if (state >> 8) % change_every == 0 {
            let key = ["ArrowLeft", "ArrowRight", " ", "ArrowRight", "x"][((state >> 16) % 5) as usize];
            let held: bool = (state >> 24) % 2 == 0;
            set_key(&mut fixed, &mut float, key, held);
        }
        fixed.update();
        float.update();
        assert_same(tick, &fixed, &float);
    }
}

#[test]
fn idle_game_agrees_with_floating_point() {
    let mut fixed = Game::new();
    let mut float = FloatGame::new();
    for tick in 1..=2_000 {
        fixed.update();
        float.update();
        assert_same(tick, &fixed, &float);
    }
}

#[test]
fn walk_to_the_right_agrees_with_floating_point() {
    let mut fixed = Game::new();
    let mut float = FloatGame::new();
    set_key(&mut fixed, &mut float, "ArrowRight", true);
    for tick in 1..=1_000 {
        fixed.update();
        float.update();
        assert_same(tick, &fixed, &float);
    }
}

#[test]
fn jumping_to_the_right_agrees_with_floating_point() {
    let mut fixed = Game::new();
    let mut float = FloatGame::new();
    set_key(&mut fixed, &mut float, "ArrowRight", true);
    set_key(&mut fixed, &mut float, " ", true);
    for tick in 1..=1_000 {
        fixed.update();
        float.update();
        assert_same(tick, &fixed, &float);
    }
}

#[test]
fn scripted_play_agrees_with_floating_point() {
    play(1, 3_000, 7);
    play(2, 3_000, 3);
    play(3, 3_000, 20);
    play(4, 3_000, 50);
    play(5, 3_000, 1);
}
