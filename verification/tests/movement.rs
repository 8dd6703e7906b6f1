use top_g_simulator::components::{Enemy, MovementKeys, Player};
use top_g_simulator::resources::Invincible;
use top_g_simulator::systems::{
    confine_enemy_to_window, enemy_movement, heading_of, player_movement, spawn_player,
    spawn_rainbow_player, update_player_colors, window_border_movement,
};
use top_g_simulator::timer::{Timer, TimerMode};
use top_g_simulator::utils::{Vec2, Window};

const PIXEL: i64 = 1_000_000_000;
const SECOND: u64 = 1_000_000_000;

fn keys(left: bool, right: bool, up: bool, down: bool) -> MovementKeys {
    MovementKeys { left, right, up, down }
}

fn player_on(x: i64, y: i64) -> Option<Player> {
    let mut player: Option<Player> = None;
    spawn_player(&mut player);
    let mut placed = player.unwrap();
    placed.position = Vec2 { x, y };
    Some(placed)
}

#[test]
fn player_enters_at_the_centre() {
    let mut player: Option<Player> = None;
    spawn_player(&mut player);
    assert_eq!(
        player,
        Some(Player {
            position: Vec2 { x: 0, y: 0 },
            timer: Timer::new(100_000_000, TimerMode::Repeating),
            color_index: 22,
        })
    );
    spawn_rainbow_player(&mut player);
    assert_eq!(player.unwrap().color_index, 0);
    assert_eq!(player.unwrap().position, Vec2 { x: 0, y: 0 });
}

#[test]
fn player_running_into_the_right_wall_is_held_at_928() {
    let window = Some(Window { width: 1920, height: 1080 });
    let mut player = player_on(500 * PIXEL, 0);
    player_movement(keys(false, true, false, false), &mut player, SECOND);
    assert_eq!(player.unwrap().position, Vec2 { x: 1000 * PIXEL, y: 0 });
    window_border_movement(window, &mut player);
    assert_eq!(player.unwrap().position, Vec2 { x: 928 * PIXEL, y: 0 });
    assert_eq!(player.unwrap().color_index, 22);
}

#[test]
fn player_is_held_at_every_wall() {
    let window = Some(Window { width: 1920, height: 1080 });
    let mut player = player_on(-2000 * PIXEL, 3000 * PIXEL);
    window_border_movement(window, &mut player);
    assert_eq!(player.unwrap().position, Vec2 { x: -928 * PIXEL, y: 508 * PIXEL });
    let mut player = player_on(12 * PIXEL, -509 * PIXEL);
    window_border_movement(window, &mut player);
    assert_eq!(player.unwrap().position, Vec2 { x: 12 * PIXEL, y: -508 * PIXEL });
    let mut inside = player_on(928 * PIXEL, -508 * PIXEL);
    window_border_movement(window, &mut inside);
    assert_eq!(inside.unwrap().position, Vec2 { x: 928 * PIXEL, y: -508 * PIXEL });
}

#[test]
fn player_is_left_alone_without_a_window() {
    let mut player = player_on(5000 * PIXEL, 0);
    window_border_movement(None, &mut player);
    assert_eq!(player.unwrap().position, Vec2 { x: 5000 * PIXEL, y: 0 });
    let mut nobody: Option<Player> = None;
    window_border_movement(Some(Window { width: 1920, height: 1080 }), &mut nobody);
    assert_eq!(nobody, None);
}

#[test]
fn held_keys_add_up_to_a_heading() {
    assert_eq!(heading_of(keys(false, false, false, false)), Vec2 { x: 0, y: 0 });
    assert_eq!(heading_of(keys(true, false, false, false)), Vec2 { x: -1, y: 0 });
    assert_eq!(heading_of(keys(false, true, true, false)), Vec2 { x: 1, y: 1 });
    assert_eq!(heading_of(keys(true, true, false, true)), Vec2 { x: 0, y: -1 });
    assert_eq!(heading_of(keys(true, true, true, true)), Vec2 { x: 0, y: 0 });
}

#[test]
fn player_moves_along_the_unit_vector_of_the_keys() {
    let mut player = player_on(0, 0);
    player_movement(keys(false, true, true, false), &mut player, SECOND);
    // 500 pixels along the diagonal: 707_106 millionths of them along each axis.
    assert_eq!(player.unwrap().position, Vec2 { x: 353_553_000_000, y: 353_553_000_000 });
    let mut player = player_on(0, 0);
    player_movement(keys(true, false, false, true), &mut player, 16_000_000);
    assert_eq!(player.unwrap().position, Vec2 { x: -5_656_848_000, y: -5_656_848_000 });
    let mut player = player_on(0, 0);
    player_movement(keys(false, false, false, true), &mut player, 16_000_000);
    assert_eq!(player.unwrap().position, Vec2 { x: 0, y: -8 * PIXEL });
}

#[test]
fn player_stands_still_when_keys_cancel() {
    let mut player = player_on(3, 4);
    player_movement(keys(true, true, false, false), &mut player, SECOND);
    assert_eq!(player.unwrap().position, Vec2 { x: 3, y: 4 });
    player_movement(keys(false, false, false, false), &mut player, SECOND);
    assert_eq!(player.unwrap().position, Vec2 { x: 3, y: 4 });
    let mut nobody: Option<Player> = None;
    player_movement(keys(false, true, false, false), &mut nobody, SECOND);
    assert_eq!(nobody, None);
}

#[test]
fn enemies_move_along_their_direction() {
    let mut enemies = vec![
        Enemy { position: Vec2 { x: 0, y: 0 }, direction: Vec2 { x: 600_000, y: 800_000 } },
        Enemy {
            position: Vec2 { x: 10 * PIXEL, y: -10 * PIXEL },
            direction: Vec2 { x: -1_000_000, y: 0 },
        },
        Enemy { position: Vec2 { x: 5, y: 5 }, direction: Vec2 { x: 0, y: 0 } },
    ];
    enemy_movement(&mut enemies, SECOND);
    assert_eq!(
        enemies,
        vec![
            Enemy {
                position: Vec2 { x: 120 * PIXEL, y: 160 * PIXEL },
                direction: Vec2 { x: 600_000, y: 800_000 },
            },
            Enemy {
                position: Vec2 { x: -190 * PIXEL, y: -10 * PIXEL },
                direction: Vec2 { x: -1_000_000, y: 0 },
            },
            Enemy { position: Vec2 { x: 5, y: 5 }, direction: Vec2 { x: 0, y: 0 } },
        ]
    );
}

#[test]
fn enemies_bounce_off_the_walls() {
    let window = Some(Window { width: 1920, height: 1080 });
    let mut enemies = vec![
        Enemy {
            position: Vec2 { x: 950 * PIXEL, y: 0 },
            direction: Vec2 { x: 600_000, y: 800_000 },
        },
        Enemy {
            position: Vec2 { x: -929 * PIXEL, y: -600 * PIXEL },
            direction: Vec2 { x: -600_000, y: -800_000 },
        },
        Enemy {
            position: Vec2 { x: 100 * PIXEL, y: 508 * PIXEL },
            direction: Vec2 { x: 600_000, y: 800_000 },
        },
    ];
    confine_enemy_to_window(window, &mut enemies);
    assert_eq!(
        enemies,
        vec![
            Enemy {
                position: Vec2 { x: 928 * PIXEL, y: 0 },
                direction: Vec2 { x: -600_000, y: 800_000 },
            },
            Enemy {
                position: Vec2 { x: -928 * PIXEL, y: -508 * PIXEL },
                direction: Vec2 { x: 600_000, y: 800_000 },
            },
            Enemy {
                position: Vec2 { x: 100 * PIXEL, y: 508 * PIXEL },
                direction: Vec2 { x: 600_000, y: 800_000 },
            },
        ]
    );
    let before = enemies.clone();
    confine_enemy_to_window(None, &mut enemies);
    assert_eq!(enemies, before);
}

#[test]
fn invincible_player_cycles_through_the_colours() {
    let mut player: Option<Player> = None;
    spawn_player(&mut player);
    assert_eq!(update_player_colors(&mut player, Invincible::On, 50_000_000), None);
    assert_eq!(player.unwrap().color_index, 22);
    assert_eq!(update_player_colors(&mut player, Invincible::On, 50_000_000), Some(1));
    assert_eq!(player.unwrap().color_index, 1);
    for expected in 2..22usize {
        assert_eq!(update_player_colors(&mut player, Invincible::On, 100_000_000), Some(expected));
    }
    assert_eq!(update_player_colors(&mut player, Invincible::On, 100_000_000), Some(0));
    assert_eq!(update_player_colors(&mut player, Invincible::On, 100_000_000), Some(1));
}

#[test]
fn plain_player_shows_the_plain_colour() {
    let mut player: Option<Player> = None;
    spawn_player(&mut player);
    let before = player;
    assert_eq!(update_player_colors(&mut player, Invincible::Off, 100_000_000), Some(0));
    assert_eq!(player, before);
    let mut nobody: Option<Player> = None;
    assert_eq!(update_player_colors(&mut nobody, Invincible::On, 100_000_000), None);
    assert_eq!(nobody, None);
}
