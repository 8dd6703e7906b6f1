use top_g_simulator::components::{Coffee, Enemy, Player, Star};
use top_g_simulator::events::{Events, GameStart};
use top_g_simulator::resources::{Enemies, GameState, Score};
use top_g_simulator::systems::{
    accept_place, direction_from_draws, edge_end, edge_position, game_start_event, place_enemy,
    random_direction, spawn_enemies, spawn_player, spawn_stars, GAME_START_BURST,
};
use top_g_simulator::utils::{is_collision, Vec2, Window, DIRECTION_ONE};

const PIXEL: i64 = 1_000_000_000;

fn full_hd() -> Window {
    Window { width: 1920, height: 1080 }
}

fn on_an_edge(place: Vec2) -> bool {
    let inside = -928 * PIXEL <= place.x
        && place.x <= 928 * PIXEL
        && -508 * PIXEL <= place.y
        && place.y <= 508 * PIXEL;
    let at_edge = place.x == 928 * PIXEL
        || place.x == -928 * PIXEL
        || place.y == 508 * PIXEL
        || place.y == -508 * PIXEL;
    inside && at_edge
}

fn player_at(x: i64, y: i64) -> Option<Player> {
    let mut player: Option<Player> = None;
    spawn_player(&mut player);
    let mut placed = player.unwrap();
    placed.position = Vec2 { x, y };
    Some(placed)
}

#[test]
fn spawner_fills_up_to_the_target_in_one_pass() {
    let mut target = Enemies { value: 4 };
    let mut enemies: Vec<Enemy> = Vec::new();
    let events: Events<GameStart> = Events::new();
    let player = player_at(0, 0);
    let deferred = spawn_enemies(Some(full_hd()), &mut target, &mut enemies, &events, &player);
    assert_eq!(deferred, 0);
    assert_eq!(enemies.len(), 4);
    assert_eq!(target.value, 4);
    for enemy in enemies.iter() {
        assert!(on_an_edge(enemy.position));
        assert!(!is_collision(enemy.position.x, enemy.position.y, 0, 0));
        assert!(0 <= enemy.direction.x && enemy.direction.x <= DIRECTION_ONE);
        assert!(0 <= enemy.direction.y && enemy.direction.y <= DIRECTION_ONE);
    }
    // A second pass finds nothing missing.
    let before = enemies.clone();
    let deferred = spawn_enemies(Some(full_hd()), &mut target, &mut enemies, &events, &player);
    assert_eq!(deferred, 0);
    assert_eq!(enemies, before);
}

#[test]
fn spawner_adds_only_what_is_missing() {
    let mut target = Enemies { value: 6 };
    let kept = Enemy { position: Vec2 { x: 1, y: 2 }, direction: Vec2 { x: 3, y: 4 } };
    let mut enemies: Vec<Enemy> = vec![kept, kept];
    let events: Events<GameStart> = Events::new();
    let deferred = spawn_enemies(Some(full_hd()), &mut target, &mut enemies, &events, &None);
    assert_eq!(deferred, 0);
    assert_eq!(enemies.len(), 6);
    assert_eq!(enemies[0], kept);
    assert_eq!(enemies[1], kept);
    assert_eq!(target.value, 6);
}

#[test]
fn spawner_raises_the_target_to_the_living() {
    let mut target = Enemies { value: 1 };
    let kept = Enemy { position: Vec2 { x: 1, y: 2 }, direction: Vec2 { x: 3, y: 4 } };
    let mut enemies: Vec<Enemy> = vec![kept, kept, kept];
    let events: Events<GameStart> = Events::new();
    let deferred = spawn_enemies(Some(full_hd()), &mut target, &mut enemies, &events, &None);
    assert_eq!(deferred, 0);
    assert_eq!(enemies.len(), 3);
    assert_eq!(target.value, 3);
}

#[test]
fn spawner_without_a_window_does_nothing() {
    let mut target = Enemies { value: 4 };
    let mut enemies: Vec<Enemy> = Vec::new();
    let mut events: Events<GameStart> = Events::new();
    events.send(GameStart {});
    let deferred = spawn_enemies(None, &mut target, &mut enemies, &events, &None);
    assert_eq!(deferred, 0);
    assert!(enemies.is_empty());
    assert_eq!(target.value, 4);
}

#[test]
fn new_game_starts_with_a_burst_of_four() {
    assert_eq!(GAME_START_BURST, 4);
    let old = Enemy { position: Vec2 { x: 0, y: 0 }, direction: Vec2 { x: 0, y: 0 } };
    let mut enemies: Vec<Enemy> = vec![old; 9];
    let mut target = Enemies { value: 9 };
    let mut score = Score { value: 17 };
    let mut phase = GameState::Menu;
    let mut events: Events<GameStart> = Events::new();
    events.send(GameStart {});
    assert!(game_start_event(&mut enemies, &mut score, &events, &mut phase, &mut target));
    assert!(enemies.is_empty());
    assert_eq!(target.value, 3);
    let player = player_at(0, 0);
    let deferred = spawn_enemies(Some(full_hd()), &mut target, &mut enemies, &events, &player);
    assert_eq!(deferred, 0);
    assert_eq!(enemies.len(), 4);
    assert_eq!(target.value, 4);
}

#[test]
fn blocked_spawns_are_put_off_until_unblocked() {
    // In a window no larger than an enemy every place is the centre, where
    // the player stands.
    let cramped = Window { width: 64, height: 64 };
    let mut target = Enemies { value: 4 };
    let mut enemies: Vec<Enemy> = Vec::new();
    let events: Events<GameStart> = Events::new();
    let player = player_at(0, 0);
    let deferred = spawn_enemies(Some(cramped), &mut target, &mut enemies, &events, &player);
    assert_eq!(deferred, 4);
    assert!(enemies.is_empty());
    assert_eq!(target.value, 4);
    assert_eq!(place_enemy(cramped, &player), None);
    // Once the player is gone the next pass reaches the target.
    let deferred = spawn_enemies(Some(cramped), &mut target, &mut enemies, &events, &None);
    assert_eq!(deferred, 0);
    assert_eq!(enemies.len(), 4);
    for enemy in enemies.iter() {
        assert_eq!(enemy.position, Vec2 { x: 0, y: 0 });
    }
}

#[test]
fn enemies_never_appear_on_the_player() {
    // The player stands on the top edge, so part of that edge is refused.
    let player = player_at(0, 508 * PIXEL);
    for _ in 0..300 {
        let place = place_enemy(full_hd(), &player).unwrap();
        assert!(on_an_edge(place));
        assert!(!is_collision(place.x, place.y, 0, 508 * PIXEL));
    }
}

#[test]
fn a_short_edge_is_left_by_one_of_its_ends() {
    // The spawn area is 65 pixels each way from the centre: the player on the
    // middle of the top edge is within reach of most of that edge, and of much
    // of the others.
    let window = Window { width: 194, height: 194 };
    let player = player_at(0, 65 * PIXEL);
    for _ in 0..300 {
        let place = place_enemy(window, &player).unwrap();
        assert!(place.x.abs() == 65 * PIXEL || place.y.abs() == 65 * PIXEL);
        assert!(place.x.abs() <= 65 * PIXEL && place.y.abs() <= 65 * PIXEL);
        assert!(!is_collision(place.x, place.y, 0, 65 * PIXEL));
    }
}

#[test]
fn edge_ends_are_the_corners() {
    let w = 928 * PIXEL;
    let h = 508 * PIXEL;
    assert_eq!(edge_end(full_hd(), 0, false), Vec2 { x: -w, y: h });
    assert_eq!(edge_end(full_hd(), 0, true), Vec2 { x: w, y: h });
    assert_eq!(edge_end(full_hd(), 1, false), Vec2 { x: -w, y: -h });
    assert_eq!(edge_end(full_hd(), 1, true), Vec2 { x: w, y: -h });
    assert_eq!(edge_end(full_hd(), 2, false), Vec2 { x: w, y: -h });
    assert_eq!(edge_end(full_hd(), 2, true), Vec2 { x: w, y: h });
    assert_eq!(edge_end(full_hd(), 3, false), Vec2 { x: -w, y: -h });
    assert_eq!(edge_end(full_hd(), 3, true), Vec2 { x: -w, y: h });
    assert_eq!(edge_end(full_hd(), 77, true), Vec2 { x: -w, y: h });
}

#[test]
fn a_place_is_taken_unless_it_touches_the_player() {
    let player = player_at(100 * PIXEL, 0);
    assert!(!accept_place(Vec2 { x: 100 * PIXEL, y: 64 * PIXEL }, &player));
    assert!(accept_place(Vec2 { x: 100 * PIXEL, y: 64 * PIXEL + 1 }, &player));
    assert!(accept_place(Vec2 { x: 100 * PIXEL, y: 0 }, &None));
}

#[test]
fn edge_positions_lie_on_their_edge() {
    for _ in 0..100 {
        assert_eq!(edge_position(full_hd(), 0).y, 508 * PIXEL);
        assert_eq!(edge_position(full_hd(), 1).y, -508 * PIXEL);
        assert_eq!(edge_position(full_hd(), 2).x, 928 * PIXEL);
        assert_eq!(edge_position(full_hd(), 3).x, -928 * PIXEL);
        assert_eq!(edge_position(full_hd(), 200).x, -928 * PIXEL);
        for edge in 0..4u8 {
            assert!(on_an_edge(edge_position(full_hd(), edge)));
        }
    }
}

#[test]
fn directions_are_unit_vectors_of_the_draws() {
    assert_eq!(direction_from_draws(300_000, 400_000), Vec2 { x: 600_000, y: 800_000 });
    assert_eq!(direction_from_draws(0, 5), Vec2 { x: 0, y: DIRECTION_ONE });
    assert_eq!(direction_from_draws(999_999, 999_999), Vec2 { x: 707_106, y: 707_106 });
    assert_eq!(direction_from_draws(0, 0), Vec2 { x: 0, y: 0 });
    for _ in 0..100 {
        let d = random_direction();
        assert!(0 <= d.x && d.x <= DIRECTION_ONE);
        assert!(0 <= d.y && d.y <= DIRECTION_ONE);
        let length_squared = (d.x as i128) * (d.x as i128) + (d.y as i128) * (d.y as i128);
        let one = (DIRECTION_ONE as i128) * (DIRECTION_ONE as i128);
        assert!(length_squared <= one);
        assert!(length_squared == 0 || length_squared > one - 4 * (DIRECTION_ONE as i128));
    }
}

#[test]
fn stars_are_replenished_to_four() {
    let mut stars: Vec<Star> = Vec::new();
    let mut coffee: Option<Coffee> = None;
    assert_eq!(spawn_stars(Some(full_hd()), &mut stars, &mut coffee), 4);
    assert_eq!(stars.len(), 4);
    for star in stars.iter() {
        assert!(-928 * PIXEL <= star.position.x && star.position.x < 928 * PIXEL);
        assert!(-508 * PIXEL <= star.position.y && star.position.y < 508 * PIXEL);
    }
    assert_eq!(spawn_stars(Some(full_hd()), &mut stars, &mut coffee), 0);
    let first = stars[0];
    stars.truncate(1);
    assert_eq!(spawn_stars(Some(full_hd()), &mut stars, &mut coffee), 3);
    assert_eq!(stars.len(), 4);
    assert_eq!(stars[0], first);
}

#[test]
fn stars_above_the_target_are_left_alone() {
    let star = Star { position: Vec2 { x: 7, y: 8 } };
    let mut stars: Vec<Star> = vec![star; 6];
    let mut coffee = Some(Coffee { position: Vec2 { x: 0, y: 0 }, collected: false });
    assert_eq!(spawn_stars(Some(full_hd()), &mut stars, &mut coffee), 0);
    assert_eq!(stars, vec![star; 6]);
    assert_eq!(coffee, Some(Coffee { position: Vec2 { x: 0, y: 0 }, collected: false }));
}

#[test]
fn a_collected_coffee_brings_twelve_stars_once() {
    let star = Star { position: Vec2 { x: 7, y: 8 } };
    let mut stars: Vec<Star> = vec![star; 3];
    let mut coffee = Some(Coffee { position: Vec2 { x: 0, y: 0 }, collected: true });
    assert_eq!(spawn_stars(Some(full_hd()), &mut stars, &mut coffee), 12);
    assert_eq!(stars.len(), 15);
    assert_eq!(coffee, None);
    assert_eq!(spawn_stars(Some(full_hd()), &mut stars, &mut coffee), 0);
    assert_eq!(stars.len(), 15);
}

#[test]
fn stars_wait_for_a_window() {
    let mut stars: Vec<Star> = Vec::new();
    let flagged = Some(Coffee { position: Vec2 { x: 0, y: 0 }, collected: true });
    let mut coffee = flagged;
    assert_eq!(spawn_stars(None, &mut stars, &mut coffee), 0);
    assert!(stars.is_empty());
    assert_eq!(coffee, flagged);
}
