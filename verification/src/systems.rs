use vstd::prelude::*;
use crate::components::{
    color_under, button_color, ButtonColor, Coffee, Enemy, Interaction, Invinci, MovementKeys,
    Player, Star, COLOR_CYCLE_PERIOD, RAINBOW_COLORS,
};
use crate::events::{latest, Events, GameOver, GameStart};
use crate::random::{draw_below, random_below, random_byte};
use crate::resources::{
    Enemies, FixMenuTimer, FpsTracker, GameState, InvinciDurationTimer, Invincible,
    MrProducerState, MrProducerTimer, Score, SpawnCoffeeTimer, SpawnEnemyTimer,
    SpawnInvinciTimer, COFFEE_SPAWN_WINDOW, ENEMIES_AT_GAME_START, INVINCIBILITY_DURATION,
    INVINCI_SPAWN_WINDOW, JINGLE_DELAY_AFTER_COFFEE, JINGLE_DELAY_AFTER_INVINCI,
    JINGLE_HEAD_START, JINGLE_PERIOD,
};
use crate::timer::{advanced, Timer, TimerMode, NANOS_PER_SECOND};
use crate::utils::{
    advance, bounces, confine, confined, half_extent, half_extent_of, in_spawn_area, in_world,
    is_collision, is_direction, lemma_confined_in_world, lemma_normalized_has_unit_length,
    lemma_spawn_area_in_world, lemma_square_bounds, moved, normalize, normalized,
    random_coordinate, random_position, spawn_reach, spawn_reach_of, touching, Vec2, Window,
    DIRECTION_ONE, ENEMY_SIZE, ENEMY_SPEED, MAX_FRAME_DELTA, NUMBER_OF_STARS, PLAYER_SIZE,
    PLAYER_SPEED,
};

verus! {

/// Number of enemies that a new game starts with at once.
pub const GAME_START_BURST: usize = 4;

/// How often a place is drawn for one enemy before the enemy is put off.
pub const PLACEMENT_ATTEMPTS: u32 = 64;

/// By how much the star target is multiplied after a coffee.
pub const COFFEE_STAR_FACTOR: usize = 3;

/// Whether `p` lies on the edge numbered `edge` of the spawn area of `window`:
/// 0 is the top, 1 the bottom, 2 the right, anything else the left.
pub open spec fn on_edge(p: Vec2, window: Window, edge: u8) -> bool {
    &&& in_spawn_area(p, window)
    &&& if edge == 0 {
        p.y == spawn_reach(window.height)
    } else if edge == 1 {
        p.y == -spawn_reach(window.height)
    } else if edge == 2 {
        p.x == spawn_reach(window.width)
    } else {
        p.x == -spawn_reach(window.width)
    }
}

/// Whether `p` lies on one of the four edges of the spawn area of `window`.
pub open spec fn on_some_edge(p: Vec2, window: Window) -> bool {
    exists|edge: u8| edge < 4 && on_edge(p, window, edge)
}

/// Whether every edge of the spawn area is farther from `p` than the
/// collision threshold, so that no place on an edge is ever refused.
pub open spec fn edges_out_of_reach(p: Vec2, window: Window) -> bool {
    &&& spawn_reach(window.height) - p.y > PLAYER_SIZE
    &&& p.y + spawn_reach(window.height) > PLAYER_SIZE
    &&& spawn_reach(window.width) - p.x > PLAYER_SIZE
    &&& p.x + spawn_reach(window.width) > PLAYER_SIZE
}

/// No place on an edge touches a point from which the edges are out of reach.
pub proof fn lemma_edges_out_of_reach(p: Vec2, window: Window, place: Vec2)
    requires
        edges_out_of_reach(p, window),
        on_some_edge(place, window),
    ensures
        !touching(place, p),
{
    let dx = place.x - p.x;
    let dy = place.y - p.y;
    lemma_square_bounds(dx, PLAYER_SIZE as int);
    lemma_square_bounds(dy, PLAYER_SIZE as int);
    assert(dx * dx >= 0) by (nonlinear_arith);
    assert(dy * dy >= 0) by (nonlinear_arith);
}

/// Draws a place on the edge numbered `edge` of the spawn area.
pub fn edge_position(window: Window, edge: u8) -> (place: Vec2)
    ensures
        on_edge(place, window, edge),
{
    let width: i64 = spawn_reach_of(window.width);
    let height: i64 = spawn_reach_of(window.height);
    if edge == 0 {
        Vec2 { x: random_coordinate(width), y: height }
    } else if edge == 1 {
        Vec2 { x: random_coordinate(width), y: -height }
    } else if edge == 2 {
        Vec2 { x: width, y: random_coordinate(height) }
    } else {
        Vec2 { x: -width, y: random_coordinate(height) }
    }
}

/// Whether a place drawn for an enemy is taken: it is, unless it touches the
/// living player.
pub open spec fn place_accepted(place: Vec2, player: Option<Player>) -> bool {
    match player {
        Some(p) => !touching(place, p.position),
        None => true,
    }
}

/// Whether a place drawn for an enemy is taken.
pub fn accept_place(place: Vec2, player: &Option<Player>) -> (taken: bool)
    ensures
        taken == place_accepted(place, *player),
{
    match player {
        Some(p) => !is_collision(place.x, place.y, p.position.x, p.position.y),
        None => true,
    }
}

/// One of the two ends of the edge numbered `edge` of the spawn area: the
/// left or lower one, or with `far` the right or upper one.
pub open spec fn edge_end_of(window: Window, edge: u8, far: bool) -> Vec2 {
    let width = spawn_reach(window.width);
    let height = spawn_reach(window.height);
    let along_width = if far { width } else { -width };
    let along_height = if far { height } else { -height };
    if edge == 0 {
        Vec2 { x: along_width as i64, y: height as i64 }
    } else if edge == 1 {
        Vec2 { x: along_width as i64, y: (-height) as i64 }
    } else if edge == 2 {
        Vec2 { x: width as i64, y: along_height as i64 }
    } else {
        Vec2 { x: (-width) as i64, y: along_height as i64 }
    }
}

/// One of the two ends of the edge numbered `edge` of the spawn area.
pub fn edge_end(window: Window, edge: u8, far: bool) -> (place: Vec2)
    ensures
        place == edge_end_of(window, edge, far),
        on_edge(place, window, edge),
{
    let width: i64 = spawn_reach_of(window.width);
    let height: i64 = spawn_reach_of(window.height);
    let along_width: i64 = if far { width } else { -width };
    let along_height: i64 = if far { height } else { -height };
    if edge == 0 {
        Vec2 { x: along_width, y: height }
    } else if edge == 1 {
        Vec2 { x: along_width, y: -height }
    } else if edge == 2 {
        Vec2 { x: width, y: along_height }
    } else {
        Vec2 { x: -width, y: along_height }
    }
}

/// Whether the spawn area is more than two collision thresholds long and
/// high, so that no entity can block an edge from end to end.
pub open spec fn roomy(window: Window) -> bool {
    spawn_reach(window.width) > PLAYER_SIZE && spawn_reach(window.height) > PLAYER_SIZE
}

/// Of the two ends of an edge of a roomy window, at least one is clear of any
/// given point.
pub proof fn lemma_one_end_is_clear(p: Vec2, window: Window, edge: u8)
    requires
        roomy(window),
    ensures
        !touching(edge_end_of(window, edge, false), p) || !touching(
            edge_end_of(window, edge, true),
            p,
        ),
{
    let near = edge_end_of(window, edge, false);
    let far = edge_end_of(window, edge, true);
    lemma_square_bounds(near.x - p.x, PLAYER_SIZE as int);
    lemma_square_bounds(near.y - p.y, PLAYER_SIZE as int);
    lemma_square_bounds(far.x - p.x, PLAYER_SIZE as int);
    lemma_square_bounds(far.y - p.y, PLAYER_SIZE as int);
    assert((near.x - p.x) * (near.x - p.x) >= 0) by (nonlinear_arith);
    assert((near.y - p.y) * (near.y - p.y) >= 0) by (nonlinear_arith);
    assert((far.x - p.x) * (far.x - p.x) >= 0) by (nonlinear_arith);
    assert((far.y - p.y) * (far.y - p.y) >= 0) by (nonlinear_arith);
    assert(spawn_reach(window.width) <= u32::MAX * (crate::utils::UNITS_PER_PIXEL / 2)
        && spawn_reach(window.height) <= u32::MAX * (crate::utils::UNITS_PER_PIXEL / 2))
        by (nonlinear_arith)
        requires
            window.width <= u32::MAX,
            window.height <= u32::MAX,
            spawn_reach(window.width) <= window.width * (crate::utils::UNITS_PER_PIXEL / 2),
            spawn_reach(window.height) <= window.height * (crate::utils::UNITS_PER_PIXEL / 2),
            crate::utils::UNITS_PER_PIXEL / 2 >= 0,
    ;
}

/// Picks an edge of the spawn area at random and draws places on it until one
/// is accepted, `PLACEMENT_ATTEMPTS` times at most; after that the two ends of
/// the edge are tried. No place is found only where a player stands within
/// reach of an edge of a window that is not roomy.
pub fn place_enemy(window: Window, player: &Option<Player>) -> (found: Option<Vec2>)
    ensures
        match found {
            Some(place) => on_some_edge(place, window) && place_accepted(place, *player),
            None => player is Some && !edges_out_of_reach(player->0.position, window) && !roomy(
                window,
            ),
        },
{
    let edge: u8 = random_byte() % 4;
    let mut place: Vec2 = edge_position(window, edge);
    let mut attempts: u32 = 1;
    while !accept_place(place, player) && attempts < PLACEMENT_ATTEMPTS
        invariant
            on_edge(place, window, edge),
            edge < 4,
            attempts <= PLACEMENT_ATTEMPTS,
        decreases PLACEMENT_ATTEMPTS - attempts,
    {
        place = edge_position(window, edge);
        attempts = attempts + 1;
    }
    if accept_place(place, player) {
        return Some(place);
    }
    let near: Vec2 = edge_end(window, edge, false);
    if accept_place(near, player) {
        return Some(near);
    }
    let far: Vec2 = edge_end(window, edge, true);
    if accept_place(far, player) {
        return Some(far);
    }
    proof {
        if edges_out_of_reach(player->0.position, window) {
            lemma_edges_out_of_reach(player->0.position, window, place);
        }
        if roomy(window) {
            lemma_one_end_is_clear(player->0.position, window, edge);
        }
    }
    None
}

/// Whether `d` is a direction that points up and to the right, or along one
/// of these axes, or nowhere.
pub open spec fn heads_up_right(d: Vec2) -> bool {
    0 <= d.x <= DIRECTION_ONE && 0 <= d.y <= DIRECTION_ONE
}

/// The direction of an enemy for which `across` and `up` were drawn: the unit
/// vector along them.
pub open spec fn direction_of_draws(across: u64, up: u64) -> Vec2 {
    normalized(Vec2 { x: across as i64, y: up as i64 })
}

/// Whether `d` is the direction of some pair of draws below `DIRECTION_ONE`.
pub open spec fn is_drawn_direction(d: Vec2) -> bool {
    exists|across: u64, up: u64|
        across < DIRECTION_ONE && up < DIRECTION_ONE && d == #[trigger] direction_of_draws(
            across,
            up,
        )
}

/// The direction of an enemy for which `across` and `up` were drawn.
pub fn direction_from_draws(across: u64, up: u64) -> (direction: Vec2)
    requires
        across < DIRECTION_ONE,
        up < DIRECTION_ONE,
    ensures
        direction == direction_of_draws(across, up),
        is_drawn_direction(direction),
        heads_up_right(direction),
{
    let direction: Vec2 = normalize(Vec2 { x: across as i64, y: up as i64 });
    assert(direction == direction_of_draws(across, up));
    direction
}

/// Draws the direction of a new enemy.
pub fn random_direction() -> (direction: Vec2)
    ensures
        is_drawn_direction(direction),
        heads_up_right(direction),
{
    let across: u64 = random_below(DIRECTION_ONE as u64);
    let up: u64 = random_below(DIRECTION_ONE as u64);
    direction_from_draws(across, up)
}

/// A drawn direction points up and to the right and, unless both draws were
/// zero, is as long as `DIRECTION_ONE` up to rounding.
pub proof fn lemma_drawn_direction_is_unit(across: u64, up: u64)
    requires
        across < DIRECTION_ONE,
        up < DIRECTION_ONE,
    ensures
        ({
            let d = direction_of_draws(across, up);
            &&& is_direction(d)
            &&& across == 0 && up == 0 ==> d == (Vec2 { x: 0, y: 0 })
            &&& across != 0 || up != 0 ==> DIRECTION_ONE * DIRECTION_ONE - 4 * DIRECTION_ONE - 1
                <= d.x * d.x + d.y * d.y <= DIRECTION_ONE * DIRECTION_ONE
        }),
{
    let raw = Vec2 { x: across as i64, y: up as i64 };
    if across != 0 || up != 0 {
        lemma_normalized_has_unit_length(raw);
    }
}

/// How many enemies one pass of the spawner tries to add: the burst when a
/// new game was asked for, else what is missing to the target.
pub open spec fn enemies_wanted(game_start: bool, target: u32, live: nat) -> nat {
    if game_start {
        GAME_START_BURST as nat
    } else if target > live {
        (target - live) as nat
    } else {
        0
    }
}

/// What holds of an enemy that the spawner has just placed.
pub open spec fn newly_placed(enemy: Enemy, window: Window, player: Option<Player>) -> bool {
    &&& on_some_edge(enemy.position, window)
    &&& place_accepted(enemy.position, player)
    &&& is_drawn_direction(enemy.direction)
    &&& heads_up_right(enemy.direction)
}

/// An enemy that the spawner has just placed can be moved: its direction is
/// one, and it lies within the world.
pub proof fn lemma_newly_placed_can_move(enemy: Enemy, window: Window, player: Option<Player>)
    requires
        newly_placed(enemy, window, player),
    ensures
        enemy.wf(),
        in_world(enemy.position),
{
    lemma_spawn_area_in_world(enemy.position, window);
}

/// One pass of the enemy spawner. Without a window nothing happens. Else it
/// tries to add `enemies_wanted` enemies, each on an edge of the spawn area and
/// clear of the player; those for which no place was found are put off and
/// counted in the result, which is zero without a player, in a roomy window,
/// and where the player is out of reach of the edges. The target is raised to
/// the number of enemies alive where that is larger.
pub fn spawn_enemies(
    window: Option<Window>,
    number_of_enemies: &mut Enemies,
    enemies: &mut Vec<Enemy>,
    game_start: &Events<GameStart>,
    player: &Option<Player>,
) -> (deferred: usize)
    requires
        old(enemies)@.len() + GAME_START_BURST <= u32::MAX,
    ensures
        window is None ==> *final(enemies) == *old(enemies) && *final(number_of_enemies) == *old(number_of_enemies) && deferred == 0,
        window is Some ==> {
            &&& final(enemies)@.len() + deferred == old(enemies)@.len() + enemies_wanted(
                game_start@.len() > 0,
                old(number_of_enemies).value,
                old(enemies)@.len(),
            )
            &&& final(enemies)@.subrange(0, old(enemies)@.len() as int) == old(enemies)@
            &&& forall|i: int|
                old(enemies)@.len() <= i < final(enemies)@.len() ==> newly_placed(
                    #[trigger] final(enemies)@[i],
                    window->0,
                    *player,
                )
            &&& final(number_of_enemies).value == if final(enemies)@.len() > old(number_of_enemies).value {
                final(enemies)@.len() as u32
            } else {
                old(number_of_enemies).value
            }
            &&& (player is None || roomy(window->0) || edges_out_of_reach(
                player->0.position,
                window->0,
            )) ==> deferred == 0
        },
        final(number_of_enemies).value >= old(number_of_enemies).value,
        final(enemies)@.len() >= old(enemies)@.len(),
{
    let area: Window = match window {
        Some(w) => w,
        None => { return 0; },
    };
    let live: usize = enemies.len();
    let target: usize = number_of_enemies.value as usize;
    let wanted: usize = if game_start.last().is_some() {
        GAME_START_BURST
    } else if target > live {
        target - live
    } else {
        0
    };
    let mut deferred: usize = 0;
    let mut tried: usize = 0;
    while tried < wanted
        invariant
            tried <= wanted,
            live == old(enemies)@.len(),
            live + wanted <= u32::MAX,
            enemies@.len() + deferred == live + tried,
            deferred <= tried,
            enemies@.subrange(0, live as int) == old(enemies)@,
            forall|i: int|
                live <= i < enemies@.len() ==> newly_placed(#[trigger] enemies@[i], area, *player),
            (player is None || roomy(area) || edges_out_of_reach(player->0.position, area))
                ==> deferred == 0,
        decreases wanted - tried,
    {
        match place_enemy(area, player) {
            Some(place) => {
                let direction: Vec2 = random_direction();
                enemies.push(Enemy { position: place, direction });
            },
            None => {
                deferred = deferred + 1;
            },
        }
        tried = tried + 1;
        assert(enemies@.subrange(0, live as int) =~= old(enemies)@);
    }
    if enemies.len() > target {
        number_of_enemies.value = enemies.len() as u32;
    }
    deferred
}

/// How many stars one pass of the spawner adds: three times the usual number
/// after a coffee, else what is missing to the usual number.
pub open spec fn stars_wanted(live: nat, coffee: Option<Coffee>) -> nat {
    if coffee is Some && coffee->0.collected {
        (NUMBER_OF_STARS * COFFEE_STAR_FACTOR) as nat
    } else if live > NUMBER_OF_STARS {
        0
    } else {
        (NUMBER_OF_STARS - live) as nat
    }
}

/// The coffee slot once the star spawner has looked at it: a collected coffee
/// is gone, its flag spent.
pub open spec fn coffee_observed(coffee: Option<Coffee>) -> Option<Coffee> {
    if coffee is Some && coffee->0.collected {
        None
    } else {
        coffee
    }
}

/// One pass of the star spawner. Without a window nothing happens. Else the
/// coffee flag is spent and `stars_wanted` stars are added, each somewhere in
/// the spawn area.
pub fn spawn_stars(window: Option<Window>, stars: &mut Vec<Star>, coffee: &mut Option<Coffee>) -> (added: usize)
    ensures
        window is None ==> *final(stars) == *old(stars) && *final(coffee) == *old(coffee) && added
            == 0,
        window is Some ==> {
            &&& added == stars_wanted(old(stars)@.len(), *old(coffee))
            &&& final(stars)@.len() == old(stars)@.len() + added
            &&& final(stars)@.subrange(0, old(stars)@.len() as int) == old(stars)@
            &&& forall|i: int|
                old(stars)@.len() <= i < final(stars)@.len() ==> in_spawn_area(
                    (#[trigger] final(stars)@[i]).position,
                    window->0,
                )
            &&& *final(coffee) == coffee_observed(*old(coffee))
        },
{
    let area: Window = match window {
        Some(w) => w,
        None => { return 0; },
    };
    let live: usize = stars.len();
    let mut wanted: usize = if live > NUMBER_OF_STARS {
        0
    } else {
        NUMBER_OF_STARS - live
    };
    let seen: Option<Coffee> = *coffee;
    match seen {
        Some(cup) => {
            if cup.collected {
                *coffee = None;
                wanted = NUMBER_OF_STARS * COFFEE_STAR_FACTOR;
            }
        },
        None => {},
    }
    let mut added: usize = 0;
    while added < wanted
        invariant
            added <= wanted <= NUMBER_OF_STARS * COFFEE_STAR_FACTOR,
            live == old(stars)@.len(),
            stars@.len() == live + added,
            stars@.subrange(0, live as int) == old(stars)@,
            forall|i: int|
                live <= i < stars@.len() ==> in_spawn_area((#[trigger] stars@[i]).position, area),
        decreases wanted - added,
    {
        let place: Vec2 = random_position(area);
        stars.push(Star { position: place });
        added = added + 1;
        assert(stars@.subrange(0, live as int) =~= old(stars)@);
    }
    added
}

/// The stars that the player at `at` leaves behind: those it does not touch.
pub open spec fn stars_left(stars: Seq<Star>, at: Vec2) -> Seq<Star> {
    stars.filter(|star: Star| !touching(star.position, at))
}

/// The player collects every star it touches: the star goes and the score
/// rises by one. Without a player nothing happens.
pub fn collect_stars(stars: &mut Vec<Star>, player: &Option<Player>, score: &mut Score) -> (collected: u32)
    requires
        old(score).value + old(stars)@.len() <= u32::MAX,
    ensures
        player is None ==> *final(stars) == *old(stars) && *final(score) == *old(score)
            && collected == 0,
        player is Some ==> final(stars)@ == stars_left(old(stars)@, player->0.position),
        collected == old(stars)@.len() - final(stars)@.len(),
        final(score).value == old(score).value + collected,
        final(score).value >= old(score).value,
{
    let at: Vec2 = match player {
        Some(p) => p.position,
        None => { return 0; },
    };
    let ghost keep = |star: Star| !touching(star.position, at);
    let mut left: Vec<Star> = Vec::new();
    let mut collected: u32 = 0;
    let mut i: usize = 0;
    proof {
        reveal(Seq::filter);
        assert(stars@.take(0).filter(keep) =~= Seq::<Star>::empty());
    }
    while i < stars.len()
        invariant
            i <= stars@.len(),
            *stars == *old(stars),
            *score == *old(score),
            keep == |star: Star| !touching(star.position, at),
            left@ == stars@.take(i as int).filter(keep),
            collected + left@.len() == i,
            score.value + stars@.len() <= u32::MAX,
        decreases stars@.len() - i,
    {
        let star: Star = stars[i];
        proof {
            reveal(Seq::filter);
            assert(stars@.take(i + 1).drop_last() =~= stars@.take(i as int));
            assert(stars@.take(i + 1).last() == star);
        }
        if is_collision(star.position.x, star.position.y, at.x, at.y) {
            collected = collected + 1;
        } else {
            left.push(star);
        }
        i = i + 1;
    }
    assert(stars@.take(stars@.len() as int) =~= stars@);
    *stars = left;
    score.value = score.value + collected;
    collected
}

/// Whether one of the enemies touches the point `at`.
pub open spec fn any_enemy_touches(enemies: Seq<Enemy>, at: Vec2) -> bool {
    exists|i: int| 0 <= i < enemies.len() && touching((#[trigger] enemies[i]).position, at)
}

/// Whether the player dies this frame: it is alive, not invincible, and an
/// enemy touches it.
pub open spec fn player_dies(player: Option<Player>, enemies: Seq<Enemy>, invincible: Invincible) -> bool {
    &&& player is Some
    &&& invincible == Invincible::Off
    &&& any_enemy_touches(enemies, player->0.position)
}

/// Tests the player against every enemy. Where the player dies it is removed
/// and one `GameOver` with the current score is raised; else nothing changes.
pub fn detect_collision(
    player: &mut Option<Player>,
    enemies: &Vec<Enemy>,
    game_over_events: &mut Events<GameOver>,
    invincible: Invincible,
    score: &Score,
) -> (died: bool)
    ensures
        died == player_dies(*old(player), enemies@, invincible),
        died ==> *final(player) == None::<Player> && final(game_over_events)@ == old(game_over_events)@.push(GameOver { score: score.value }),
        !died ==> *final(player) == *old(player) && final(game_over_events)@ == old(game_over_events)@,
{
    let at: Vec2 = match *player {
        Some(p) => p.position,
        None => { return false; },
    };
    match invincible {
        Invincible::On => { return false; },
        Invincible::Off => {},
    }
    let mut i: usize = 0;
    while i < enemies.len()
        invariant
            i <= enemies@.len(),
            *player == *old(player),
            *player matches Some(p) && p.position == at,
            invincible == Invincible::Off,
            game_over_events@ == old(game_over_events)@,
            forall|j: int| 0 <= j < i ==> !touching((#[trigger] enemies@[j]).position, at),
        decreases enemies@.len() - i,
    {
        let enemy: Enemy = enemies[i];
        if is_collision(enemy.position.x, enemy.position.y, at.x, at.y) {
            *player = None;
            game_over_events.send(GameOver { score: score.value });
            return true;
        }
        i = i + 1;
    }
    false
}

/// Colour index that a player starts with in the plain game; the cycle goes
/// on from it to colour 1.
pub const PLAIN_START_COLOR: usize = 22;

/// Puts the player on the field, at the centre.
pub fn spawn_player(player: &mut Option<Player>)
    ensures
        *final(player) == Some(Player::at_start(PLAIN_START_COLOR)),
{
    *player = Some(
        Player {
            position: Vec2 { x: 0, y: 0 },
            timer: Timer::new(COLOR_CYCLE_PERIOD, TimerMode::Repeating),
            color_index: PLAIN_START_COLOR,
        },
    );
}

/// Puts the player on the field, at the centre, its colour cycle at the start.
pub fn spawn_rainbow_player(player: &mut Option<Player>)
    ensures
        *final(player) == Some(Player::at_start(0)),
{
    *player = Some(
        Player {
            position: Vec2 { x: 0, y: 0 },
            timer: Timer::new(COLOR_CYCLE_PERIOD, TimerMode::Repeating),
            color_index: 0,
        },
    );
}

/// Whether a change of phase puts the player on the field: it does when the
/// menu is left.
pub open spec fn leaves_menu(before: GameState, after: GameState) -> bool {
    before == GameState::Menu && after != GameState::Menu
}

/// Acts on the change of phase that a frame has brought: when the menu was
/// left, the player is put on the field.
pub fn on_phase_change(before: GameState, after: GameState, player: &mut Option<Player>) -> (entered: bool)
    ensures
        entered == leaves_menu(before, after),
        entered ==> *final(player) == Some(Player::at_start(PLAIN_START_COLOR)),
        !entered ==> *final(player) == *old(player),
{
    let was_menu: bool = match before {
        GameState::Menu => true,
        _ => false,
    };
    let is_menu: bool = match after {
        GameState::Menu => true,
        _ => false,
    };
    if was_menu && !is_menu {
        spawn_player(player);
        true
    } else {
        false
    }
}

/// The colour that follows `index` in the cycle.
pub open spec fn next_color(index: usize) -> usize {
    ((index + 1) % (RAINBOW_COLORS as int)) as usize
}

/// The player after a frame of `delta` nanoseconds as far as its colour goes:
/// while invincible its cycle timer runs, and the colour moves on when the
/// timer is finished.
pub open spec fn recolored(p: Player, invincible: Invincible, delta: u64) -> Player {
    if invincible == Invincible::On {
        let timer = advanced(p.timer, delta);
        Player {
            position: p.position,
            timer,
            color_index: if timer.finished {
                next_color(p.color_index)
            } else {
                p.color_index
            },
        }
    } else {
        p
    }
}

/// The colour to paint the player in, if it is to be painted anew: the plain
/// one while not invincible; the next of the cycle when the cycle moves on.
pub open spec fn color_to_show(p: Player, invincible: Invincible, delta: u64) -> Option<usize> {
    if invincible == Invincible::Off {
        Some(0usize)
    } else if advanced(p.timer, delta).finished {
        Some(next_color(p.color_index))
    } else {
        None
    }
}

/// Runs the player's colour cycle for one frame and tells the colour to
/// paint it in, if any. Without a player nothing happens.
pub fn update_player_colors(player: &mut Option<Player>, invincible: Invincible, delta: u64) -> (shown: Option<usize>)
    ensures
        match *old(player) {
            Some(p) => *final(player) == Some(recolored(p, invincible, delta)) && shown
                == color_to_show(p, invincible, delta),
            None => *final(player) == None::<Player> && shown == None::<usize>,
        },
{
    let snapshot: Option<Player> = *player;
    match snapshot {
        Some(p) => {
            match invincible {
                Invincible::On => {
                    let mut timer: Timer = p.timer;
                    timer.tick(delta);
                    if timer.finished() {
                        let next: usize = (p.color_index % RAINBOW_COLORS + 1) % RAINBOW_COLORS;
                        *player = Some(Player { position: p.position, timer, color_index: next });
                        Some(next)
                    } else {
                        *player = Some(
                            Player { position: p.position, timer, color_index: p.color_index },
                        );
                        None
                    }
                },
                Invincible::Off => Some(0),
            }
        },
        None => None,
    }
}

/// Whether the events of the frame start a new game: they do if there is any.
pub open spec fn game_starts(events: Seq<GameStart>) -> bool {
    latest(events) is Some
}

/// The phase after the `GameStart` events of a frame were read.
pub open spec fn phase_after_game_start(events: Seq<GameStart>, phase: GameState) -> GameState {
    if game_starts(events) {
        GameState::Game
    } else {
        phase
    }
}

/// The score after the `GameStart` events of a frame were read.
pub open spec fn score_after_game_start(events: Seq<GameStart>, score: u32) -> u32 {
    if game_starts(events) {
        0
    } else {
        score
    }
}

/// The enemy target after the `GameStart` events of a frame were read.
pub open spec fn target_after_game_start(events: Seq<GameStart>, target: u32) -> u32 {
    if game_starts(events) {
        ENEMIES_AT_GAME_START
    } else {
        target
    }
}

/// The enemies after the `GameStart` events of a frame were read.
pub open spec fn enemies_after_game_start(events: Seq<GameStart>, enemies: Seq<Enemy>) -> Seq<Enemy> {
    if game_starts(events) {
        Seq::<Enemy>::empty()
    } else {
        enemies
    }
}

/// Reads the `GameStart` events of the frame. If there is any, a new game
/// starts, once: the enemies go, the score is zero, the enemy target is
/// `ENEMIES_AT_GAME_START` and the phase is `Game`.
pub fn game_start_event(
    enemies: &mut Vec<Enemy>,
    score: &mut Score,
    events: &Events<GameStart>,
    game_state: &mut GameState,
    number_of_enemies: &mut Enemies,
) -> (started: bool)
    ensures
        started == game_starts(events@),
        final(enemies)@ == enemies_after_game_start(events@, old(enemies)@),
        final(score).value == score_after_game_start(events@, old(score).value),
        *final(game_state) == phase_after_game_start(events@, *old(game_state)),
        final(number_of_enemies).value == target_after_game_start(
            events@,
            old(number_of_enemies).value,
        ),
{
    if events.last().is_some() {
        enemies.clear();
        number_of_enemies.value = ENEMIES_AT_GAME_START;
        score.value = 0;
        *game_state = GameState::Game;
        true
    } else {
        false
    }
}

/// However many `GameStart` events a frame holds, one or more, the phase, the
/// score, the enemy target and the enemies come out as after a single one.
pub proof fn lemma_game_starts_collapse(
    events: Seq<GameStart>,
    phase: GameState,
    score: u32,
    target: u32,
    enemies: Seq<Enemy>,
)
    requires
        events.len() >= 1,
    ensures
        phase_after_game_start(events, phase) == phase_after_game_start(seq![GameStart {  }], phase),
        score_after_game_start(events, score) == score_after_game_start(seq![GameStart {  }], score),
        target_after_game_start(events, target) == target_after_game_start(
            seq![GameStart {  }],
            target,
        ),
        enemies_after_game_start(events, enemies) == enemies_after_game_start(
            seq![GameStart {  }],
            enemies,
        ),
        score_after_game_start(events, score) == 0,
        phase_after_game_start(events, phase) == GameState::Game,
{
    assert(seq![GameStart {  }].len() == 1);
}

/// The phase after the `GameOver` events of a frame were read: the menu, if
/// there is any.
pub open spec fn phase_after_game_over(events: Seq<GameOver>, phase: GameState) -> GameState {
    if latest(events) is Some {
        GameState::Menu
    } else {
        phase
    }
}

/// Reads the `GameOver` events of the frame and hands back the last one. If
/// there is any, the phase is `Menu`.
pub fn game_over_event_receiver(events: &Events<GameOver>, game_state: &mut GameState) -> (over: Option<GameOver>)
    ensures
        over == latest(events@),
        *final(game_state) == phase_after_game_over(events@, *old(game_state)),
{
    let over: Option<GameOver> = events.last();
    if over.is_some() {
        *game_state = GameState::Menu;
    }
    over
}

/// The enemy target after the growth timer has fired `firings` times.
pub open spec fn target_after_firings(target: nat, firings: nat) -> nat
    decreases firings,
{
    if firings == 0 {
        target
    } else {
        target_after_firings(target, (firings - 1) as nat) + 1
    }
}

/// Each firing of the growth timer adds one to the enemy target.
pub proof fn lemma_target_after_firings(target: nat, firings: nat)
    ensures
        target_after_firings(target, firings) == target + firings,
    decreases firings,
{
    if firings > 0 {
        lemma_target_after_firings(target, (firings - 1) as nat);
    }
}

/// A pass of the spawner in which no enemy is put off, and which no new game
/// interferes with, brings the number of enemies up to the target.
pub proof fn lemma_spawner_reaches_target(target: u32, live: nat)
    requires
        live <= target,
    ensures
        live + enemies_wanted(false, target, live) == target,
{
}

/// Runs the growth timer for one frame. When it is finished the enemy target
/// rises by one.
pub fn tick_enemy_timer(enemy_timer: &mut SpawnEnemyTimer, number_of_enemies: &mut Enemies, delta: u64)
    requires
        advanced(old(enemy_timer).timer, delta).finished ==> old(number_of_enemies).value
            < u32::MAX,
    ensures
        final(enemy_timer).timer == advanced(old(enemy_timer).timer, delta),
        final(number_of_enemies).value == target_after_firings(
            old(number_of_enemies).value as nat,
            if final(enemy_timer).timer.finished {
                1nat
            } else {
                0nat
            },
        ),
        final(number_of_enemies).value >= old(number_of_enemies).value,
{
    enemy_timer.timer.tick(delta);
    if enemy_timer.timer.finished() {
        proof {
            lemma_target_after_firings(number_of_enemies.value as nat, 1);
        }
        number_of_enemies.value = number_of_enemies.value + 1;
    } else {
        proof {
            lemma_target_after_firings(number_of_enemies.value as nat, 0);
        }
    }
}

/// A timer given a new duration and started over.
pub open spec fn restarted(t: Timer, duration: u64) -> Timer {
    Timer { elapsed: 0, duration, mode: t.mode, finished: false, times_finished_this_tick: 0 }
}

/// A timer given a new duration and a new elapsed time, its flags untouched.
pub open spec fn rescheduled(t: Timer, duration: u64, elapsed: u64) -> Timer {
    Timer { elapsed, duration, ..t }
}

/// Runs the coffee timer for one frame. When it has just finished, a coffee
/// is put somewhere in the spawn area, taking the place of any that is there,
/// and the timer starts over with a period drawn from the spawn window, in
/// whole seconds. Without a window nothing happens.
pub fn spawn_coffee(
    window: Option<Window>,
    coffee: &mut Option<Coffee>,
    coffee_spawn_timer: &mut SpawnCoffeeTimer,
    delta: u64,
) -> (spawned: bool)
    ensures
        window is None ==> !spawned && *final(coffee) == *old(coffee) && final(coffee_spawn_timer).timer == old(coffee_spawn_timer).timer,
        window is Some ==> spawned == (advanced(
            old(coffee_spawn_timer).timer,
            delta,
        ).times_finished_this_tick > 0),
        window is Some && !spawned ==> *final(coffee) == *old(coffee) && final(coffee_spawn_timer).timer == advanced(old(coffee_spawn_timer).timer, delta),
        spawned ==> {
            &&& *final(coffee) matches Some(cup)
            &&& !cup.collected
            &&& in_spawn_area(cup.position, window->0)
            &&& final(coffee_spawn_timer).timer == restarted(
                old(coffee_spawn_timer).timer,
                final(coffee_spawn_timer).timer.duration,
            )
            &&& final(coffee_spawn_timer).timer.duration < COFFEE_SPAWN_WINDOW * NANOS_PER_SECOND
            &&& final(coffee_spawn_timer).timer.duration % NANOS_PER_SECOND == 0
        },
{
    let area: Window = match window {
        Some(w) => w,
        None => { return false; },
    };
    coffee_spawn_timer.timer.tick(delta);
    if coffee_spawn_timer.timer.just_finished() {
        let place: Vec2 = random_position(area);
        *coffee = Some(Coffee { position: place, collected: false });
        let seconds: u64 = draw_below(&mut coffee_spawn_timer.rng, COFFEE_SPAWN_WINDOW);
        coffee_spawn_timer.timer.set_duration(seconds * NANOS_PER_SECOND);
        coffee_spawn_timer.timer.reset();
        true
    } else {
        false
    }
}

/// Whether the player picks the coffee up: both are there, the coffee is not
/// collected yet, and they touch.
pub open spec fn coffee_picked(coffee: Option<Coffee>, player: Option<Player>) -> bool {
    &&& player is Some
    &&& coffee is Some
    &&& !coffee->0.collected
    &&& touching(coffee->0.position, player->0.position)
}

/// The player picks up the coffee it touches: the coffee is flagged as
/// collected for the star spawner to see, and the next jingle is due after
/// `JINGLE_DELAY_AFTER_COFFEE`. Else nothing changes.
pub fn collect_coffee(
    coffee: &mut Option<Coffee>,
    player: &Option<Player>,
    mr_producer_timer: &mut MrProducerTimer,
) -> (picked: bool)
    ensures
        picked == coffee_picked(*old(coffee), *player),
        picked ==> *final(coffee) == Some(
            Coffee { position: old(coffee)->0.position, collected: true },
        ) && final(mr_producer_timer).timer == rescheduled(
            old(mr_producer_timer).timer,
            JINGLE_DELAY_AFTER_COFFEE,
            0,
        ),
        !picked ==> *final(coffee) == *old(coffee) && *final(mr_producer_timer) == *old(mr_producer_timer),
{
    let at: Vec2 = match player {
        Some(p) => p.position,
        None => { return false; },
    };
    let seen: Option<Coffee> = *coffee;
    match seen {
        Some(cup) => {
            if !cup.collected && is_collision(cup.position.x, cup.position.y, at.x, at.y) {
                mr_producer_timer.timer.set_duration(JINGLE_DELAY_AFTER_COFFEE);
                mr_producer_timer.timer.set_elapsed(0);
                *coffee = Some(Coffee { position: cup.position, collected: true });
                true
            } else {
                false
            }
        },
        None => false,
    }
}

/// Whether a pickup appears: the timer is finished after the frame, no pickup
/// is there, and the player is not invincible.
pub open spec fn invinci_appears(
    timer: Timer,
    delta: u64,
    invinci: Option<Invinci>,
    invincible: Invincible,
) -> bool {
    &&& advanced(timer, delta).finished
    &&& invinci is None
    &&& invincible == Invincible::Off
}

/// Runs the pickup timer for one frame. When a pickup appears it is put
/// somewhere in the spawn area and the timer starts over with a period drawn
/// from the spawn window, in whole seconds. Without a window nothing happens.
pub fn spawn_invincibility(
    window: Option<Window>,
    invinci_spawn_timer: &mut SpawnInvinciTimer,
    invinci: &mut Option<Invinci>,
    invincible: Invincible,
    delta: u64,
) -> (spawned: bool)
    ensures
        window is None ==> !spawned && *final(invinci) == *old(invinci) && final(invinci_spawn_timer).timer == old(invinci_spawn_timer).timer,
        window is Some ==> spawned == invinci_appears(
            old(invinci_spawn_timer).timer,
            delta,
            *old(invinci),
            invincible,
        ),
        window is Some && !spawned ==> *final(invinci) == *old(invinci) && final(invinci_spawn_timer).timer == advanced(old(invinci_spawn_timer).timer, delta),
        spawned ==> {
            &&& *final(invinci) matches Some(pickup)
            &&& in_spawn_area(pickup.position, window->0)
            &&& final(invinci_spawn_timer).timer == restarted(
                old(invinci_spawn_timer).timer,
                final(invinci_spawn_timer).timer.duration,
            )
            &&& final(invinci_spawn_timer).timer.duration < INVINCI_SPAWN_WINDOW * NANOS_PER_SECOND
            &&& final(invinci_spawn_timer).timer.duration % NANOS_PER_SECOND == 0
        },
{
    let area: Window = match window {
        Some(w) => w,
        None => { return false; },
    };
    invinci_spawn_timer.timer.tick(delta);
    let exists: bool = invinci.is_some();
    let off: bool = match invincible {
        Invincible::Off => true,
        Invincible::On => false,
    };
    if invinci_spawn_timer.timer.finished() && !exists && off {
        let place: Vec2 = random_position(area);
        *invinci = Some(Invinci { position: place });
        let seconds: u64 = draw_below(&mut invinci_spawn_timer.rng, INVINCI_SPAWN_WINDOW);
        invinci_spawn_timer.timer.set_duration(seconds * NANOS_PER_SECOND);
        invinci_spawn_timer.timer.reset();
        true
    } else {
        false
    }
}

/// A pickup appears only while the player is not invincible and no other
/// pickup is there.
pub proof fn lemma_invinci_appears_alone(
    timer: Timer,
    delta: u64,
    invinci: Option<Invinci>,
    invincible: Invincible,
)
    requires
        invinci_appears(timer, delta, invinci, invincible),
    ensures
        invincible != Invincible::On,
        invinci is None,
{
}

/// What happened to the player's invincibility in a frame.
#[derive(Clone, Copy, Debug, PartialEq, Eq, Structural)]
pub enum InvinciOutcome {
    /// Nothing.
    Unchanged,
    /// It ran out.
    Expired,
    /// The player picked it up.
    Collected,
}

/// Whether the player picks the pickup up: both are there and they touch.
pub open spec fn invinci_picked(invinci: Option<Invinci>, player: Option<Player>) -> bool {
    &&& player is Some
    &&& invinci is Some
    &&& touching(invinci->0.position, player->0.position)
}

/// One frame of invincibility. While it is on, its timer runs, and when it
/// has just finished invincibility goes off. While it is off, a player that
/// touches the pickup takes it: the pickup goes, invincibility comes on for
/// `INVINCIBILITY_DURATION`, and the next jingle is due after
/// `JINGLE_DELAY_AFTER_INVINCI`.
pub fn collect_invincibility(
    invincible: &mut Invincible,
    invinci: &mut Option<Invinci>,
    player: &Option<Player>,
    mr_producer_timer: &mut MrProducerTimer,
    invinci_duration_timer: &mut InvinciDurationTimer,
    delta: u64,
) -> (outcome: InvinciOutcome)
    ensures
        *old(invincible) == Invincible::On ==> {
            &&& final(invinci_duration_timer).timer == advanced(
                old(invinci_duration_timer).timer,
                delta,
            )
            &&& *final(invinci) == *old(invinci)
            &&& *final(mr_producer_timer) == *old(mr_producer_timer)
            &&& if final(invinci_duration_timer).timer.times_finished_this_tick > 0 {
                *final(invincible) == Invincible::Off && outcome == InvinciOutcome::Expired
            } else {
                *final(invincible) == Invincible::On && outcome == InvinciOutcome::Unchanged
            }
        },
        *old(invincible) == Invincible::Off && invinci_picked(*old(invinci), *player) ==> {
            &&& outcome == InvinciOutcome::Collected
            &&& *final(invincible) == Invincible::On
            &&& *final(invinci) == None::<Invinci>
            &&& final(mr_producer_timer).timer == rescheduled(
                old(mr_producer_timer).timer,
                JINGLE_DELAY_AFTER_INVINCI,
                0,
            )
            &&& final(invinci_duration_timer).timer == restarted(
                old(invinci_duration_timer).timer,
                INVINCIBILITY_DURATION,
            )
        },
        *old(invincible) == Invincible::Off && !invinci_picked(*old(invinci), *player) ==> {
            &&& outcome == InvinciOutcome::Unchanged
            &&& *final(invincible) == Invincible::Off
            &&& *final(invinci) == *old(invinci)
            &&& *final(mr_producer_timer) == *old(mr_producer_timer)
            &&& *final(invinci_duration_timer) == *old(invinci_duration_timer)
        },
{
    let state: Invincible = *invincible;
    match state {
        Invincible::On => {
            invinci_duration_timer.timer.tick(delta);
            if invinci_duration_timer.timer.just_finished() {
                *invincible = Invincible::Off;
                InvinciOutcome::Expired
            } else {
                InvinciOutcome::Unchanged
            }
        },
        Invincible::Off => {
            let at: Vec2 = match player {
                Some(p) => p.position,
                None => { return InvinciOutcome::Unchanged; },
            };
            let seen: Option<Invinci> = *invinci;
            match seen {
                Some(pickup) => {
                    if is_collision(pickup.position.x, pickup.position.y, at.x, at.y) {
                        *invincible = Invincible::On;
                        *invinci = None;
                        mr_producer_timer.timer.set_duration(JINGLE_DELAY_AFTER_INVINCI);
                        mr_producer_timer.timer.set_elapsed(0);
                        invinci_duration_timer.timer.set_duration(INVINCIBILITY_DURATION);
                        invinci_duration_timer.timer.reset();
                        InvinciOutcome::Collected
                    } else {
                        InvinciOutcome::Unchanged
                    }
                },
                None => InvinciOutcome::Unchanged,
            }
        },
    }
}

/// The direction in which the held keys push, before it is made a unit
/// vector: opposite keys cancel.
pub open spec fn heading(keys: MovementKeys) -> Vec2 {
    Vec2 {
        x: ((if keys.right { 1int } else { 0int }) - (if keys.left { 1int } else { 0int })) as i64,
        y: ((if keys.up { 1int } else { 0int }) - (if keys.down { 1int } else { 0int })) as i64,
    }
}

/// The direction in which the held keys push.
pub fn heading_of(keys: MovementKeys) -> (direction: Vec2)
    ensures
        direction == heading(keys),
        is_direction(direction),
{
    let mut x: i64 = 0;
    let mut y: i64 = 0;
    if keys.left {
        x = x - 1;
    }
    if keys.right {
        x = x + 1;
    }
    if keys.up {
        y = y + 1;
    }
    if keys.down {
        y = y - 1;
    }
    Vec2 { x, y }
}

/// Moves the player for one frame of `delta` nanoseconds at `PLAYER_SPEED`
/// along the unit vector of the held keys. Without a player nothing happens.
pub fn player_movement(keys: MovementKeys, player: &mut Option<Player>, delta: u64)
    requires
        *old(player) matches Some(p) ==> in_world(p.position),
        delta <= MAX_FRAME_DELTA,
    ensures
        match *old(player) {
            Some(p) => *final(player) == Some(
                Player {
                    position: moved(
                        p.position,
                        normalized(heading(keys)),
                        PLAYER_SPEED as int,
                        delta as int,
                    ),
                    ..p
                },
            ),
            None => *final(player) == None::<Player>,
        },
{
    let snapshot: Option<Player> = *player;
    match snapshot {
        Some(p) => {
            let direction: Vec2 = normalize(heading_of(keys));
            let position: Vec2 = advance(p.position, direction, PLAYER_SPEED, delta);
            *player = Some(Player { position, timer: p.timer, color_index: p.color_index });
        },
        None => {},
    }
}

/// An enemy after a frame of `delta` nanoseconds along its direction.
pub open spec fn enemy_moved(enemy: Enemy, delta: u64) -> Enemy {
    Enemy {
        position: moved(enemy.position, enemy.direction, ENEMY_SPEED as int, delta as int),
        direction: enemy.direction,
    }
}

/// Moves every enemy for one frame of `delta` nanoseconds at `ENEMY_SPEED`
/// along its direction.
pub fn enemy_movement(enemies: &mut Vec<Enemy>, delta: u64)
    requires
        forall|i: int|
            0 <= i < old(enemies)@.len() ==> (#[trigger] old(enemies)@[i]).wf() && in_world(
                old(enemies)@[i].position,
            ),
        delta <= MAX_FRAME_DELTA,
    ensures
        final(enemies)@.len() == old(enemies)@.len(),
        forall|i: int|
            0 <= i < old(enemies)@.len() ==> #[trigger] final(enemies)@[i] == enemy_moved(
                old(enemies)@[i],
                delta,
            ),
{
    let mut i: usize = 0;
    while i < enemies.len()
        invariant
            i <= enemies@.len(),
            enemies@.len() == old(enemies)@.len(),
            delta <= MAX_FRAME_DELTA,
            forall|j: int|
                0 <= j < old(enemies)@.len() ==> (#[trigger] old(enemies)@[j]).wf() && in_world(
                    old(enemies)@[j].position,
                ),
            forall|j: int|
                0 <= j < i ==> #[trigger] enemies@[j] == enemy_moved(old(enemies)@[j], delta),
            forall|j: int| i <= j < enemies@.len() ==> #[trigger] enemies@[j] == old(enemies)@[j],
        decreases enemies@.len() - i,
    {
        let enemy: Enemy = enemies[i];
        assert(old(enemies)@[i as int].wf());
        let position: Vec2 = advance(enemy.position, enemy.direction, ENEMY_SPEED, delta);
        enemies.set(i, Enemy { position, direction: enemy.direction });
        i = i + 1;
    }
}

/// A direction component after the walls of its axis were met: turned round
/// where the enemy bounces.
pub open spec fn reflected(component: i64, x: int, half_window: int, half_size: int) -> i64 {
    if bounces(x, half_window, half_size) {
        (-component) as i64
    } else {
        component
    }
}

/// An enemy held inside the window: pushed back to each edge that it has
/// crossed, and turned round along that axis.
pub open spec fn enemy_confined(enemy: Enemy, window: Window) -> Enemy {
    Enemy {
        position: Vec2 {
            x: confined(enemy.position.x as int, half_extent(window.width), ENEMY_SIZE / 2) as i64,
            y: confined(enemy.position.y as int, half_extent(window.height), ENEMY_SIZE / 2) as i64,
        },
        direction: Vec2 {
            x: reflected(
                enemy.direction.x,
                enemy.position.x as int,
                half_extent(window.width),
                ENEMY_SIZE / 2,
            ),
            y: reflected(
                enemy.direction.y,
                enemy.position.y as int,
                half_extent(window.height),
                ENEMY_SIZE / 2,
            ),
        },
    }
}

/// Holds every enemy inside the window, bouncing it off the edges. Without a
/// window nothing happens.
pub fn confine_enemy_to_window(window: Option<Window>, enemies: &mut Vec<Enemy>)
    requires
        forall|i: int| 0 <= i < old(enemies)@.len() ==> (#[trigger] old(enemies)@[i]).wf(),
    ensures
        window is None ==> *final(enemies) == *old(enemies),
        window is Some ==> final(enemies)@.len() == old(enemies)@.len(),
        window is Some ==> forall|i: int|
            0 <= i < old(enemies)@.len() ==> #[trigger] final(enemies)@[i] == enemy_confined(
                old(enemies)@[i],
                window->0,
            ),
        forall|i: int| 0 <= i < final(enemies)@.len() ==> (#[trigger] final(enemies)@[i]).wf(),
        window is Some ==> forall|i: int|
            0 <= i < final(enemies)@.len() ==> in_world((#[trigger] final(enemies)@[i]).position),
{
    let area: Window = match window {
        Some(w) => w,
        None => { return ; },
    };
    let half_width: i64 = half_extent_of(area.width);
    let half_height: i64 = half_extent_of(area.height);
    let mut i: usize = 0;
    while i < enemies.len()
        invariant
            i <= enemies@.len(),
            enemies@.len() == old(enemies)@.len(),
            half_width == half_extent(area.width),
            half_height == half_extent(area.height),
            0 <= half_width <= u32::MAX * (crate::utils::UNITS_PER_PIXEL / 2),
            0 <= half_height <= u32::MAX * (crate::utils::UNITS_PER_PIXEL / 2),
            forall|j: int| 0 <= j < old(enemies)@.len() ==> (#[trigger] old(enemies)@[j]).wf(),
            forall|j: int|
                0 <= j < i ==> #[trigger] enemies@[j] == enemy_confined(old(enemies)@[j], area),
            forall|j: int| 0 <= j < i ==> (#[trigger] enemies@[j]).wf(),
            forall|j: int| 0 <= j < i ==> in_world((#[trigger] enemies@[j]).position),
            forall|j: int| i <= j < enemies@.len() ==> #[trigger] enemies@[j] == old(enemies)@[j],
        decreases enemies@.len() - i,
    {
        let enemy: Enemy = enemies[i];
        assert(old(enemies)@[i as int].wf());
        proof {
            lemma_confined_in_world(enemy.position.x as int, area.width, ENEMY_SIZE / 2);
            lemma_confined_in_world(enemy.position.y as int, area.height, ENEMY_SIZE / 2);
        }
        let (x, turn_x) = confine(enemy.position.x, half_width, ENEMY_SIZE / 2);
        let (y, turn_y) = confine(enemy.position.y, half_height, ENEMY_SIZE / 2);
        let across: i64 = if turn_x {
            -enemy.direction.x
        } else {
            enemy.direction.x
        };
        let up: i64 = if turn_y {
            -enemy.direction.y
        } else {
            enemy.direction.y
        };
        enemies.set(i, Enemy { position: Vec2 { x, y }, direction: Vec2 { x: across, y: up } });
        i = i + 1;
    }
}

/// A point of the player held inside the window.
pub open spec fn player_confined(position: Vec2, window: Window) -> Vec2 {
    Vec2 {
        x: confined(position.x as int, half_extent(window.width), PLAYER_SIZE / 2) as i64,
        y: confined(position.y as int, half_extent(window.height), PLAYER_SIZE / 2) as i64,
    }
}

/// Holds the player inside the window. Without a player or a window nothing
/// happens.
pub fn window_border_movement(window: Option<Window>, player: &mut Option<Player>)
    ensures
        match (*old(player), window) {
            (Some(p), Some(w)) => *final(player) == Some(
                Player { position: player_confined(p.position, w), ..p },
            ),
            _ => *final(player) == *old(player),
        },
        window is Some ==> match *final(player) {
            Some(p) => in_world(p.position),
            None => true,
        },
{
    let snapshot: Option<Player> = *player;
    match (snapshot, window) {
        (Some(p), Some(area)) => {
            proof {
                lemma_confined_in_world(p.position.x as int, area.width, PLAYER_SIZE / 2);
                lemma_confined_in_world(p.position.y as int, area.height, PLAYER_SIZE / 2);
            }
            let (x, _) = confine(p.position.x, half_extent_of(area.width), PLAYER_SIZE / 2);
            let (y, _) = confine(p.position.y, half_extent_of(area.height), PLAYER_SIZE / 2);
            *player = Some(
                Player { position: Vec2 { x, y }, timer: p.timer, color_index: p.color_index },
            );
        },
        _ => {},
    }
}

/// What to do with the tune that plays during invincibility.
#[derive(Clone, Copy, Debug, PartialEq, Eq, Structural)]
pub enum MusicCommand {
    Pause,
    Play,
}

/// The phase after the pause key was pressed: `Game` and `Paused` swap.
pub open spec fn pause_toggled(phase: GameState) -> GameState {
    match phase {
        GameState::Game => GameState::Paused,
        GameState::Paused => GameState::Game,
        GameState::Menu => GameState::Menu,
    }
}

/// What becomes of the invincibility tune when the pause key is pressed in
/// phase `phase`: it pauses and resumes with the game while invincibility is on.
pub open spec fn music_on_pause(phase: GameState, invincible: Invincible) -> Option<MusicCommand> {
    if invincible == Invincible::On && phase == GameState::Game {
        Some(MusicCommand::Pause)
    } else if invincible == Invincible::On && phase == GameState::Paused {
        Some(MusicCommand::Play)
    } else {
        None
    }
}

/// Handles the pause key: when it was just pressed, `Game` and `Paused` swap
/// and the invincibility tune follows.
pub fn pause_game(escape_just_pressed: bool, game_state: &mut GameState, invincible: Invincible) -> (command: Option<MusicCommand>)
    ensures
        escape_just_pressed ==> *final(game_state) == pause_toggled(*old(game_state)) && command
            == music_on_pause(*old(game_state), invincible),
        !escape_just_pressed ==> *final(game_state) == *old(game_state) && command
            == None::<MusicCommand>,
{
    if !escape_just_pressed {
        return None;
    }
    let playing: bool = match invincible {
        Invincible::On => true,
        Invincible::Off => false,
    };
    let phase: GameState = *game_state;
    match phase {
        GameState::Game => {
            *game_state = GameState::Paused;
            if playing {
                Some(MusicCommand::Pause)
            } else {
                None
            }
        },
        GameState::Paused => {
            *game_state = GameState::Game;
            if playing {
                Some(MusicCommand::Play)
            } else {
                None
            }
        },
        GameState::Menu => None,
    }
}

/// Shows or hides the frame counter when its key was released, counts the
/// frame while it is shown, and hands back the reading to display, if any.
pub fn fps_system(toggle_released: bool, tracker: &mut FpsTracker, delta: u64) -> (reading: Option<u32>)
    requires
        (old(tracker).enabled != toggle_released) ==> old(tracker).can_update(delta),
    ensures
        final(tracker).enabled == (old(tracker).enabled != toggle_released),
        final(tracker).enabled ==> *final(tracker) == (FpsTracker {
            enabled: true,
            ..*old(tracker)
        }).updated(delta) && reading == Some(final(tracker).fps),
        !final(tracker).enabled ==> *final(tracker) == (FpsTracker {
            enabled: false,
            ..*old(tracker)
        }) && reading == None::<u32>,
{
    if toggle_released {
        tracker.enabled = !tracker.enabled;
    }
    if tracker.enabled {
        tracker.update(delta);
        Some(tracker.fps)
    } else {
        None
    }
}

/// What a press of the play button does in phase `phase`.
pub open spec fn phase_after_play(phase: GameState) -> GameState {
    if phase == GameState::Paused {
        GameState::Game
    } else {
        phase
    }
}

/// Reacts to the play button, whose interaction is given if it has changed.
/// A press in the menu raises `GameStart`; a press while paused resumes the
/// game, and the invincibility tune with it. The result is the colour that
/// the button takes, and the command for the tune.
pub fn interact_with_play_button(
    interaction: Option<Interaction>,
    game_start_events: &mut Events<GameStart>,
    game_state: &mut GameState,
    invincible: Invincible,
) -> (response: (Option<ButtonColor>, Option<MusicCommand>))
    ensures
        response.0 == match interaction {
            Some(i) => Some(color_under(i)),
            None => None,
        },
        interaction == Some(Interaction::Pressed) ==> {
            &&& *final(game_state) == phase_after_play(*old(game_state))
            &&& final(game_start_events)@ == if *old(game_state) == GameState::Menu {
                old(game_start_events)@.push(GameStart {  })
            } else {
                old(game_start_events)@
            }
            &&& response.1 == if *old(game_state) == GameState::Paused && invincible
                == Invincible::On {
                Some(MusicCommand::Play)
            } else {
                None
            }
        },
        interaction != Some(Interaction::Pressed) ==> {
            &&& *final(game_state) == *old(game_state)
            &&& final(game_start_events)@ == old(game_start_events)@
            &&& response.1 == None::<MusicCommand>
        },
{
    let change: Interaction = match interaction {
        Some(i) => i,
        None => { return (None, None); },
    };
    let color: ButtonColor = button_color(change);
    let mut music: Option<MusicCommand> = None;
    match change {
        Interaction::Pressed => {
            let phase: GameState = *game_state;
            match phase {
                GameState::Menu => {
                    game_start_events.send(GameStart {  });
                },
                GameState::Paused => {
                    *game_state = GameState::Game;
                    match invincible {
                        Invincible::On => {
                            music = Some(MusicCommand::Play);
                        },
                        Invincible::Off => {},
                    }
                },
                GameState::Game => {},
            }
        },
        Interaction::Hovered => {},
        Interaction::Idle => {},
    }
    (Some(color), music)
}

/// Reacts to the quit button, whose interaction is given if it has changed.
/// The result is the colour that the button takes, and whether to leave.
pub fn interact_with_quit_button(interaction: Option<Interaction>) -> (response: (Option<ButtonColor>, bool))
    ensures
        response.0 == match interaction {
            Some(i) => Some(color_under(i)),
            None => None,
        },
        response.1 == (interaction == Some(Interaction::Pressed)),
{
    match interaction {
        Some(change) => {
            let leave: bool = match change {
                Interaction::Pressed => true,
                Interaction::Hovered => false,
                Interaction::Idle => false,
            };
            (Some(button_color(change)), leave)
        },
        None => (None, false),
    }
}

/// The jingle switch after a press of the sound button.
pub open spec fn sound_toggled(state: MrProducerState) -> MrProducerState {
    match state {
        MrProducerState::On => MrProducerState::Off,
        MrProducerState::Off => MrProducerState::On,
    }
}

/// Reacts to the sound button, whose interaction is given if it has changed.
/// A press flips the jingle switch; switching it on makes the first jingle due
/// `JINGLE_PERIOD - JINGLE_HEAD_START` later. The result is the colour that
/// the button takes.
pub fn interact_with_sound_button(
    interaction: Option<Interaction>,
    mr_producer_state: &mut MrProducerState,
    mr_producer_timer: &mut MrProducerTimer,
) -> (color: Option<ButtonColor>)
    ensures
        color == match interaction {
            Some(i) => Some(color_under(i)),
            None => None,
        },
        interaction == Some(Interaction::Pressed) ==> {
            &&& *final(mr_producer_state) == sound_toggled(*old(mr_producer_state))
            &&& final(mr_producer_timer).timer == if *old(mr_producer_state)
                == MrProducerState::Off {
                rescheduled(old(mr_producer_timer).timer, JINGLE_PERIOD, JINGLE_HEAD_START)
            } else {
                old(mr_producer_timer).timer
            }
        },
        interaction != Some(Interaction::Pressed) ==> {
            &&& *final(mr_producer_state) == *old(mr_producer_state)
            &&& *final(mr_producer_timer) == *old(mr_producer_timer)
        },
{
    let change: Interaction = match interaction {
        Some(i) => i,
        None => { return None; },
    };
    match change {
        Interaction::Pressed => {
            let state: MrProducerState = *mr_producer_state;
            match state {
                MrProducerState::On => {
                    *mr_producer_state = MrProducerState::Off;
                },
                MrProducerState::Off => {
                    *mr_producer_state = MrProducerState::On;
                    mr_producer_timer.timer.set_duration(JINGLE_PERIOD);
                    mr_producer_timer.timer.set_elapsed(JINGLE_HEAD_START);
                },
            }
        },
        Interaction::Hovered => {},
        Interaction::Idle => {},
    }
    Some(button_color(change))
}

/// What to do with the ambient jingle.
#[derive(Clone, Copy, Debug, PartialEq, Eq, Structural)]
pub enum JingleCommand {
    /// Leave it as it is.
    Keep,
    /// Play it once more.
    Play,
    /// Stop whatever of it is playing.
    Stop,
}

/// Whether the jingle plays this frame: its timer is finished after the
/// frame and the player is not invincible.
pub open spec fn jingle_plays(timer: Timer, invincible: Invincible, delta: u64) -> bool {
    advanced(timer, delta).finished && invincible == Invincible::Off
}

/// One frame of the ambient jingle. While the jingle is switched on, the timer runs, and
/// when it is finished and the player is not invincible the jingle plays and
/// the timer's duration is `JINGLE_PERIOD` again. While it is switched off the
/// jingle is stopped.
pub fn mr_producer(
    mr_producer_timer: &mut MrProducerTimer,
    mr_producer_state: MrProducerState,
    invincible: Invincible,
    delta: u64,
) -> (command: JingleCommand)
    ensures
        mr_producer_state == MrProducerState::Off ==> command == JingleCommand::Stop && *final(mr_producer_timer) == *old(mr_producer_timer),
        mr_producer_state == MrProducerState::On ==> {
            let ticked = advanced(old(mr_producer_timer).timer, delta);
            if jingle_plays(old(mr_producer_timer).timer, invincible, delta) {
                command == JingleCommand::Play && final(mr_producer_timer).timer == (Timer {
                    duration: JINGLE_PERIOD,
                    ..ticked
                })
            } else {
                command == JingleCommand::Keep && final(mr_producer_timer).timer == ticked
            }
        },
{
    match mr_producer_state {
        MrProducerState::On => {
            mr_producer_timer.timer.tick(delta);
            let quiet: bool = match invincible {
                Invincible::Off => true,
                Invincible::On => false,
            };
            if mr_producer_timer.timer.finished() && quiet {
                mr_producer_timer.timer.set_duration(JINGLE_PERIOD);
                JingleCommand::Play
            } else {
                JingleCommand::Keep
            }
        },
        MrProducerState::Off => JingleCommand::Stop,
    }
}

/// Runs the menu timer for one frame while the menu is up, and tells whether
/// the menu is to be laid out again: when the timer has just finished.
pub fn fix_menu_first_game(menu_exists: bool, timer: &mut FixMenuTimer, delta: u64) -> (rebuild: bool)
    ensures
        menu_exists ==> final(timer).timer == advanced(old(timer).timer, delta) && rebuild == (
        final(timer).timer.times_finished_this_tick > 0),
        !menu_exists ==> *final(timer) == *old(timer) && !rebuild,
{
    if menu_exists {
        timer.timer.tick(delta);
        timer.timer.just_finished()
    } else {
        false
    }
}

} // verus!
