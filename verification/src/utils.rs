use vstd::prelude::*;
use crate::random::random_below;

verus! {

/// Length units in one pixel.
pub const UNITS_PER_PIXEL: i64 = 1_000_000_000;

/// Player speed, in pixels per second (length units per nanosecond).
pub const PLAYER_SPEED: i64 = 500;

/// Edge of the player's square, in length units. Also the collision threshold.
pub const PLAYER_SIZE: i64 = 64_000_000_000;

/// Edge of an enemy's square, in length units.
pub const ENEMY_SIZE: i64 = 64_000_000_000;

/// Enemy speed, in pixels per second (length units per nanosecond).
pub const ENEMY_SPEED: i64 = 200;

/// Number of stars the field is replenished to.
pub const NUMBER_OF_STARS: usize = 4;

/// Length of a unit direction vector in fixed point: a direction component
/// `c` stands for the real number `c / DIRECTION_ONE`.
pub const DIRECTION_ONE: i64 = 1_000_000;

/// Largest absolute coordinate an entity may have before it is moved.
pub const WORLD_LIMIT: i64 = 4_000_000_000_000_000_000;

/// Longest frame, in nanoseconds, by which entities may be moved at once.
pub const MAX_FRAME_DELTA: u64 = 1_000_000_000_000_000;

/// A point or a vector of the plane.
#[derive(Clone, Copy, Debug, PartialEq, Eq, Structural)]
pub struct Vec2 {
    pub x: i64,
    pub y: i64,
}

/// Extent of the window, in whole pixels.
#[derive(Clone, Copy, Debug, PartialEq, Eq, Structural)]
pub struct Window {
    pub width: u32,
    pub height: u32,
}

/// Squared Euclidean distance between two points.
pub open spec fn distance_squared(ax: int, ay: int, bx: int, by: int) -> int {
    (ax - bx) * (ax - bx) + (ay - by) * (ay - by)
}

/// Two points collide when their Euclidean distance is at most the player's
/// size, whatever the two entities are.
pub open spec fn collides(ax: int, ay: int, bx: int, by: int) -> bool {
    distance_squared(ax, ay, bx, by) <= PLAYER_SIZE * PLAYER_SIZE
}

/// Collision of two points given as vectors.
pub open spec fn touching(a: Vec2, b: Vec2) -> bool {
    collides(a.x as int, a.y as int, b.x as int, b.y as int)
}

/// Whether a coordinate pair lies within the range from which it can be moved.
pub open spec fn in_world(p: Vec2) -> bool {
    &&& -WORLD_LIMIT <= p.x <= WORLD_LIMIT
    &&& -WORLD_LIMIT <= p.y <= WORLD_LIMIT
}

/// A number within `t` of zero has a square of at most `t * t`; one farther
/// off has a larger square.
pub(crate) proof fn lemma_square_bounds(d: int, t: int)
    requires
        0 <= t,
    ensures
        -t <= d <= t ==> 0 <= d * d <= t * t,
        (d > t || d < -t) ==> d * d > t * t,
{
    assert(-t <= d <= t ==> 0 <= d * d <= t * t) by (nonlinear_arith)
        requires
            0 <= t,
    ;
    assert((d > t || d < -t) ==> d * d > t * t) by (nonlinear_arith)
        requires
            0 <= t,
    ;
}

/// Whether the point `(enemy_x, enemy_y)` collides with `(player_x, player_y)`.
pub fn is_collision(enemy_x: i64, enemy_y: i64, player_x: i64, player_y: i64) -> (hit: bool)
    ensures
        hit == collides(enemy_x as int, enemy_y as int, player_x as int, player_y as int),
{
    let dx: i128 = enemy_x as i128 - player_x as i128;
    let dy: i128 = enemy_y as i128 - player_y as i128;
    let t: i128 = PLAYER_SIZE as i128;
    proof {
        lemma_square_bounds(dx as int, t as int);
        lemma_square_bounds(dy as int, t as int);
    }
    if dx > t || dx < -t || dy > t || dy < -t {
        return false;
    }
    dx * dx + dy * dy <= t * t
}

/// The collision test does not depend on the order of its two points.
pub proof fn lemma_collision_symmetric(ax: int, ay: int, bx: int, by: int)
    ensures
        collides(ax, ay, bx, by) == collides(bx, by, ax, ay),
{
    assert((ax - bx) * (ax - bx) == (bx - ax) * (bx - ax)) by (nonlinear_arith);
    assert((ay - by) * (ay - by) == (by - ay) * (by - ay)) by (nonlinear_arith);
}

/// Whether `r` is the square root of `n`, rounded down.
pub open spec fn is_floor_sqrt(n: int, r: int) -> bool {
    0 <= r && r * r <= n < (r + 1) * (r + 1)
}

/// The square root of `n`, rounded down.
pub open spec fn floor_sqrt(n: int) -> int {
    choose|r: int| is_floor_sqrt(n, r)
}

/// A number has at most one rounded-down square root.
pub proof fn lemma_floor_sqrt_unique(n: int, r: int)
    requires
        is_floor_sqrt(n, r),
    ensures
        floor_sqrt(n) == r,
{
    let s = floor_sqrt(n);
    assert(is_floor_sqrt(n, s));
    if s < r {
        assert((s + 1) * (s + 1) <= r * r) by (nonlinear_arith)
            requires
                0 <= s,
                s + 1 <= r,
        ;
    } else if r < s {
        assert((r + 1) * (r + 1) <= s * s) by (nonlinear_arith)
            requires
                0 <= r,
                r + 1 <= s,
        ;
    }
}

/// The square root of `n`, rounded down.
pub fn integer_sqrt(n: u64) -> (root: u64)
    ensures
        root == floor_sqrt(n as int),
        is_floor_sqrt(n as int, root as int),
{
    let mut low: u64 = 0;
    let mut high: u64 = 4_294_967_296;
    assert(4_294_967_296int * 4_294_967_296int > u64::MAX) by (nonlinear_arith);
    while high - low > 1
        invariant
            low < high <= 4_294_967_296,
            low * low <= n < high * high,
        decreases high - low,
    {
        let middle: u64 = low + (high - low) / 2;
        assert(middle * middle <= 4_294_967_295int * 4_294_967_295int) by (nonlinear_arith)
            requires
                0 <= middle <= 4_294_967_295,
        ;
        if middle * middle <= n {
            low = middle;
        } else {
            high = middle;
        }
    }
    proof {
        lemma_floor_sqrt_unique(n as int, low as int);
    }
    low
}

/// One component of the unit vector along `(c, other)`, in fixed point and
/// rounded toward zero: `DIRECTION_ONE * c / sqrt(c * c + other * other)`.
pub open spec fn unit_component(c: int, other: int) -> int {
    if c == 0 {
        0
    } else {
        let magnitude = floor_sqrt(
            (c * c * (DIRECTION_ONE * DIRECTION_ONE)) / (c * c + other * other),
        );
        if c > 0 {
            magnitude
        } else {
            -magnitude
        }
    }
}

/// The unit vector along `v` in fixed point; the zero vector stays zero.
pub open spec fn normalized(v: Vec2) -> Vec2 {
    Vec2 {
        x: unit_component(v.x as int, v.y as int) as i64,
        y: unit_component(v.y as int, v.x as int) as i64,
    }
}

/// Whether both components lie between `-DIRECTION_ONE` and `DIRECTION_ONE`.
pub open spec fn is_direction(v: Vec2) -> bool {
    &&& -DIRECTION_ONE <= v.x <= DIRECTION_ONE
    &&& -DIRECTION_ONE <= v.y <= DIRECTION_ONE
}

fn unit_part(c: i64, other: i64) -> (part: i64)
    requires
        -DIRECTION_ONE <= c <= DIRECTION_ONE,
        -DIRECTION_ONE <= other <= DIRECTION_ONE,
    ensures
        part == unit_component(c as int, other as int),
        -DIRECTION_ONE <= part <= DIRECTION_ONE,
        c >= 0 ==> part >= 0,
        c <= 0 ==> part <= 0,
{
    if c == 0 {
        return 0;
    }
    let one: u128 = 1_000_000_000_000;
    proof {
        lemma_square_bounds(c as int, DIRECTION_ONE as int);
        lemma_square_bounds(other as int, DIRECTION_ONE as int);
        assert(c * c > 0) by (nonlinear_arith)
            requires
                c != 0,
        ;
        assert(DIRECTION_ONE * DIRECTION_ONE == 1_000_000_000_000int) by (nonlinear_arith)
            requires
                DIRECTION_ONE == 1_000_000,
        ;
    }
    let wide_c: i128 = c as i128;
    let wide_other: i128 = other as i128;
    let a: u128 = (wide_c * wide_c) as u128;
    let b: u128 = (wide_other * wide_other) as u128;
    assert(a * one <= 1_000_000_000_000int * 1_000_000_000_000int) by (nonlinear_arith)
        requires
            0 <= a <= 1_000_000_000_000,
            one == 1_000_000_000_000,
    ;
    let quotient: u128 = a * one / (a + b);
    assert(quotient <= one) by (nonlinear_arith)
        requires
            quotient == (a * one) / ((a + b) as int),
            a > 0,
            b >= 0,
            one >= 0,
    ;
    let magnitude: u64 = integer_sqrt(quotient as u64);
    assert(magnitude <= 1_000_000) by (nonlinear_arith)
        requires
            magnitude * magnitude <= quotient,
            quotient <= 1_000_000_000_000,
    ;
    if c > 0 {
        magnitude as i64
    } else {
        -(magnitude as i64)
    }
}

/// The unit vector along `v` in fixed point; the zero vector stays zero.
pub fn normalize(v: Vec2) -> (unit: Vec2)
    requires
        is_direction(v),
    ensures
        unit == normalized(v),
        is_direction(unit),
        v.x >= 0 ==> unit.x >= 0,
        v.x <= 0 ==> unit.x <= 0,
        v.y >= 0 ==> unit.y >= 0,
        v.y <= 0 ==> unit.y <= 0,
{
    Vec2 { x: unit_part(v.x, v.y), y: unit_part(v.y, v.x) }
}

/// Distance covered along one axis in `delta` nanoseconds at `speed` pixels
/// per second, by something heading in a direction whose component along that
/// axis is `component`; rounded toward zero.
pub open spec fn displacement(component: int, speed: int, delta: int) -> int {
    if component >= 0 {
        (component * speed * delta) / (DIRECTION_ONE as int)
    } else {
        -(((-component) * speed * delta) / (DIRECTION_ONE as int))
    }
}

/// The point reached from `position` after `delta` nanoseconds at `speed`
/// pixels per second in direction `direction`.
pub open spec fn moved(position: Vec2, direction: Vec2, speed: int, delta: int) -> Vec2 {
    Vec2 {
        x: (position.x + displacement(direction.x as int, speed, delta)) as i64,
        y: (position.y + displacement(direction.y as int, speed, delta)) as i64,
    }
}

fn travel(component: i64, speed: i64, delta: u64) -> (distance: i64)
    requires
        -DIRECTION_ONE <= component <= DIRECTION_ONE,
        0 <= speed <= PLAYER_SPEED,
        delta <= MAX_FRAME_DELTA,
    ensures
        distance == displacement(component as int, speed as int, delta as int),
        -PLAYER_SPEED * MAX_FRAME_DELTA <= distance <= PLAYER_SPEED * MAX_FRAME_DELTA,
{
    let size: u128 = if component >= 0 {
        component as u128
    } else {
        (-component) as u128
    };
    let rate: u128 = speed as u128;
    let time: u128 = delta as u128;
    assert(size * rate <= 500_000_000) by (nonlinear_arith)
        requires
            0 <= size <= 1_000_000,
            0 <= rate <= 500,
    ;
    assert(size * rate * time <= 500_000_000 * 1_000_000_000_000_000) by (nonlinear_arith)
        requires
            0 <= size * rate <= 500_000_000,
            0 <= time <= 1_000_000_000_000_000,
    ;
    let product: u128 = size * rate * time;
    assert(product <= rate * time * 1_000_000) by (nonlinear_arith)
        requires
            product == size * rate * time,
            0 <= size <= 1_000_000,
            0 <= rate,
            0 <= time,
    ;
    assert(rate * time <= 500 * 1_000_000_000_000_000) by (nonlinear_arith)
        requires
            0 <= rate <= 500,
            0 <= time <= 1_000_000_000_000_000,
    ;
    let covered: u128 = product / 1_000_000;
    if component >= 0 {
        covered as i64
    } else {
        -(covered as i64)
    }
}

/// Moves `position` for `delta` nanoseconds at `speed` pixels per second in
/// direction `direction`.
pub fn advance(position: Vec2, direction: Vec2, speed: i64, delta: u64) -> (reached: Vec2)
    requires
        in_world(position),
        is_direction(direction),
        0 <= speed <= PLAYER_SPEED,
        delta <= MAX_FRAME_DELTA,
    ensures
        reached == moved(position, direction, speed as int, delta as int),
{
    let dx: i64 = travel(direction.x, speed, delta);
    let dy: i64 = travel(direction.y, speed, delta);
    Vec2 { x: position.x + dx, y: position.y + dy }
}

/// Half of a window extent of `pixels` pixels, in length units.
pub open spec fn half_extent(pixels: u32) -> int {
    pixels * (UNITS_PER_PIXEL / 2)
}

/// Half of a window extent of `pixels` pixels, in length units.
pub fn half_extent_of(pixels: u32) -> (half: i64)
    ensures
        half == half_extent(pixels),
        0 <= half <= u32::MAX * (UNITS_PER_PIXEL / 2),
{
    assert(0 <= pixels * 500_000_000 <= 4_294_967_295 * 500_000_000) by (nonlinear_arith)
        requires
            0 <= pixels <= 4_294_967_295,
    ;
    let wide: i64 = pixels as i64;
    wide * (UNITS_PER_PIXEL / 2)
}

/// Where a coordinate `x` of an entity of half-size `half_size` ends up when
/// the entity is held inside a window of half-extent `half_window`: pushed
/// back to the edge that its leading side has crossed, else left alone.
pub open spec fn confined(x: int, half_window: int, half_size: int) -> int {
    if x - half_size < -half_window {
        -half_window + half_size
    } else if x + half_size > half_window {
        half_window - half_size
    } else {
        x
    }
}

/// In a window that is at least as large as the entity, a coordinate that was
/// held inside leaves the whole entity inside, and one that already did so is
/// not moved.
pub proof fn lemma_confined_inside(x: int, half_window: int, half_size: int)
    requires
        0 <= half_size <= half_window,
    ensures
        -half_window <= confined(x, half_window, half_size) - half_size,
        confined(x, half_window, half_size) + half_size <= half_window,
        -half_window <= x - half_size && x + half_size <= half_window ==> confined(
            x,
            half_window,
            half_size,
        ) == x,
{
}

/// Whether exactly one of the two edges of an axis has been crossed, so that
/// an enemy bounces.
pub open spec fn bounces(x: int, half_window: int, half_size: int) -> bool {
    (x - half_size < -half_window) != (x + half_size > half_window)
}

/// Holds one coordinate inside the window; also tells whether an enemy there
/// would bounce.
pub fn confine(x: i64, half_window: i64, half_size: i64) -> (held: (i64, bool))
    requires
        0 <= half_window <= u32::MAX * (UNITS_PER_PIXEL / 2),
        0 <= half_size <= PLAYER_SIZE,
    ensures
        held.0 == confined(x as int, half_window as int, half_size as int),
        held.1 == bounces(x as int, half_window as int, half_size as int),
{
    let over: bool = x > half_window - half_size;
    let under: bool = x < half_size - half_window;
    if under {
        (half_size - half_window, !over)
    } else if over {
        (half_window - half_size, true)
    } else {
        (x, false)
    }
}

/// Farthest from the centre, along an axis of `pixels` pixels, that the
/// centre of a newly placed entity may lie.
pub open spec fn spawn_reach(pixels: u32) -> int {
    if half_extent(pixels) >= ENEMY_SIZE / 2 {
        half_extent(pixels) - ENEMY_SIZE / 2
    } else {
        0
    }
}

/// Whether `p` is a place where a new entity may be put in `window`.
pub open spec fn in_spawn_area(p: Vec2, window: Window) -> bool {
    &&& -spawn_reach(window.width) <= p.x <= spawn_reach(window.width)
    &&& -spawn_reach(window.height) <= p.y <= spawn_reach(window.height)
}

/// Farthest from the centre that a newly placed entity may lie.
pub fn spawn_reach_of(pixels: u32) -> (reach: i64)
    ensures
        reach == spawn_reach(pixels),
        0 <= reach <= u32::MAX * (UNITS_PER_PIXEL / 2),
{
    let half: i64 = half_extent_of(pixels);
    if half >= ENEMY_SIZE / 2 {
        half - ENEMY_SIZE / 2
    } else {
        0
    }
}

/// Draws a coordinate from `-reach` up to, but not including, `reach`; with a
/// `reach` of zero, zero.
pub fn random_coordinate(reach: i64) -> (drawn: i64)
    requires
        0 <= reach <= u32::MAX * (UNITS_PER_PIXEL / 2),
    ensures
        -reach <= drawn <= reach,
        reach > 0 ==> drawn < reach,
{
    if reach == 0 {
        0
    } else {
        let span: u64 = (2 * reach) as u64;
        let offset: u64 = random_below(span);
        coordinate_from_draw(reach, offset)
    }
}

/// Draws a place for a new entity anywhere in the spawn area of `window`:
/// each coordinate is one that can be drawn for the reach of its axis.
pub fn random_position(window: Window) -> (place: Vec2)
    ensures
        in_spawn_area(place, window),
        can_be_drawn(spawn_reach(window.width), place.x as int),
        can_be_drawn(spawn_reach(window.height), place.y as int),
{
    let x: i64 = random_coordinate(spawn_reach_of(window.width));
    let y: i64 = random_coordinate(spawn_reach_of(window.height));
    Vec2 { x, y }
}

/// Whether `drawn` is a coordinate that can be drawn for `reach`: zero where
/// the reach is zero, else anything from `-reach` up to, but not including,
/// `reach`.
pub open spec fn can_be_drawn(reach: int, drawn: int) -> bool {
    if reach == 0 {
        drawn == 0
    } else {
        -reach <= drawn < reach
    }
}

/// The coordinate that stands for the number `offset` drawn below
/// `2 * reach`: the numbers from zero upward are laid out from `-reach` on.
pub open spec fn coordinate_of_draw(reach: int, offset: int) -> int {
    offset - reach
}

/// The coordinate that stands for the number `offset` drawn below `2 * reach`.
pub fn coordinate_from_draw(reach: i64, offset: u64) -> (coordinate: i64)
    requires
        0 <= reach <= u32::MAX * (UNITS_PER_PIXEL / 2),
        offset < 2 * reach,
    ensures
        coordinate == coordinate_of_draw(reach as int, offset as int),
        can_be_drawn(reach as int, coordinate as int),
{
    offset as i64 - reach
}

/// Every place of a spawn area lies within the range from which entities can
/// be moved.
pub proof fn lemma_spawn_area_in_world(p: Vec2, window: Window)
    requires
        in_spawn_area(p, window),
    ensures
        in_world(p),
{
    assert(window.width * (UNITS_PER_PIXEL / 2) <= u32::MAX * (UNITS_PER_PIXEL / 2))
        by (nonlinear_arith)
        requires
            window.width <= u32::MAX,
            UNITS_PER_PIXEL / 2 >= 0,
    ;
    assert(window.height * (UNITS_PER_PIXEL / 2) <= u32::MAX * (UNITS_PER_PIXEL / 2))
        by (nonlinear_arith)
        requires
            window.height <= u32::MAX,
            UNITS_PER_PIXEL / 2 >= 0,
    ;
}

/// A coordinate held inside a window lies within the range from which
/// entities can be moved, wherever it was before.
pub proof fn lemma_confined_in_world(x: int, pixels: u32, half_size: int)
    requires
        0 <= half_size <= PLAYER_SIZE,
    ensures
        -WORLD_LIMIT <= confined(x, half_extent(pixels), half_size) <= WORLD_LIMIT,
{
    assert(0 <= pixels * (UNITS_PER_PIXEL / 2) <= u32::MAX * (UNITS_PER_PIXEL / 2))
        by (nonlinear_arith)
        requires
            0 <= pixels <= u32::MAX,
            UNITS_PER_PIXEL / 2 >= 0,
    ;
}

/// Every natural number has a rounded-down square root.
pub proof fn lemma_floor_sqrt_exists(n: nat)
    ensures
        is_floor_sqrt(n as int, floor_sqrt(n as int)),
    decreases n,
{
    if n == 0 {
        assert(is_floor_sqrt(0, 0));
    } else {
        lemma_floor_sqrt_exists((n - 1) as nat);
        let r = floor_sqrt(n - 1);
        if n < (r + 1) * (r + 1) {
            assert(is_floor_sqrt(n as int, r));
        } else {
            assert((r + 2) * (r + 2) > (r + 1) * (r + 1)) by (nonlinear_arith)
                requires
                    r >= 0,
            ;
            assert(is_floor_sqrt(n as int, r + 1));
        }
    }
}

/// The square of one component of a unit vector in fixed point, against the
/// share of that component in the squared length of the vector it was made
/// from: not above it, and less than `2 * DIRECTION_ONE + 1` below.
proof fn lemma_unit_component_square(c: int, other: int)
    requires
        -DIRECTION_ONE <= c <= DIRECTION_ONE,
        -DIRECTION_ONE <= other <= DIRECTION_ONE,
        c != 0 || other != 0,
    ensures
        ({
            let part = unit_component(c, other);
            let share = (c * c * (DIRECTION_ONE * DIRECTION_ONE)) / (c * c + other * other);
            &&& -DIRECTION_ONE <= part <= DIRECTION_ONE
            &&& 0 <= share <= DIRECTION_ONE * DIRECTION_ONE
            &&& share - 2 * DIRECTION_ONE <= part * part <= share
        }),
{
    let one = DIRECTION_ONE as int;
    let a = c * c;
    let b = other * other;
    let share = (a * (one * one)) / (a + b);
    assert(a >= 0 && b >= 0 && a + b > 0 && (c == 0 ==> a == 0)) by (nonlinear_arith)
        requires
            a == c * c,
            b == other * other,
            c != 0 || other != 0,
    ;
    assert(0 <= share <= one * one) by (nonlinear_arith)
        requires
            share == (a * (one * one)) / (a + b),
            a >= 0,
            b >= 0,
            a + b > 0,
            one >= 0,
    ;
    if c == 0 {
        assert(share == 0) by (nonlinear_arith)
            requires
                share == (a * (one * one)) / (a + b),
                a == 0,
                a + b > 0,
        ;
    } else {
        lemma_floor_sqrt_exists(share as nat);
        let m = floor_sqrt(share);
        assert(m <= one) by (nonlinear_arith)
            requires
                0 <= m,
                m * m <= share,
                share <= one * one,
                one >= 0,
        ;
        assert((m + 1) * (m + 1) == m * m + 2 * m + 1) by (nonlinear_arith);
        assert((-m) * (-m) == m * m) by (nonlinear_arith);
    }
}

/// A unit vector in fixed point is as long as `DIRECTION_ONE`, up to rounding:
/// never longer, and shorter by less than three parts in `DIRECTION_ONE`.
pub proof fn lemma_normalized_has_unit_length(v: Vec2)
    requires
        is_direction(v),
        v.x != 0 || v.y != 0,
    ensures
        is_direction(normalized(v)),
        normalized(v).x * normalized(v).x + normalized(v).y * normalized(v).y <= DIRECTION_ONE
            * DIRECTION_ONE,
        normalized(v).x * normalized(v).x + normalized(v).y * normalized(v).y >= DIRECTION_ONE
            * DIRECTION_ONE - 4 * DIRECTION_ONE - 1,
{
    let one = DIRECTION_ONE as int;
    let x = v.x as int;
    let y = v.y as int;
    lemma_unit_component_square(x, y);
    lemma_unit_component_square(y, x);
    let a = x * x;
    let b = y * y;
    let whole = one * one;
    let share_x = (a * whole) / (a + b);
    let share_y = (b * whole) / (b + a);
    assert(a >= 0 && b >= 0 && a + b > 0) by (nonlinear_arith)
        requires
            a == x * x,
            b == y * y,
            x != 0 || y != 0,
    ;
    assert(whole - 1 <= share_x + share_y <= whole) by (nonlinear_arith)
        requires
            share_x == (a * whole) / (a + b),
            share_y == (b * whole) / (b + a),
            a >= 0,
            b >= 0,
            a + b > 0,
            whole >= 0,
    ;
}

} // verus!
