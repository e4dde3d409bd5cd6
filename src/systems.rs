//! Per-tick game systems on plain values: monster spawn sides, player
//! movement, input capture, particle spread and the playing state.
use vstd::prelude::*;
use crate::action::{MobAction, random_in_range};
use crate::clock::FrameClock;
use crate::components::{
    Monster, Player, PlayerActions, PlayerCastAction, PlayerLookAction, PlayerWalkAction,
};
use crate::math::{Vector2, is_isqrt, scaled_component, scaled_direction, sq_dist_spec};
use crate::missile::{MISSILE_MAX_SPEED, MISSILE_MIN_SPEED};
use crate::registry::Handle;

verus! {

/// Whether the game is still loading or being played.
#[derive(Debug, Clone, Copy, PartialEq, Eq, Structural)]
pub enum GameState {
    Loading,
    Playing,
}

/// A side of the level that monsters come from.
#[derive(Debug, Clone, Copy, PartialEq, Eq, Structural)]
pub enum Side {
    Top,
    Right,
    Bottom,
    Left,
}

/// The side picked by a draw in `0..4`; draws of 3 or more pick `Left`.
pub open spec fn side_spec(n: u64) -> Side {
    if n == 0 {
        Side::Top
    } else if n == 1 {
        Side::Right
    } else if n == 2 {
        Side::Bottom
    } else {
        Side::Left
    }
}

pub fn side_from_index(n: u64) -> (r: Side)
    ensures
        r == side_spec(n),
{
    if n == 0 {
        Side::Top
    } else if n == 1 {
        Side::Right
    } else if n == 2 {
        Side::Bottom
    } else {
        Side::Left
    }
}

/// A side chosen uniformly at random.
pub fn random_side() -> (r: Side) {
    side_from_index(random_in_range(0, 3))
}

/// Distance outside the level at which monsters appear.
pub const BORDER_DISTANCE: i32 = 100;

/// Distance kept from the level's corners.
pub const SPAWN_PADDING: i32 = 25;

/// Distance between monsters of a borderline wave.
pub const SPAWN_MARGIN: u64 = 50;

/// Start and end of the spawn line on `side` of a level of `dims`, and the
/// offset that carries a monster across the level.
pub open spec fn spawning_side_spec(side: Side, dims: Vector2) -> (Vector2, Vector2, Vector2) {
    let hx = dims.x / 2;
    let hy = dims.y / 2;
    match side {
        Side::Top => (
            Vector2 { x: (-hx + 25) as i32, y: (hy + 100) as i32 },
            Vector2 { x: (hx - 25) as i32, y: (hy + 100) as i32 },
            Vector2 { x: 0, y: (-dims.y + 100) as i32 },
        ),
        Side::Right => (
            Vector2 { x: (hx + 100) as i32, y: (hy - 25) as i32 },
            Vector2 { x: (hx + 100) as i32, y: (-hy + 25) as i32 },
            Vector2 { x: (-dims.x + 100) as i32, y: 0 },
        ),
        Side::Bottom => (
            Vector2 { x: (hx - 25) as i32, y: (-hy - 100) as i32 },
            Vector2 { x: (-hx + 25) as i32, y: (-hy - 100) as i32 },
            Vector2 { x: 0, y: (dims.y - 100) as i32 },
        ),
        Side::Left => (
            Vector2 { x: (-hx - 100) as i32, y: (-hy + 25) as i32 },
            Vector2 { x: (-hx - 100) as i32, y: (hy - 25) as i32 },
            Vector2 { x: (dims.x - 100) as i32, y: 0 },
        ),
    }
}

pub fn spawning_side(side: Side, dims: Vector2) -> (r: (Vector2, Vector2, Vector2))
    requires
        dims.x >= 0,
        dims.y >= 0,
    ensures
        r == spawning_side_spec(side, dims),
{
    let hx = dims.x / 2;
    let hy = dims.y / 2;
    match side {
        Side::Top => (
            Vector2::new(-hx + SPAWN_PADDING, hy + BORDER_DISTANCE),
            Vector2::new(hx - SPAWN_PADDING, hy + BORDER_DISTANCE),
            Vector2::new(0, -dims.y + BORDER_DISTANCE),
        ),
        Side::Right => (
            Vector2::new(hx + BORDER_DISTANCE, hy - SPAWN_PADDING),
            Vector2::new(hx + BORDER_DISTANCE, -hy + SPAWN_PADDING),
            Vector2::new(-dims.x + BORDER_DISTANCE, 0),
        ),
        Side::Bottom => (
            Vector2::new(hx - SPAWN_PADDING, -hy - BORDER_DISTANCE),
            Vector2::new(-hx + SPAWN_PADDING, -hy - BORDER_DISTANCE),
            Vector2::new(0, dims.y - BORDER_DISTANCE),
        ),
        Side::Left => (
            Vector2::new(-hx - BORDER_DISTANCE, -hy + SPAWN_PADDING),
            Vector2::new(-hx - BORDER_DISTANCE, hy - SPAWN_PADDING),
            Vector2::new(dims.x - BORDER_DISTANCE, 0),
        ),
    }
}

/// `p` lies between `a` and `b` in each coordinate.
pub open spec fn between(p: Vector2, a: Vector2, b: Vector2) -> bool {
    &&& (a.x <= p.x <= b.x || b.x <= p.x <= a.x)
    &&& (a.y <= p.y <= b.y || b.y <= p.y <= a.y)
}

/// Number of monsters of a borderline wave along a spawn line: the line's
/// longer extent divided by the spawn margin, rounded to nearest.
pub open spec fn borderline_count_spec(start: Vector2, end: Vector2) -> int {
    let dx = if start.x >= end.x { start.x - end.x } else { end.x - start.x };
    let dy = if start.y >= end.y { start.y - end.y } else { end.y - start.y };
    let m = if dx >= dy { dx } else { dy };
    (m + SPAWN_MARGIN / 2) / SPAWN_MARGIN as int
}

/// Stats of a kind of monster.
#[derive(Debug, Clone)]
pub struct MonsterDefinition {
    pub name: String,
    pub base_health: u32,
    pub base_speed: u32,
    pub base_attack: u32,
    pub radius: u32,
}

/// `x` divided by `n`, truncated toward zero.
pub open spec fn tdiv(x: int, n: int) -> int {
    if x < 0 {
        -((-x) / n)
    } else {
        x / n
    }
}

/// Coordinate of the `k`-th of `count` monsters spread from `a` toward `b`.
pub open spec fn line_coord_spec(a: int, b: int, count: int, k: int) -> int {
    a + k * tdiv(b - a, count)
}

/// Largest level extent whose coordinates stay representable.
pub const MAX_LEVEL_EXTENT: i32 = 1_000_000_000;

/// `dims` is a level size the spawner can handle.
pub open spec fn level_fits(dims: Vector2) -> bool {
    0 <= dims.x <= MAX_LEVEL_EXTENT && 0 <= dims.y <= MAX_LEVEL_EXTENT
}

/// `w` is the borderline wave of `side`: monsters evenly spaced from the
/// start of the spawn line, one per spawn margin, each walking across the
/// level.
pub open spec fn is_borderline_wave(side: Side, dims: Vector2, w: Seq<(Vector2, MobAction<Handle>)>) -> bool {
    let (start, end, dest) = spawning_side_spec(side, dims);
    let count = borderline_count_spec(start, end);
    &&& w.len() == count
    &&& forall|k: int| 0 <= k < count ==> {
        let p = #[trigger] w[k].0;
        &&& p.x == line_coord_spec(start.x as int, end.x as int, count, k)
        &&& p.y == line_coord_spec(start.y as int, end.y as int, count, k)
        &&& between(p, start, end)
        &&& w[k].1 == MobAction::<Handle>::Move(
            Vector2 { x: (p.x + dest.x) as i32, y: (p.y + dest.y) as i32 },
        )
    }
}

/// `w` is a random wave of `num` monsters on `side`: each idle at some
/// point of the spawn line.
pub open spec fn is_random_wave(side: Side, dims: Vector2, num: u32, w: Seq<(Vector2, MobAction<Handle>)>) -> bool {
    let (start, end, _) = spawning_side_spec(side, dims);
    &&& w.len() == num
    &&& forall|k: int| 0 <= k < num ==> {
        &&& between(#[trigger] w[k].0, start, end)
        &&& w[k].1 == MobAction::<Handle>::Idle
    }
}

/// `w` is what spawn action `a` places on `side`.
pub open spec fn is_wave_on(a: SpawnAction, side: Side, dims: Vector2, w: Seq<(Vector2, MobAction<Handle>)>) -> bool {
    match a.spawn_type {
        SpawnType::Random => is_random_wave(side, dims, a.num, w),
        SpawnType::Borderline => is_borderline_wave(side, dims, w),
    }
}

/// `w` is what spawn action `a` places on some side of the level.
pub open spec fn is_wave_of(a: SpawnAction, dims: Vector2, w: Seq<(Vector2, MobAction<Handle>)>) -> bool {
    exists|side: Side| #[trigger] is_wave_on(a, side, dims, w)
}

/// Spawns monsters along the level's sides.
pub struct MonsterSpawnerSystem;

impl MonsterSpawnerSystem {
    /// A point drawn at random on the segment from `start` to `end`.
    pub fn random_point_between(&self, start: Vector2, end: Vector2) -> (r: Vector2)
        ensures
            between(r, start, end),
    {
        let x = random_coordinate(start.x, end.x);
        let y = random_coordinate(start.y, end.y);
        Vector2 { x, y }
    }

    pub fn borderline_count(&self, start: Vector2, end: Vector2) -> (r: u64)
        ensures
            r == borderline_count_spec(start, end),
    {
        let dx = abs_diff(start.x, end.x);
        let dy = abs_diff(start.y, end.y);
        let m = if dx >= dy { dx } else { dy };
        (m + SPAWN_MARGIN / 2) / SPAWN_MARGIN
    }

    /// A monster of kind `def` at `position` following `action`; it heads
    /// for the action's destination when it moves, else for the origin.
    pub fn spawn_monster(&self, position: Vector2, action: MobAction<Handle>, def: &MonsterDefinition) -> (r: Monster)
        ensures
            r.health == def.base_health,
            r.attack_damage == def.base_attack,
            r.destination == match action {
                MobAction::Move(d) => d,
                _ => Vector2 { x: 0, y: 0 },
            },
            r.velocity == (Vector2 { x: 0, y: 0 }),
            r.action == action,
            r.name@ == def.name@,
            r.radius == def.radius,
    {
        let destination = match action {
            MobAction::Move(d) => d,
            _ => Vector2::zero(),
        };
        Monster {
            health: def.base_health,
            attack_damage: def.base_attack,
            destination,
            velocity: Vector2::zero(),
            action,
            name: def.name.clone(),
            radius: def.radius,
        }
    }

    /// A wave in a line along `side`: monsters evenly spaced from the start
    /// of the spawn line, one per spawn margin, each walking across the
    /// level.
    pub fn borderline_wave(&self, side: Side, dims: Vector2) -> (r: Vec<(Vector2, MobAction<Handle>)>)
        requires
            level_fits(dims),
        ensures
            is_borderline_wave(side, dims, r@),
    {
        let (start, end, dest) = spawning_side(side, dims);
        let count = self.borderline_count(start, end);
        let mut out: Vec<(Vector2, MobAction<Handle>)> = Vec::new();
        let mut k: u64 = 0;
        while k < count
            invariant
                (start, end, dest) == spawning_side_spec(side, dims),
                level_fits(dims),
                count == borderline_count_spec(start, end),
                k <= count,
                out@.len() == k,
                forall|j: int| 0 <= j < k ==> {
                    let p = #[trigger] out@[j].0;
                    &&& p.x == line_coord_spec(start.x as int, end.x as int, count as int, j)
                    &&& p.y == line_coord_spec(start.y as int, end.y as int, count as int, j)
                    &&& between(p, start, end)
                    &&& out@[j].1 == MobAction::<Handle>::Move(
                        Vector2 { x: (p.x + dest.x) as i32, y: (p.y + dest.y) as i32 },
                    )
                },
            decreases count - k,
        {
            let x = line_coord(start.x, end.x, count, k);
            let y = line_coord(start.y, end.y, count, k);
            let p = Vector2 { x, y };
            let target = Vector2 { x: x + dest.x, y: y + dest.y };
            out.push((p, MobAction::Move(target)));
            k = k + 1;
        }
        out
    }

    /// A wave of `num` idle monsters at random points of `side`'s spawn
    /// line.
    pub fn random_wave(&self, side: Side, dims: Vector2, num: u32) -> (r: Vec<(Vector2, MobAction<Handle>)>)
        requires
            level_fits(dims),
        ensures
            is_random_wave(side, dims, num, r@),
    {
        let (start, end, _dest) = spawning_side(side, dims);
        let mut out: Vec<(Vector2, MobAction<Handle>)> = Vec::new();
        let mut k: u32 = 0;
        while k < num
            invariant
                (start, end, _dest) == spawning_side_spec(side, dims),
                k <= num,
                out@.len() == k,
                forall|j: int| 0 <= j < k ==> {
                    &&& between(#[trigger] out@[j].0, start, end)
                    &&& out@[j].1 == MobAction::<Handle>::Idle
                },
            decreases num - k,
        {
            let p = self.random_point_between(start, end);
            out.push((p, MobAction::Idle));
            k = k + 1;
        }
        out
    }

    /// Drains the queued spawn actions and returns, for each in order, the
    /// monsters it places (with their actions) on a side drawn at random.
    pub fn run(&self, spawn_actions: &mut Vec<SpawnAction>, dims: Vector2) -> (r: Vec<Vec<(Vector2, MobAction<Handle>)>>)
        requires
            level_fits(dims),
        ensures
            final(spawn_actions)@.len() == 0,
            r@.len() == old(spawn_actions)@.len(),
            forall|i: int| 0 <= i < r@.len() ==> is_wave_of(old(spawn_actions)@[i], dims, (#[trigger] r@[i])@),
    {
        let mut out: Vec<Vec<(Vector2, MobAction<Handle>)>> = Vec::new();
        let mut i: usize = 0;
        while i < spawn_actions.len()
            invariant
                level_fits(dims),
                spawn_actions@ == old(spawn_actions)@,
                i <= spawn_actions@.len(),
                out@.len() == i,
                forall|j: int| 0 <= j < i ==> is_wave_of(spawn_actions@[j], dims, (#[trigger] out@[j])@),
            decreases spawn_actions@.len() - i,
        {
            let action = spawn_actions[i];
            let side = random_side();
            let wave = match action.spawn_type {
                SpawnType::Random => self.random_wave(side, dims, action.num),
                SpawnType::Borderline => self.borderline_wave(side, dims),
            };
            proof {
                match action.spawn_type {
                    SpawnType::Random => assert(is_random_wave(side, dims, action.num, wave@)),
                    SpawnType::Borderline => assert(is_borderline_wave(side, dims, wave@)),
                }
                assert(is_wave_on(action, side, dims, wave@));
            }
            let ghost prev = out@;
            out.push(wave);
            proof {
                assert forall|j: int| 0 <= j < i + 1 implies is_wave_of(spawn_actions@[j], dims, (#[trigger] out@[j])@) by {
                    if j < i {
                        assert(out@[j] == prev[j]);
                    } else {
                        assert(out@[j] == wave);
                    }
                }
            }
            i = i + 1;
        }
        spawn_actions.clear();
        out
    }
}

/// The `k`-th of `count` coordinates spread evenly from `a` toward `b`.
fn line_coord(a: i32, b: i32, count: u64, k: u64) -> (r: i32)
    requires
        k < count,
    ensures
        r == line_coord_spec(a as int, b as int, count as int, k as int),
        a <= r <= b || b <= r <= a,
{
    let ad: u64 = abs_diff(a, b);
    let qm: u64 = ad / count;
    proof {
        let (ai, ni, ki) = (ad as int, count as int, k as int);
        assert(0 <= ki * (ai / ni) <= ai) by (nonlinear_arith)
            requires
                0 <= ki < ni,
                ai >= 0,
        ;
    }
    let step: u64 = k * qm;
    if b < a {
        proof {
            assert(tdiv(b - a, count as int) == -(qm as int));
            assert(k * tdiv(b - a, count as int) == -(k * qm)) by (nonlinear_arith)
                requires
                    tdiv(b - a, count as int) == -(qm as int),
            ;
        }
        (a as i64 - step as i64) as i32
    } else {
        proof {
            assert(tdiv(b - a, count as int) == qm as int);
        }
        (a as i64 + step as i64) as i32
    }
}

fn abs_diff(a: i32, b: i32) -> (r: u64)
    ensures
        r == (if a >= b { a - b } else { b - a }),
{
    if a >= b {
        (a as i64 - b as i64) as u64
    } else {
        (b as i64 - a as i64) as u64
    }
}

/// A coordinate drawn at random between `a` and `b`, both included.
fn random_coordinate(a: i32, b: i32) -> (r: i32)
    ensures
        a <= r <= b || b <= r <= a,
{
    let lo = if a <= b { a } else { b };
    let hi = if a <= b { b } else { a };
    let span = (hi as i64 - lo as i64) as u64;
    let t = random_in_range(0, span);
    (lo as i64 + t as i64) as i32
}

/// Speed of a walking player, in world units per second.
pub const PLAYER_SPEED: u32 = 500;

/// `v` clamped into `[-h, h]`.
pub open spec fn clamp_spec(v: int, h: int) -> int {
    if v < -h {
        -h
    } else if v > h {
        h
    } else {
        v
    }
}

/// One coordinate after moving at velocity `v` for `dt` milliseconds and
/// clamping to the level's half extent `h`.
pub open spec fn moved_coordinate(p: int, v: int, dt: int, h: int) -> int {
    let prod = v * dt;
    let disp = if prod < 0 { -((-prod) / 1000) } else { prod / 1000 };
    clamp_spec(p + disp, h)
}

fn move_coordinate(p: i32, v: i32, dt_millis: u32, h: i32) -> (r: i32)
    requires
        h >= 0,
        -500 <= v <= 500,
    ensures
        r == moved_coordinate(p as int, v as int, dt_millis as int, h as int),
{
    proof {
        assert(-500 * 0xffff_ffff <= v * dt_millis <= 500 * 0xffff_ffff) by (nonlinear_arith)
            requires
                -500 <= v <= 500,
                0 <= dt_millis <= 0xffff_ffff,
        ;
    }
    let prod: i64 = v as i64 * dt_millis as i64;
    let disp: i64 = if prod < 0 { -((-prod) / 1000) } else { prod / 1000 };
    let moved: i64 = p as i64 + disp;
    if moved < -(h as i64) {
        -h
    } else if moved > h as i64 {
        h
    } else {
        moved as i32
    }
}

/// Moves the player by keyboard input.
pub struct PlayersMovementSystem;

impl PlayersMovementSystem {
    /// With a non-zero axis input the player walks at full speed in its
    /// direction for `dt_millis`, staying inside the level of `dims`;
    /// otherwise the player stops where it is.
    pub fn run(&self, player: &mut Player, position: &mut Vector2, axis: Option<(i32, i32)>, dt_millis: u32, dims: Vector2)
        requires
            dims.x >= 0,
            dims.y >= 0,
        ensures
            match axis {
                Some((x, y)) if x != 0 || y != 0 => {
                    let v = final(player).velocity;
                    &&& is_walk_velocity(Vector2 { x, y }, v)
                    &&& final(player).walking_direction == v
                    &&& final(position).x == moved_coordinate(old(position).x as int, v.x as int, dt_millis as int, dims.x / 2)
                    &&& final(position).y == moved_coordinate(old(position).y as int, v.y as int, dt_millis as int, dims.y / 2)
                    &&& *final(player) == (Player { velocity: v, walking_direction: v, ..*old(player) })
                },
                _ => {
                    &&& *final(player) == (Player { velocity: Vector2 { x: 0, y: 0 }, ..*old(player) })
                    &&& *final(position) == *old(position)
                },
            },
    {
        match axis {
            Some((x, y)) => {
                if x != 0 || y != 0 {
                    let v = scaled_direction(Vector2::zero(), Vector2::new(x, y), PLAYER_SPEED);
                    proof {
                        lemma_scaled_bounded(Vector2 { x, y }, v);
                    }
                    player.velocity = v;
                    player.walking_direction = v;
                    position.x = move_coordinate(position.x, v.x, dt_millis, dims.x / 2);
                    position.y = move_coordinate(position.y, v.y, dt_millis, dims.y / 2);
                    return;
                }
            }
            None => {},
        }
        player.velocity = Vector2::zero();
    }
}

/// `v` is the walking velocity for axis input `d`.
pub open spec fn is_walk_velocity(d: Vector2, v: Vector2) -> bool {
    exists|len: int|
        is_isqrt(sq_dist_spec(Vector2 { x: 0, y: 0 }, d), len) && v.x == scaled_component(
            d.x as int,
            PLAYER_SPEED as int,
            len,
        ) && v.y == scaled_component(d.y as int, PLAYER_SPEED as int, len)
}

proof fn lemma_scaled_bounded(d: Vector2, v: Vector2)
    requires
        d.x != 0 || d.y != 0,
        sq_dist_spec(Vector2 { x: 0, y: 0 }, d) > 0 ==> exists|len: int|
            is_isqrt(sq_dist_spec(Vector2 { x: 0, y: 0 }, d), len) && v.x == scaled_component(
                d.x - 0,
                PLAYER_SPEED as int,
                len,
            ) && v.y == scaled_component(d.y - 0, PLAYER_SPEED as int, len),
    ensures
        is_walk_velocity(d, v),
        -500 <= v.x <= 500,
        -500 <= v.y <= 500,
{
    let n = sq_dist_spec(Vector2 { x: 0, y: 0 }, d);
    assert(n > 0) by (nonlinear_arith)
        requires
            n == (0 - d.x) * (0 - d.x) + (0 - d.y) * (0 - d.y),
            d.x != 0 || d.y != 0,
    ;
    let len = choose|len: int|
        is_isqrt(n, len) && v.x == scaled_component(d.x - 0, PLAYER_SPEED as int, len)
            && v.y == scaled_component(d.y - 0, PLAYER_SPEED as int, len);
    assert(d.x - 0 == d.x && d.y - 0 == d.y);
    lemma_component_bounded(d.x as int, d.y as int, n, len);
    lemma_component_bounded(d.y as int, d.x as int, n, len);
}

proof fn lemma_component_bounded(a: int, b: int, n: int, len: int)
    requires
        n == (0 - a) * (0 - a) + (0 - b) * (0 - b),
        n > 0,
        is_isqrt(n, len),
    ensures
        -500 <= scaled_component(a, 500, len) <= 500,
{
    let aa = if a < 0 { -a } else { a };
    assert(aa * aa <= n) by (nonlinear_arith)
        requires
            n == (0 - a) * (0 - a) + (0 - b) * (0 - b),
            aa == a || aa == -a,
    ;
    assert(len >= 1) by (nonlinear_arith)
        requires
            n > 0,
            n < (len + 1) * (len + 1),
            len >= 0,
    ;
    assert(aa <= len) by (nonlinear_arith)
        requires
            aa * aa <= n,
            n < (len + 1) * (len + 1),
            aa >= 0,
            len >= 0,
    ;
    assert(aa * 500 / len <= 500) by (nonlinear_arith)
        requires
            aa <= len,
            len >= 1,
            aa >= 0,
    ;
    assert(aa * 500 / len >= 0) by (nonlinear_arith)
        requires
            len >= 1,
            aa >= 0,
    ;
}

/// `a - b` fits a coordinate.
pub open spec fn diff_fits(a: Vector2, b: Vector2) -> bool {
    &&& i32::MIN <= a.x - b.x <= i32::MAX
    &&& i32::MIN <= a.y - b.y <= i32::MAX
}

/// Turns captured input into the player's intents.
pub struct InputSystem;

impl InputSystem {
    /// Axis input sets the walking direction; a pointer position sets the
    /// look direction (from the player to the pointer) and, with the cast
    /// button held, a cast toward the pointer. Without a pointer position
    /// neither look nor cast changes.
    pub fn process_input(
        &self,
        actions: &mut PlayerActions,
        axis: Option<(i32, i32)>,
        pointer: Option<Vector2>,
        cast_pressed: bool,
        player_position: Vector2,
    )
        requires
            pointer matches Some(p) ==> diff_fits(p, player_position),
        ensures
            final(actions).walk_action == match axis {
                Some((x, y)) => PlayerWalkAction { direction: Vector2 { x, y } },
                None => old(actions).walk_action,
            },
            final(actions).look_action == match pointer {
                Some(p) => PlayerLookAction {
                    direction: Vector2 { x: (p.x - player_position.x) as i32, y: (p.y - player_position.y) as i32 },
                },
                None => old(actions).look_action,
            },
            final(actions).cast_action == match pointer {
                Some(p) => if cast_pressed {
                    Some(PlayerCastAction { cast_position: player_position, target_position: p })
                } else {
                    old(actions).cast_action
                },
                None => old(actions).cast_action,
            },
    {
        if let Some(p) = pointer {
            actions.look_action = PlayerLookAction {
                direction: Vector2::new(p.x - player_position.x, p.y - player_position.y),
            };
            if cast_pressed {
                actions.cast_action = Some(PlayerCastAction { cast_position: player_position, target_position: p });
            }
        }
        if let Some((x, y)) = axis {
            actions.walk_action = PlayerWalkAction { direction: Vector2::new(x, y) };
        }
    }
}

/// A full turn, in milliradians.
pub const FULL_TURN_MILLIRAD: u64 = 6283;

/// Spread of the particle cone behind a missile at full speed.
pub const MIN_SPREAD_MILLIRAD: u64 = 524;

/// Spread of the particle cone behind a missile at its slowest.
pub const MAX_SPREAD_MILLIRAD: u64 = 2513;

/// How long a particle lives, in milliseconds.
pub const PARTICLE_LIFETIME_MILLIS: u64 = 250;

/// Angular spread of particles behind a missile moving at `speed`: a full
/// halo for a dead or still missile, otherwise a cone that narrows
/// linearly from the widest at the slowest speed to the tightest at the
/// highest.
pub open spec fn spread_spec(speed: u64, source_dead: bool) -> int {
    if source_dead || speed == 0 {
        FULL_TURN_MILLIRAD as int
    } else {
        let s: int = if speed < MISSILE_MIN_SPEED { MISSILE_MIN_SPEED as int } else if speed
            > MISSILE_MAX_SPEED { MISSILE_MAX_SPEED as int } else { speed as int };
        MIN_SPREAD_MILLIRAD + (MISSILE_MAX_SPEED - s) * (MAX_SPREAD_MILLIRAD - MIN_SPREAD_MILLIRAD)
            / (MISSILE_MAX_SPEED - MISSILE_MIN_SPEED) as int
    }
}

/// Emits and expires the particles of missile trails.
pub struct ParticleSystem;

impl ParticleSystem {
    pub fn particle_spread(&self, speed: u64, source_dead: bool) -> (r: u64)
        ensures
            r == spread_spec(speed, source_dead),
    {
        if source_dead || speed == 0 {
            return FULL_TURN_MILLIRAD;
        }
        let s: u64 = if speed < MISSILE_MIN_SPEED as u64 {
            MISSILE_MIN_SPEED as u64
        } else if speed > MISSILE_MAX_SPEED as u64 {
            MISSILE_MAX_SPEED as u64
        } else {
            speed
        };
        MIN_SPREAD_MILLIRAD + (MISSILE_MAX_SPEED as u64 - s) * (MAX_SPREAD_MILLIRAD - MIN_SPREAD_MILLIRAD)
            / (MISSILE_MAX_SPEED as u64 - MISSILE_MIN_SPEED as u64)
    }

    /// The velocity a particle inherits: none from a dead missile, the
    /// missile's own otherwise.
    pub fn particle_inertia(&self, missile_velocity: Vector2, source_dead: bool) -> (r: Vector2)
        ensures
            r == (if source_dead { Vector2 { x: 0, y: 0 } } else { missile_velocity }),
    {
        if source_dead {
            Vector2::zero()
        } else {
            missile_velocity
        }
    }

    /// A particle spawned at `frame_spawned` has outlived its lifetime; one
    /// stamped with a frame not reached yet has not.
    pub fn particle_expired(&self, clock: &FrameClock, frame_spawned: u64) -> (r: bool)
        requires
            clock.wf(),
        ensures
            r == (frame_spawned <= clock.frame && clock.elapsed_spec(frame_spawned)
                > PARTICLE_LIFETIME_MILLIS),
    {
        match clock.millis_since(frame_spawned) {
            Ok(ms) => ms > PARTICLE_LIFETIME_MILLIS,
            Err(_) => false,
        }
    }
}

/// The particle cone never widens as the missile speeds up, is tightest at
/// full speed, and is a full halo once the missile is dead.
pub proof fn lemma_spread_narrows(a: u64, b: u64)
    ensures
        0 < a <= b ==> spread_spec(a, false) >= spread_spec(b, false),
        spread_spec(MISSILE_MAX_SPEED as u64, false) == MIN_SPREAD_MILLIRAD,
        spread_spec(a, true) == FULL_TURN_MILLIRAD,
        a > 0 ==> MIN_SPREAD_MILLIRAD <= spread_spec(a, false) <= MAX_SPREAD_MILLIRAD,
{
    if a > 0 {
        let sa: int = if a < 300 { 300 } else if a > 500 { 500 } else { a as int };
        assert(0 <= (500 - sa) * 1989 / 200 <= 1989) by (nonlinear_arith)
            requires
                300 <= sa <= 500,
        ;
        if a <= b {
            let sb: int = if b < 300 { 300 } else if b > 500 { 500 } else { b as int };
            assert((500 - sa) * 1989 / 200 >= (500 - sb) * 1989 / 200) by (nonlinear_arith)
                requires
                    300 <= sa <= sb <= 500,
            ;
        }
    }
}

/// A wave of monsters to spawn.
#[derive(Debug, Clone, Copy, PartialEq, Eq, Structural)]
pub enum SpawnType {
    /// At random points of a random side.
    Random,
    /// In a line along a random side, walking across the level.
    Borderline,
}

#[derive(Debug, Clone, Copy, PartialEq, Eq, Structural)]
pub struct SpawnAction {
    pub num: u32,
    pub spawn_type: SpawnType,
}

/// The state in which the level is played.
pub struct PlayingState;

impl PlayingState {
    /// Enters play and returns the opening waves: one borderline monster,
    /// then five at random.
    pub fn on_start(&self, state: &mut GameState) -> (r: Vec<SpawnAction>)
        ensures
            *final(state) == GameState::Playing,
            r@ == seq![
                SpawnAction { num: 1, spawn_type: SpawnType::Borderline },
                SpawnAction { num: 5, spawn_type: SpawnType::Random },
            ],
    {
        *state = GameState::Playing;
        let mut waves: Vec<SpawnAction> = Vec::new();
        waves.push(SpawnAction { num: 1, spawn_type: SpawnType::Borderline });
        waves.push(SpawnAction { num: 5, spawn_type: SpawnType::Random });
        proof {
            assert(waves@ =~= seq![
                SpawnAction { num: 1, spawn_type: SpawnType::Borderline },
                SpawnAction { num: 5, spawn_type: SpawnType::Random },
            ]);
        }
        waves
    }
}

} // verus!
