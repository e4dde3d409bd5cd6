//! Projectiles: cast gating, target selection at spawn, and the energy that
//! decays after a projectile dies.
use vstd::prelude::*;
use crate::clock::FrameClock;
use crate::components::{PlayerActions, PlayerCastAction, PlayerLastCastedSpells, WorldPosition};
use crate::math::{Vector2, scaled_direction, sq_dist, sq_dist_spec, is_isqrt, scaled_component};
use crate::registry::Handle;

verus! {

/// Minimum time between two casts of one player, in milliseconds.
pub const SPELL_CAST_COOLDOWN_MILLIS: u64 = 500;

/// Speed of a freshly cast missile, in world units per second.
pub const MISSILE_MAX_SPEED: u32 = 500;

/// Slowest a flying missile gets, in world units per second.
pub const MISSILE_MIN_SPEED: u32 = 300;

/// Radius of a missile.
pub const MISSILE_RADIUS: u32 = 5;

/// Damage of a missile at full energy.
pub const MISSILE_DAMAGE: u64 = 50;

/// How far from the aimed point a monster may stand to become the target.
pub const MISSILE_TARGET_RANGE: u32 = 100;

/// Energy of a live missile.
pub const ENERGY_FULL: u64 = 1000;

/// Frames over which a dead missile's energy falls to zero.
pub const MISSILE_DECAY_FRAMES: u64 = 20;

/// What a missile flies at: an entity, or a fixed point.
#[derive(Debug, Clone, Copy, PartialEq, Eq, Structural)]
pub enum MissileTarget<T> {
    Target(T),
    Destination(Vector2),
}

/// A flying projectile.
#[derive(Debug, Clone, Copy, PartialEq, Eq, Structural)]
pub struct Missile {
    pub radius: u32,
    pub target: MissileTarget<Handle>,
    pub velocity: Vector2,
    pub frame_spawned: u64,
    pub damage: u64,
}

impl Missile {
    pub fn new(radius: u32, target: MissileTarget<Handle>, velocity: Vector2, frame_spawned: u64) -> (r: Missile)
        ensures
            r == (Missile { radius, target, velocity, frame_spawned, damage: MISSILE_DAMAGE }),
    {
        Missile { radius, target, velocity, frame_spawned, damage: MISSILE_DAMAGE }
    }

    /// When the targeted entity is gone, the missile keeps flying to where
    /// the target was last seen.
    pub fn degrade_target(&mut self, target_alive: bool, last_known: Vector2)
        ensures
            (old(self).target matches MissileTarget::Target(_) && !target_alive) ==> *final(self)
                == (Missile { target: MissileTarget::Destination(last_known), ..*old(self) }),
            !(old(self).target matches MissileTarget::Target(_) && !target_alive) ==> *final(self)
                == *old(self),
    {
        if let MissileTarget::Target(_) = self.target {
            if !target_alive {
                self.target = MissileTarget::Destination(last_known);
            }
        }
    }
}

/// Energy of a missile `frames` frames after its death.
pub open spec fn decayed_energy(frames: u64) -> int {
    if frames >= MISSILE_DECAY_FRAMES {
        0
    } else {
        ENERGY_FULL * (MISSILE_DECAY_FRAMES - frames) / MISSILE_DECAY_FRAMES as int
    }
}

/// Damage dealt by a missile of base damage `damage` at energy `energy`.
pub open spec fn damage_at_spec(damage: u64, energy: u64) -> int {
    damage * energy / ENERGY_FULL as int
}

/// Energy `frames` frames after death: full at death, zero once the decay
/// window is over.
pub fn energy_after_death(frames: u64) -> (r: u64)
    ensures
        r == decayed_energy(frames),
{
    if frames >= MISSILE_DECAY_FRAMES {
        0
    } else {
        ENERGY_FULL * (MISSILE_DECAY_FRAMES - frames) / MISSILE_DECAY_FRAMES
    }
}

/// Energy of a missile now: full while it lives, decaying from its death
/// frame on. A death frame not reached yet counts as a death this frame.
pub fn missile_energy(death_frame: Option<u64>, clock: &FrameClock) -> (r: u64)
    ensures
        death_frame is None ==> r == ENERGY_FULL,
        death_frame matches Some(d) ==> r == decayed_energy(
            if d <= clock.frame { (clock.frame - d) as u64 } else { 0 },
        ),
{
    match death_frame {
        None => ENERGY_FULL,
        Some(d) => energy_after_death(clock.frames_since_clamped(d)),
    }
}

/// Damage at a given energy; zero at energy zero.
pub fn damage_at(damage: u64, energy: u64) -> (r: u64)
    requires
        energy <= ENERGY_FULL,
    ensures
        r == damage_at_spec(damage, energy),
{
    proof {
        assert(damage * energy <= damage * ENERGY_FULL) by (nonlinear_arith)
            requires
                energy <= ENERGY_FULL,
        ;
        assert(damage * energy / ENERGY_FULL as int <= damage) by (nonlinear_arith)
            requires
                damage * energy <= damage * ENERGY_FULL,
        ;
    }
    ((damage as u128 * energy as u128) / (ENERGY_FULL as u128)) as u64
}

/// A dead missile's energy is zero from the end of its decay window on,
/// falls strictly from frame to frame within the window, and at zero energy
/// it deals no damage.
pub proof fn lemma_energy_decay(a: u64, b: u64, damage: u64)
    ensures
        decayed_energy(MISSILE_DECAY_FRAMES) == 0,
        decayed_energy(0) == ENERGY_FULL,
        a < b <= MISSILE_DECAY_FRAMES ==> decayed_energy(a) > decayed_energy(b),
        0 <= decayed_energy(a) <= ENERGY_FULL,
        damage_at_spec(damage, 0) == 0,
{
    if a < b && b <= MISSILE_DECAY_FRAMES {
        let (ai, bi) = (a as int, b as int);
        assert(1000 * (20 - ai) / 20 > 1000 * (20 - bi) / 20) by (nonlinear_arith)
            requires
                0 <= ai < bi <= 20,
        ;
    }
    if a < MISSILE_DECAY_FRAMES {
        let ai = a as int;
        assert(0 <= 1000 * (20 - ai) / 20 <= 1000) by (nonlinear_arith)
            requires
                0 <= ai < 20,
        ;
    }
}

/// A cast at `now` (milliseconds) is allowed: never cast before, or the
/// cooldown since the last cast has fully elapsed.
pub open spec fn can_cast_spec(last_cast: Option<u64>, now: u64) -> bool {
    match last_cast {
        None => true,
        Some(t) => now >= t + SPELL_CAST_COOLDOWN_MILLIS,
    }
}

pub fn can_cast(last_cast: Option<u64>, now: u64) -> (r: bool)
    ensures
        r == can_cast_spec(last_cast, now),
{
    match last_cast {
        None => true,
        Some(t) => now as u128 >= t as u128 + SPELL_CAST_COOLDOWN_MILLIS as u128,
    }
}

/// After a cast at `t`, a further cast is refused before `t` plus the
/// cooldown and allowed from then on.
pub proof fn lemma_cast_cooldown(t: u64, now: u64)
    ensures
        now < t + SPELL_CAST_COOLDOWN_MILLIS ==> !can_cast_spec(Some(t), now),
        now >= t + SPELL_CAST_COOLDOWN_MILLIS ==> can_cast_spec(Some(t), now),
{
}

/// Monster `i` of `monsters` is within `range` of `point`.
pub open spec fn in_range(monsters: Seq<(Handle, Vector2)>, i: int, point: Vector2, range: u32) -> bool {
    sq_dist_spec(monsters[i].1, point) <= range * range
}

/// The index of the monster nearest to `point` among those within `range`
/// of it (the first such on ties), or `None` when none is in range.
pub fn closest_monster(point: Vector2, monsters: &Vec<(Handle, Vector2)>, range: u32) -> (r: Option<usize>)
    ensures
        r is None <==> forall|i: int| 0 <= i < monsters@.len() ==> !in_range(monsters@, i, point, range),
        r matches Some(i) ==> {
            &&& i < monsters@.len()
            &&& in_range(monsters@, i as int, point, range)
            &&& forall|j: int|
                0 <= j < monsters@.len() && in_range(monsters@, j, point, range) ==> sq_dist_spec(
                    monsters@[i as int].1,
                    point,
                ) <= sq_dist_spec(monsters@[j].1, point)
            &&& forall|j: int|
                0 <= j < i && in_range(monsters@, j, point, range) ==> sq_dist_spec(
                    monsters@[i as int].1,
                    point,
                ) < sq_dist_spec(monsters@[j].1, point)
        },
{
    let r128 = range as u128;
    proof {
        assert(r128 * r128 <= 0xffff_ffff_ffff_ffff_ffff_ffff) by (nonlinear_arith)
            requires
                r128 <= 0xffff_ffff,
        ;
    }
    let limit = r128 * r128;
    let mut best: Option<usize> = None;
    let mut best_d: u128 = 0;
    let mut i: usize = 0;
    while i < monsters.len()
        invariant
            i <= monsters@.len(),
            limit == range * range,
            best is None ==> forall|j: int| 0 <= j < i ==> !in_range(monsters@, j, point, range),
            best matches Some(b) ==> {
                &&& b < i
                &&& best_d == sq_dist_spec(monsters@[b as int].1, point)
                &&& in_range(monsters@, b as int, point, range)
                &&& forall|j: int|
                    0 <= j < i && in_range(monsters@, j, point, range) ==> best_d <= sq_dist_spec(
                        monsters@[j].1,
                        point,
                    )
                &&& forall|j: int|
                    0 <= j < b && in_range(monsters@, j, point, range) ==> best_d < sq_dist_spec(
                        monsters@[j].1,
                        point,
                    )
            },
        decreases monsters@.len() - i,
    {
        let d = sq_dist(monsters[i].1, point);
        if d <= limit {
            match best {
                None => {
                    best = Some(i);
                    best_d = d;
                },
                Some(_) => {
                    if d < best_d {
                        best = Some(i);
                        best_d = d;
                    }
                },
            }
        }
        i = i + 1;
    }
    best
}

/// Where a cast's missile flies: the nearest monster within range of the
/// aimed point, else the aimed point itself.
pub open spec fn cast_target(cast: PlayerCastAction, monsters: Seq<(Handle, Vector2)>, chosen: Option<usize>) -> MissileTarget<Handle> {
    match chosen {
        Some(i) => MissileTarget::Target(monsters[i as int].0),
        None => MissileTarget::Destination(cast.target_position),
    }
}

/// Spawns missiles from the players' cast intents.
pub struct MissileSpawnerSystem;

impl MissileSpawnerSystem {
    /// Consumes the player's cast intent. When the cooldown allows it at the
    /// clock's current time, the cast is recorded at that time and a missile
    /// spawned this frame is returned with its starting position; otherwise
    /// the intent is dropped.
    pub fn run(
        &self,
        clock: &FrameClock,
        actions: &mut PlayerActions,
        last_cast: &mut PlayerLastCastedSpells,
        monsters: &Vec<(Handle, Vector2)>,
    ) -> (r: Option<(WorldPosition, Missile)>)
        requires
            clock.wf(),
        ensures
            final(actions).cast_action is None,
            final(actions).walk_action == old(actions).walk_action,
            final(actions).look_action == old(actions).look_action,
            r is Some <==> (old(actions).cast_action is Some && can_cast_spec(
                old(last_cast).missile,
                (clock.frame * clock.tick_millis) as u64,
            )),
            r is Some ==> final(last_cast).missile == Some((clock.frame * clock.tick_millis) as u64),
            r is None ==> *final(last_cast) == *old(last_cast),
            r matches Some((pos, m)) ==> {
                let cast = old(actions).cast_action->Some_0;
                let chosen = closest_spec(cast.target_position, monsters@, MISSILE_TARGET_RANGE);
                &&& pos.position == cast.cast_position
                &&& m.radius == MISSILE_RADIUS
                &&& m.damage == MISSILE_DAMAGE
                &&& m.frame_spawned == clock.frame
                &&& m.target == cast_target(cast, monsters@, chosen)
                &&& is_missile_velocity(cast.cast_position, cast.target_position, m.velocity)
            },
    {
        let now_millis = clock.now_millis();
        let frame = clock.current_frame();
        let cast = actions.cast_action;
        actions.cast_action = None;
        match cast {
            None => None,
            Some(cast) => {
                if !can_cast(last_cast.missile, now_millis) {
                    return None;
                }
                last_cast.missile = Some(now_millis);
                let chosen = closest_monster(cast.target_position, monsters, MISSILE_TARGET_RANGE);
                proof {
                    lemma_closest_unique(cast.target_position, monsters@, MISSILE_TARGET_RANGE, chosen);
                }
                let target = match chosen {
                    Some(i) => MissileTarget::Target(monsters[i].0),
                    None => MissileTarget::Destination(cast.target_position),
                };
                let velocity = scaled_direction(cast.cast_position, cast.target_position, MISSILE_MAX_SPEED);
                Some((
                    WorldPosition::new(cast.cast_position),
                    Missile::new(MISSILE_RADIUS, target, velocity, frame),
                ))
            },
        }
    }
}

/// `chosen` is what `closest_monster` may return.
pub open spec fn is_closest(point: Vector2, monsters: Seq<(Handle, Vector2)>, range: u32, chosen: Option<usize>) -> bool {
    &&& chosen is None <==> forall|i: int| 0 <= i < monsters.len() ==> !in_range(monsters, i, point, range)
    &&& chosen matches Some(i) ==> {
        &&& i < monsters.len()
        &&& in_range(monsters, i as int, point, range)
        &&& forall|j: int|
            0 <= j < monsters.len() && in_range(monsters, j, point, range) ==> sq_dist_spec(
                monsters[i as int].1,
                point,
            ) <= sq_dist_spec(monsters[j].1, point)
        &&& forall|j: int|
            0 <= j < i && in_range(monsters, j, point, range) ==> sq_dist_spec(
                monsters[i as int].1,
                point,
            ) < sq_dist_spec(monsters[j].1, point)
    }
}

/// The nearest monster in range, first on ties.
pub open spec fn closest_spec(point: Vector2, monsters: Seq<(Handle, Vector2)>, range: u32) -> Option<usize> {
    choose|c: Option<usize>| is_closest(point, monsters, range, c)
}

/// Exactly one choice meets the contract of `closest_monster`.
proof fn lemma_closest_unique(point: Vector2, monsters: Seq<(Handle, Vector2)>, range: u32, chosen: Option<usize>)
    requires
        is_closest(point, monsters, range, chosen),
    ensures
        closest_spec(point, monsters, range) == chosen,
{
    let c = closest_spec(point, monsters, range);
    assert(is_closest(point, monsters, range, c));
    if let (Some(a), Some(b)) = (c, chosen) {
        if a < b {
            assert(sq_dist_spec(monsters[b as int].1, point) < sq_dist_spec(monsters[a as int].1, point));
        } else if b < a {
            assert(sq_dist_spec(monsters[a as int].1, point) < sq_dist_spec(monsters[b as int].1, point));
        }
    }
}

/// `v` is the velocity of a missile cast from `from` toward `to`.
pub open spec fn is_missile_velocity(from: Vector2, to: Vector2, v: Vector2) -> bool {
    &&& sq_dist_spec(from, to) == 0 ==> v == (Vector2 { x: 0, y: 0 })
    &&& sq_dist_spec(from, to) > 0 ==> exists|len: int|
        is_isqrt(sq_dist_spec(from, to), len) && v.x == scaled_component(
            to.x - from.x,
            MISSILE_MAX_SPEED as int,
            len,
        ) && v.y == scaled_component(to.y - from.y, MISSILE_MAX_SPEED as int, len)
}

} // verus!
