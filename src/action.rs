//! Mob behaviour as a value: idle, moving, chasing or attacking, with the
//! target referenced by local handle in-process and by network identifier on
//! the wire.
use vstd::prelude::*;
use rand::Rng;
use crate::math::Vector2;
use crate::registry::{
    Handle, NetError, NetIdentifier, Registry, resolve_handle_spec, resolve_id_spec,
};

verus! {

/// Parts per thousand: the unit of spread factors.
pub const PERMILLE: u64 = 1000;

/// How a mob attacks; `SlowMelee` waits `cooldown_millis` between blows.
#[derive(Debug, Clone, Copy, PartialEq, Eq, Structural)]
pub enum MobAttackType {
    Melee,
    SlowMelee { cooldown_millis: u64 },
    Range,
}

/// Payload of the attack state.
#[derive(Debug, Clone, Copy, PartialEq, Eq, Structural)]
pub struct MobAttackAction<T> {
    pub target: T,
    pub attack_type: MobAttackType,
}

/// Current behaviour of a mob, generic over how the target is referenced.
#[derive(Debug, Clone, Copy, PartialEq, Eq, Structural)]
pub enum MobAction<T> {
    /// Just spawned.
    Idle,
    /// Moving to a position.
    Move(Vector2),
    /// Chasing an entity.
    Chase(T),
    /// Attacking a target.
    Attack(MobAttackAction<T>),
}

impl<T> Default for MobAction<T> {
    fn default() -> (r: Self)
        ensures
            r == MobAction::<T>::Idle,
    {
        MobAction::Idle
    }
}

/// Lowest cooldown that a spread of `spread` permille can give.
pub open spec fn cooldown_low(cooldown: u64, spread: u64) -> int {
    cooldown * (PERMILLE - spread) / PERMILLE as int
}

/// Highest cooldown that a spread of `spread` permille can give.
pub open spec fn cooldown_high(cooldown: u64, spread: u64) -> int {
    cooldown * (PERMILLE + spread) / PERMILLE as int
}

/// The inclusive range `[c·(1−f), c·(1+f)]` in which a randomized cooldown
/// falls, for a spread `f` given in permille.
pub fn cooldown_bounds(cooldown: u64, spread_permille: u64) -> (r: (u64, u64))
    requires
        spread_permille < PERMILLE,
        cooldown_high(cooldown, spread_permille) <= u64::MAX,
    ensures
        r.0 == cooldown_low(cooldown, spread_permille),
        r.1 == cooldown_high(cooldown, spread_permille),
        r.0 <= cooldown <= r.1,
{
    let c = cooldown as u128;
    let f = spread_permille as u128;
    proof {
        let (ci, fi) = (cooldown as int, spread_permille as int);
        assert(ci * (1000 - fi) <= ci * 1000 <= ci * (1000 + fi)) by (nonlinear_arith)
            requires
                0 <= fi < 1000,
                ci >= 0,
        ;
        assert(ci * (1000 + fi) < 0x1_0000_0000_0000_0000_0000) by (nonlinear_arith)
            requires
                0 <= fi < 1000,
                0 <= ci <= u64::MAX,
        ;
        assert(ci * (1000 - fi) / 1000 <= ci) by (nonlinear_arith)
            requires
                ci * (1000 - fi) <= ci * 1000,
        ;
        assert(ci <= ci * (1000 + fi) / 1000) by (nonlinear_arith)
            requires
                ci * 1000 <= ci * (1000 + fi),
        ;
    }
    let lo = c * (1000 - f) / 1000;
    let hi = c * (1000 + f) / 1000;
    (lo as u64, hi as u64)
}

/// Relies on `rand::thread_rng` and `rand::Rng::gen_range`: a value drawn
/// from the inclusive range `lo..=hi`, which must not be empty.
#[verifier::external_body]
pub(crate) fn random_in_range(lo: u64, hi: u64) -> (r: u64)
    requires
        lo <= hi,
    ensures
        lo <= r <= hi,
{
    rand::thread_rng().gen_range(lo..=hi)
}

impl MobAttackType {
    /// The spread of `spread_permille` can be applied to this attack type.
    pub open spec fn can_randomize(self, spread_permille: u64) -> bool {
        &&& spread_permille < PERMILLE
        &&& self matches MobAttackType::SlowMelee { cooldown_millis } ==> cooldown_high(
            cooldown_millis,
            spread_permille,
        ) <= u64::MAX
    }

    /// A copy whose cooldown, if it has one, is drawn uniformly from the
    /// spread range around the nominal one; other types are unchanged.
    pub fn randomize_params(&self, spread_permille: u64) -> (r: MobAttackType)
        requires
            self.can_randomize(spread_permille),
        ensures
            match *self {
                MobAttackType::SlowMelee { cooldown_millis } => r matches MobAttackType::SlowMelee {
                    cooldown_millis: c,
                } && cooldown_low(cooldown_millis, spread_permille) <= c <= cooldown_high(
                    cooldown_millis,
                    spread_permille,
                ),
                other => r == other,
            },
    {
        match *self {
            MobAttackType::SlowMelee { cooldown_millis } => {
                let (lo, hi) = cooldown_bounds(cooldown_millis, spread_permille);
                MobAttackType::SlowMelee { cooldown_millis: random_in_range(lo, hi) }
            },
            other => other,
        }
    }
}

impl<T> MobAttackAction<T> {
    /// A fresh attack on `target`; its cooldown, if any, is drawn anew from
    /// the spread around the nominal one and stays fixed for this action.
    pub fn new(target: T, nominal: MobAttackType, spread_permille: u64) -> (r: MobAttackAction<T>)
        requires
            nominal.can_randomize(spread_permille),
        ensures
            r.target == target,
            match nominal {
                MobAttackType::SlowMelee { cooldown_millis } => r.attack_type matches MobAttackType::SlowMelee {
                    cooldown_millis: c,
                } && cooldown_low(cooldown_millis, spread_permille) <= c <= cooldown_high(
                    cooldown_millis,
                    spread_permille,
                ),
                other => r.attack_type == other,
            },
    {
        MobAttackAction { target, attack_type: nominal.randomize_params(spread_permille) }
    }
}

/// Identifier form of `a` in registry `m`, or `NotFound` when its target is
/// not registered.
pub open spec fn to_net_spec(m: Map<Handle, crate::registry::EntityNetMetadata>, a: MobAction<Handle>) -> Result<
    MobAction<NetIdentifier>,
    NetError,
> {
    match a {
        MobAction::Idle => Ok(MobAction::Idle),
        MobAction::Move(d) => Ok(MobAction::Move(d)),
        MobAction::Chase(t) => match resolve_id_spec(m, t) {
            Ok(id) => Ok(MobAction::Chase(id)),
            Err(e) => Err(e),
        },
        MobAction::Attack(aa) => match resolve_id_spec(m, aa.target) {
            Ok(id) => Ok(MobAction::Attack(MobAttackAction { target: id, attack_type: aa.attack_type })),
            Err(e) => Err(e),
        },
    }
}

/// Handle form of `a` in registry `m`, or `NotFound` when no local entity
/// carries its target's identifier.
pub open spec fn from_net_spec(m: Map<Handle, crate::registry::EntityNetMetadata>, a: MobAction<NetIdentifier>) -> Result<
    MobAction<Handle>,
    NetError,
> {
    match a {
        MobAction::Idle => Ok(MobAction::Idle),
        MobAction::Move(d) => Ok(MobAction::Move(d)),
        MobAction::Chase(t) => match resolve_handle_spec(m, t) {
            Ok(h) => Ok(MobAction::Chase(h)),
            Err(e) => Err(e),
        },
        MobAction::Attack(aa) => match resolve_handle_spec(m, aa.target) {
            Ok(h) => Ok(MobAction::Attack(MobAttackAction { target: h, attack_type: aa.attack_type })),
            Err(e) => Err(e),
        },
    }
}

impl MobAction<Handle> {
    /// Translates the action for sending; fails when its target is no longer
    /// registered, in which case the action must not be sent.
    pub fn load_entity_net_id(&self, registry: &Registry) -> (r: Result<MobAction<NetIdentifier>, NetError>)
        requires
            registry.wf(),
        ensures
            r == to_net_spec(registry.entries(), *self),
    {
        match *self {
            MobAction::Idle => Ok(MobAction::Idle),
            MobAction::Move(d) => Ok(MobAction::Move(d)),
            MobAction::Chase(t) => match registry.resolve_to_identifier(t) {
                Ok(id) => Ok(MobAction::Chase(id)),
                Err(e) => Err(e),
            },
            MobAction::Attack(aa) => match registry.resolve_to_identifier(aa.target) {
                Ok(id) => Ok(MobAction::Attack(MobAttackAction { target: id, attack_type: aa.attack_type })),
                Err(e) => Err(e),
            },
        }
    }
}

impl MobAction<NetIdentifier> {
    /// Translates a received action to local handles; fails when its target
    /// is unknown here, in which case the action is dropped.
    pub fn load_entity_by_net_id(self, registry: &Registry) -> (r: Result<MobAction<Handle>, NetError>)
        requires
            registry.wf(),
        ensures
            r == from_net_spec(registry.entries(), self),
    {
        match self {
            MobAction::Idle => Ok(MobAction::Idle),
            MobAction::Move(d) => Ok(MobAction::Move(d)),
            MobAction::Chase(t) => match registry.resolve_to_handle(t) {
                Ok(h) => Ok(MobAction::Chase(h)),
                Err(e) => Err(e),
            },
            MobAction::Attack(aa) => match registry.resolve_to_handle(aa.target) {
                Ok(h) => Ok(MobAction::Attack(MobAttackAction { target: h, attack_type: aa.attack_type })),
                Err(e) => Err(e),
            },
        }
    }
}

/// An action whose target is registered, translated to identifier form and
/// back through the same registry, is the action it started from.
pub proof fn lemma_action_round_trip(registry: Registry, a: MobAction<Handle>)
    requires
        registry.wf(),
        to_net_spec(registry.entries(), a) is Ok,
    ensures
        from_net_spec(registry.entries(), to_net_spec(registry.entries(), a)->Ok_0) == Ok::<MobAction<Handle>, NetError>(a),
{
    registry.lemma_wf_ids();
    let m = registry.entries();
    match a {
        MobAction::Chase(t) => {
            assert(m.contains_key(t) && m[t].id == m[t].id);
        },
        MobAction::Attack(aa) => {
            assert(m.contains_key(aa.target) && m[aa.target].id == m[aa.target].id);
        },
        _ => {},
    }
}

} // verus!
