//! Per-tick replication: draining each connection's queued events into the
//! player's intents, and encoding / decoding authoritative world updates.
use vstd::prelude::*;
use crate::action::{MobAction, from_net_spec, to_net_spec};
use crate::clock::FrameClock;
use crate::components::{PlayerActions, PlayerLookAction, PlayerWalkAction};
use crate::connection::{ClientIntent, EventLog, NetConnectionModel, NetEvent, max_frame};
use crate::math::Vector2;
use crate::registry::{EntityNetMetadata, Handle, NetIdentifier, Registry};

verus! {

/// One intent applied on top of the player's current intents: directions
/// are replaced when given, and the first cast of the tick is kept.
pub open spec fn apply_intent_spec(a: PlayerActions, i: ClientIntent) -> PlayerActions {
    PlayerActions {
        walk_action: match i.walk_dir {
            Some(d) => PlayerWalkAction { direction: d },
            None => a.walk_action,
        },
        look_action: match i.look_dir {
            Some(d) => PlayerLookAction { direction: d },
            None => a.look_action,
        },
        cast_action: if a.cast_action is Some { a.cast_action } else { i.cast },
    }
}

/// One event, received at `now`, applied to the player's intents and the
/// connection record.
pub open spec fn apply_event_spec(
    st: (PlayerActions, NetConnectionModel),
    e: NetEvent,
    now: u64,
) -> (PlayerActions, NetConnectionModel) {
    let (a, c) = st;
    match e {
        NetEvent::Intent(i) => (apply_intent_spec(a, i), c),
        NetEvent::Heartbeat { .. } => (
            a,
            NetConnectionModel {
                last_pinged_at: if now > c.last_pinged_at { now } else { c.last_pinged_at },
                ..c
            },
        ),
        NetEvent::Acknowledge { frame } => (
            a,
            NetConnectionModel { last_acknowledged_update: max_frame(c.last_acknowledged_update, frame), ..c },
        ),
    }
}

/// Events received at `now` applied in order, first to last.
pub open spec fn apply_events_spec(
    st: (PlayerActions, NetConnectionModel),
    events: Seq<NetEvent>,
    now: u64,
) -> (PlayerActions, NetConnectionModel)
    decreases events.len(),
{
    if events.len() == 0 {
        st
    } else {
        apply_event_spec(apply_events_spec(st, events.drop_last(), now), events.last(), now)
    }
}

pub fn apply_intent(actions: &mut PlayerActions, intent: ClientIntent)
    ensures
        *final(actions) == apply_intent_spec(*old(actions), intent),
{
    if let Some(d) = intent.walk_dir {
        actions.walk_action = PlayerWalkAction { direction: d };
    }
    if let Some(d) = intent.look_dir {
        actions.look_action = PlayerLookAction { direction: d };
    }
    if actions.cast_action.is_none() {
        actions.cast_action = intent.cast;
    }
}

/// Drains, at time `now`, every event the connection has not read yet, in
/// arrival order: intents update the player's intents, heartbeats and
/// acknowledgements update the connection record. Returns the events
/// drained.
pub fn drain_connection(conn: &mut NetConnectionModel, log: &EventLog, actions: &mut PlayerActions, now: u64) -> (r: Vec<NetEvent>)
    requires
        old(conn).reader <= log.events@.len(),
    ensures
        r@ == log.events@.subrange(old(conn).reader as int, log.events@.len() as int),
        final(conn).reader == log.events@.len(),
        (*final(actions), NetConnectionModel { reader: old(conn).reader, ..*final(conn) })
            == apply_events_spec((*old(actions), *old(conn)), r@, now),
{
    let events = conn.read_events(log);
    assert(events@.subrange(0, 0).len() == 0);
    assert(apply_events_spec((*old(actions), *old(conn)), events@.subrange(0, 0), now) == (*old(actions), *old(conn)));
    let mut i: usize = 0;
    while i < events.len()
        invariant
            i <= events@.len(),
            conn.reader == log.events@.len(),
            (*actions, NetConnectionModel { reader: old(conn).reader, ..*conn })
                == apply_events_spec((*old(actions), *old(conn)), events@.subrange(0, i as int), now),
        decreases events@.len() - i,
    {
        let e = events[i];
        match e {
            NetEvent::Intent(intent) => apply_intent(actions, intent),
            NetEvent::Heartbeat { .. } => conn.heartbeat(now),
            NetEvent::Acknowledge { frame } => conn.acknowledge(frame),
        }
        proof {
            assert(events@.subrange(0, i + 1).drop_last() =~= events@.subrange(0, i as int));
        }
        i = i + 1;
    }
    assert(events@.subrange(0, events@.len() as int) =~= events@);
    events
}

/// The authoritative state of one entity, keyed by network identifier.
#[derive(Debug, Clone, Copy, PartialEq, Eq, Structural)]
pub struct EntityDelta {
    pub id: NetIdentifier,
    pub position: Vector2,
    pub action: MobAction<NetIdentifier>,
}

/// The per-tick authoritative message, tagged with the server's frame.
#[derive(Debug, Clone, PartialEq, Eq)]
pub struct WorldUpdate {
    pub frame: u64,
    pub entity_deltas: Vec<EntityDelta>,
}

/// The in-process state of one entity.
#[derive(Debug, Clone, Copy, PartialEq, Eq, Structural)]
pub struct LocalEntity {
    pub handle: Handle,
    pub position: Vector2,
    pub action: MobAction<Handle>,
}

/// The wire form of `e`, when the entity and its action's target are both
/// registered.
pub open spec fn encode_entity_spec(m: Map<Handle, EntityNetMetadata>, e: LocalEntity) -> Option<EntityDelta> {
    if m.contains_key(e.handle) && to_net_spec(m, e.action) is Ok {
        Some(EntityDelta { id: m[e.handle].id, position: e.position, action: to_net_spec(m, e.action)->Ok_0 })
    } else {
        None
    }
}

/// The wire forms of `s`, in order, leaving out entities that cannot be
/// translated.
pub open spec fn encode_all_spec(m: Map<Handle, EntityNetMetadata>, s: Seq<LocalEntity>) -> Seq<EntityDelta>
    decreases s.len(),
{
    if s.len() == 0 {
        Seq::empty()
    } else {
        let rest = encode_all_spec(m, s.drop_last());
        match encode_entity_spec(m, s.last()) {
            Some(d) => rest.push(d),
            None => rest,
        }
    }
}

/// The local form of `d`, when its entity and its action's target are both
/// known here.
pub open spec fn decode_entity_spec(m: Map<Handle, EntityNetMetadata>, d: EntityDelta) -> Option<LocalEntity> {
    match (crate::registry::resolve_handle_spec(m, d.id), from_net_spec(m, d.action)) {
        (Ok(h), Ok(a)) => Some(LocalEntity { handle: h, position: d.position, action: a }),
        _ => None,
    }
}

/// The local forms of `s`, in order, leaving out those that cannot be
/// resolved.
pub open spec fn decode_all_spec(m: Map<Handle, EntityNetMetadata>, s: Seq<EntityDelta>) -> Seq<LocalEntity>
    decreases s.len(),
{
    if s.len() == 0 {
        Seq::empty()
    } else {
        let rest = decode_all_spec(m, s.drop_last());
        match decode_entity_spec(m, s.last()) {
            Some(e) => rest.push(e),
            None => rest,
        }
    }
}

/// Builds this tick's authoritative update: the server's current frame and
/// every entity that can be sent, in order. An entity whose handle or whose
/// action's target is not registered is left out, never sent half-translated.
pub fn encode_world_update(clock: &FrameClock, registry: &Registry, entities: &Vec<LocalEntity>) -> (r: WorldUpdate)
    requires
        registry.wf(),
    ensures
        r.frame == clock.frame,
        r.entity_deltas@ == encode_all_spec(registry.entries(), entities@),
{
    let mut out: Vec<EntityDelta> = Vec::new();
    let mut i: usize = 0;
    while i < entities.len()
        invariant
            i <= entities@.len(),
            registry.wf(),
            out@ == encode_all_spec(registry.entries(), entities@.subrange(0, i as int)),
        decreases entities@.len() - i,
    {
        let e = entities[i];
        proof {
            assert(entities@.subrange(0, i + 1).drop_last() =~= entities@.subrange(0, i as int));
        }
        if let Ok(id) = registry.resolve_to_identifier(e.handle) {
            if let Ok(action) = e.action.load_entity_net_id(registry) {
                out.push(EntityDelta { id, position: e.position, action });
            }
        }
        i = i + 1;
    }
    assert(entities@.subrange(0, entities@.len() as int) =~= entities@);
    WorldUpdate { frame: clock.current_frame(), entity_deltas: out }
}

/// Resolves a received update against the local registry; each delta whose
/// entity or target is unknown here is dropped on its own.
pub fn decode_world_update(registry: &Registry, update: &WorldUpdate) -> (r: Vec<LocalEntity>)
    requires
        registry.wf(),
    ensures
        r@ == decode_all_spec(registry.entries(), update.entity_deltas@),
{
    let mut out: Vec<LocalEntity> = Vec::new();
    let mut i: usize = 0;
    while i < update.entity_deltas.len()
        invariant
            i <= update.entity_deltas@.len(),
            registry.wf(),
            out@ == decode_all_spec(registry.entries(), update.entity_deltas@.subrange(0, i as int)),
        decreases update.entity_deltas@.len() - i,
    {
        let d = update.entity_deltas[i];
        proof {
            assert(update.entity_deltas@.subrange(0, i + 1).drop_last() =~= update.entity_deltas@.subrange(0, i as int));
        }
        if let Ok(h) = registry.resolve_to_handle(d.id) {
            if let Ok(action) = d.action.load_entity_by_net_id(registry) {
                out.push(LocalEntity { handle: h, position: d.position, action });
            }
        }
        i = i + 1;
    }
    assert(update.entity_deltas@.subrange(0, update.entity_deltas@.len() as int) =~= update.entity_deltas@);
    out
}

/// Position of the first entry of `s` for handle `h`, if any.
pub open spec fn first_index(s: Seq<LocalEntity>, h: Handle) -> Option<int> {
    if exists|j: int| 0 <= j < s.len() && (#[trigger] s[j]).handle == h {
        Some(choose|j: int| 0 <= j < s.len() && (#[trigger] s[j]).handle == h && forall|i: int| 0 <= i < j ==> s[i].handle != h)
    } else {
        None
    }
}

/// The authoritative state of `e` in `update`, or `e` as predicted when the
/// update does not mention it.
pub open spec fn reconciled(update: Seq<LocalEntity>, e: LocalEntity) -> LocalEntity {
    match first_index(update, e.handle) {
        Some(j) => update[j],
        None => e,
    }
}

fn find_first(s: &Vec<LocalEntity>, h: Handle) -> (r: Option<usize>)
    ensures
        r is None <==> first_index(s@, h) is None,
        r matches Some(j) ==> first_index(s@, h) == Some(j as int) && j < s@.len(),
{
    let mut j: usize = 0;
    while j < s.len()
        invariant
            j <= s@.len(),
            forall|i: int| 0 <= i < j ==> s@[i].handle != h,
        decreases s@.len() - j,
    {
        if s[j].handle == h {
            proof {
                let c = choose|c: int| 0 <= c < s@.len() && (#[trigger] s@[c]).handle == h && forall|i: int| 0 <= i < c ==> s@[i].handle != h;
                assert(0 <= j < s@.len() && s@[j as int].handle == h && forall|i: int| 0 <= i < j ==> s@[i].handle != h);
                if c < j {
                } else if c > j {
                    assert(s@[j as int].handle != h);
                }
            }
            return Some(j);
        }
        j = j + 1;
    }
    None
}

/// Applies an authoritative update on the client: every local entity that
/// the update mentions takes the update's state; the others keep their
/// predicted state.
pub fn reconcile(local: &mut Vec<LocalEntity>, update: &Vec<LocalEntity>)
    ensures
        final(local)@.len() == old(local)@.len(),
        forall|i: int| 0 <= i < old(local)@.len() ==> #[trigger] final(local)@[i] == reconciled(update@, old(local)@[i]),
{
    let mut i: usize = 0;
    while i < local.len()
        invariant
            i <= local@.len(),
            local@.len() == old(local)@.len(),
            forall|j: int| 0 <= j < i ==> #[trigger] local@[j] == reconciled(update@, old(local)@[j]),
            forall|j: int| i <= j < local@.len() ==> #[trigger] local@[j] == old(local)@[j],
        decreases local@.len() - i,
    {
        let e = local[i];
        if let Some(j) = find_first(update, e.handle) {
            local.set(i, update[j]);
        }
        i = i + 1;
    }
}

/// Unregisters every entity owned by a connection being torn down.
pub fn release_entities(registry: &mut Registry, owned: &Vec<Handle>)
    requires
        old(registry).wf(),
    ensures
        final(registry).wf(),
        final(registry).entries() == old(registry).entries().remove_keys(owned@.to_set()),
        final(registry).next_identifier() == old(registry).next_identifier(),
{
    let mut i: usize = 0;
    while i < owned.len()
        invariant
            i <= owned@.len(),
            registry.wf(),
            registry.entries() == old(registry).entries().remove_keys(owned@.subrange(0, i as int).to_set()),
            registry.next_identifier() == old(registry).next_identifier(),
        decreases owned@.len() - i,
    {
        registry.unregister(owned[i]);
        proof {
            assert(owned@.subrange(0, i + 1).to_set() =~= owned@.subrange(0, i as int).to_set().insert(owned@[i as int])) by {
                assert forall|h: Handle| #[trigger] owned@.subrange(0, i + 1).to_set().contains(h) <==> owned@.subrange(0, i as int).to_set().insert(owned@[i as int]).contains(h) by {
                    if owned@.subrange(0, i + 1).to_set().contains(h) {
                        let k = choose|k: int| 0 <= k < i + 1 && #[trigger] owned@.subrange(0, i + 1)[k] == h;
                        if k < i {
                            assert(owned@.subrange(0, i as int)[k] == h);
                        }
                    }
                    if owned@.subrange(0, i as int).to_set().contains(h) {
                        let k = choose|k: int| 0 <= k < i && #[trigger] owned@.subrange(0, i as int)[k] == h;
                        assert(owned@.subrange(0, i + 1)[k] == h);
                    }
                    if h == owned@[i as int] {
                        assert(owned@.subrange(0, i + 1)[i as int] == h);
                    }
                }
            }
            assert(registry.entries() =~= old(registry).entries().remove_keys(owned@.subrange(0, i + 1).to_set()));
        }
        i = i + 1;
    }
    assert(owned@.subrange(0, owned@.len() as int) =~= owned@);
}

} // verus!
