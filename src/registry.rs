//! Entity handles, the slot arena that issues them, and the registry that
//! maps live handles to network identifiers.
use vstd::prelude::*;
use vstd::hash_map::HashMapWithView;

verus! {

broadcast use vstd::std_specs::hash::group_hash_axioms;

/// A stable, session-wide identifier of an entity, sent over the wire.
pub type NetIdentifier = u64;

/// A process-local reference to an entity: a slot index and the generation
/// of the slot when the entity was spawned.
#[derive(Debug, Clone, Copy, PartialEq, Eq, Structural, Hash)]
pub struct Handle {
    pub index: u32,
    pub generation: u32,
}

/// The registry entry of a network-visible entity.
#[derive(Debug, Clone, Copy, PartialEq, Eq, Structural)]
pub struct EntityNetMetadata {
    pub id: NetIdentifier,
    pub spawned_frame_number: u64,
}

/// Failure to translate between a handle and an identifier.
#[derive(Debug, Clone, Copy, PartialEq, Eq, Structural)]
pub enum NetError {
    NotFound,
}

/// One slot of the entity arena.
#[derive(Debug, Clone, Copy, PartialEq, Eq, Structural)]
pub struct EntitySlot {
    pub generation: u32,
    pub alive: bool,
}

/// Slots of simulation entities; reusing a slot bumps its generation so that
/// handles to the previous occupant stop being alive.
pub struct EntityArena {
    pub slots: Vec<EntitySlot>,
}

impl EntityArena {
    /// Every slot index fits a handle.
    pub open spec fn wf(self) -> bool {
        self.slots@.len() <= u32::MAX
    }

    pub open spec fn is_alive(self, h: Handle) -> bool {
        &&& (h.index as int) < self.slots@.len()
        &&& self.slots@[h.index as int].alive
        &&& self.slots@[h.index as int].generation == h.generation
    }

    /// A slot that can take a new occupant.
    pub open spec fn reusable(s: EntitySlot) -> bool {
        !s.alive && s.generation < u32::MAX
    }

    pub fn new() -> (r: EntityArena)
        ensures
            r.wf(),
            r.slots@.len() == 0,
            forall|h: Handle| !r.is_alive(h),
    {
        EntityArena { slots: Vec::new() }
    }

    /// Spawns an entity in the first reusable slot, or in a new slot; `None`
    /// when every slot index is taken for good.
    pub fn spawn(&mut self) -> (r: Option<Handle>)
        requires
            old(self).wf(),
        ensures
            final(self).wf(),
            r is None <==> (old(self).slots@.len() == u32::MAX && forall|i: int|
                0 <= i < old(self).slots@.len() ==> !Self::reusable(#[trigger] old(self).slots@[i])),
            r is None ==> *final(self) == *old(self),
            r matches Some(h) ==> {
                &&& !old(self).is_alive(h)
                &&& final(self).is_alive(h)
                &&& forall|g: Handle| g != h ==> final(self).is_alive(g) == old(self).is_alive(g)
                &&& (h.index as int) < old(self).slots@.len() ==> h.generation
                    == old(self).slots@[h.index as int].generation + 1
                &&& (h.index as int) >= old(self).slots@.len() ==> h.generation == 0
                &&& final(self).slots@.len() >= old(self).slots@.len()
                &&& forall|i: int|
                    0 <= i < old(self).slots@.len() ==> #[trigger] final(self).slots@[i].generation
                        >= old(self).slots@[i].generation
            },
    {
        let n = self.slots.len();
        let mut i: usize = 0;
        while i < n
            invariant
                n == self.slots@.len(),
                n <= u32::MAX,
                *self == *old(self),
                i <= n,
                forall|j: int| 0 <= j < i ==> !Self::reusable(#[trigger] self.slots@[j]),
            decreases n - i,
        {
            let s = self.slots[i];
            if !s.alive && s.generation < u32::MAX {
                let h = Handle { index: i as u32, generation: s.generation + 1 };
                proof {
                    assert(Self::reusable(old(self).slots@[i as int]));
                }
                self.slots.set(i, EntitySlot { generation: h.generation, alive: true });
                return Some(h);
            }
            i = i + 1;
        }
        if n >= 0xffff_ffff {
            return None;
        }
        let h = Handle { index: n as u32, generation: 0 };
        self.slots.push(EntitySlot { generation: 0, alive: true });
        Some(h)
    }

    /// Marks the entity dead; returns whether it was alive.
    pub fn despawn(&mut self, h: Handle) -> (r: bool)
        requires
            old(self).wf(),
        ensures
            final(self).wf(),
            r == old(self).is_alive(h),
            forall|g: Handle| final(self).is_alive(g) == (old(self).is_alive(g) && g != h),
            final(self).slots@.len() == old(self).slots@.len(),
            forall|i: int|
                0 <= i < old(self).slots@.len() ==> #[trigger] final(self).slots@[i].generation
                    == old(self).slots@[i].generation,
    {
        let idx = h.index as usize;
        if idx < self.slots.len() {
            let s = self.slots[idx];
            if s.alive && s.generation == h.generation {
                self.slots.set(idx, EntitySlot { generation: s.generation, alive: false });
                return true;
            }
        }
        false
    }

    pub fn is_alive_handle(&self, h: Handle) -> (r: bool)
        ensures
            r == self.is_alive(h),
    {
        let idx = h.index as usize;
        idx < self.slots.len() && self.slots[idx].alive && self.slots[idx].generation
            == h.generation
    }
}

/// The key under which a handle is stored: slot index in the high half,
/// generation in the low half.
pub open spec fn handle_key(h: Handle) -> u64 {
    ((h.index as u64) << 32u64) | (h.generation as u64)
}

proof fn lemma_handle_key_injective(a: Handle, b: Handle)
    ensures
        handle_key(a) == handle_key(b) ==> a == b,
{
    let (ai, ag, bi, bg) = (a.index as u64, a.generation as u64, b.index as u64, b.generation as u64);
    assert(ai < 0x1_0000_0000u64 && ag < 0x1_0000_0000u64 && bi < 0x1_0000_0000u64 && bg
        < 0x1_0000_0000u64);
    assert((ai << 32u64) | ag == (bi << 32u64) | bg ==> ai == bi && ag == bg) by (bit_vector)
        requires
            ai < 0x1_0000_0000u64,
            ag < 0x1_0000_0000u64,
            bi < 0x1_0000_0000u64,
            bg < 0x1_0000_0000u64,
    ;
}

fn key_of(h: Handle) -> (r: u64)
    ensures
        r == handle_key(h),
{
    ((h.index as u64) << 32u64) | (h.generation as u64)
}

/// Outcome of translating a handle to its identifier in registry `m`.
pub open spec fn resolve_id_spec(m: Map<Handle, EntityNetMetadata>, h: Handle) -> Result<
    NetIdentifier,
    NetError,
> {
    if m.contains_key(h) {
        Ok(m[h].id)
    } else {
        Err(NetError::NotFound)
    }
}

/// Some registered entity carries identifier `id`.
pub open spec fn has_id(m: Map<Handle, EntityNetMetadata>, id: NetIdentifier) -> bool {
    exists|h: Handle| m.contains_key(h) && #[trigger] m[h].id == id
}

/// No two registered entities share an identifier.
pub open spec fn ids_unique(m: Map<Handle, EntityNetMetadata>) -> bool {
    forall|a: Handle, b: Handle|
        m.contains_key(a) && m.contains_key(b) && #[trigger] m[a].id == #[trigger] m[b].id ==> a
            == b
}

/// Outcome of translating an identifier to its handle in registry `m`.
pub open spec fn resolve_handle_spec(m: Map<Handle, EntityNetMetadata>, id: NetIdentifier) -> Result<
    Handle,
    NetError,
> {
    if has_id(m, id) {
        Ok(choose|h: Handle| m.contains_key(h) && #[trigger] m[h].id == id)
    } else {
        Err(NetError::NotFound)
    }
}

/// Bidirectional mapping between live handles and network identifiers.
pub struct Registry {
    by_handle: HashMapWithView<u64, (Handle, EntityNetMetadata)>,
    by_id: HashMapWithView<u64, Handle>,
    next_id: u64,
}

impl Registry {
    /// The registered entities.
    pub closed spec fn entries(self) -> Map<Handle, EntityNetMetadata> {
        Map::new(
            |h: Handle| self.by_handle@.contains_key(handle_key(h)),
            |h: Handle| self.by_handle@[handle_key(h)].1,
        )
    }

    /// The identifier the next registration hands out.
    pub closed spec fn next_identifier(self) -> u64 {
        self.next_id
    }

    pub closed spec fn wf(self) -> bool {
        &&& forall|k: u64| #[trigger]
            self.by_handle@.contains_key(k) ==> handle_key(self.by_handle@[k].0) == k
        &&& forall|k: u64| #[trigger]
            self.by_handle@.contains_key(k) ==> {
                let (h, m) = self.by_handle@[k];
                &&& m.id < self.next_id
                &&& self.by_id@.contains_key(m.id)
                &&& self.by_id@[m.id] == h
            }
        &&& forall|id: u64| #[trigger]
            self.by_id@.contains_key(id) ==> {
                let k = handle_key(self.by_id@[id]);
                &&& self.by_handle@.contains_key(k)
                &&& self.by_handle@[k].1.id == id
            }
    }

    /// Every well-formed registry keeps identifiers distinct and below the
    /// next one to be issued.
    pub proof fn lemma_wf_ids(self)
        requires
            self.wf(),
        ensures
            ids_unique(self.entries()),
            forall|h: Handle| #[trigger]
                self.entries().contains_key(h) ==> self.entries()[h].id < self.next_identifier(),
    {
        assert forall|a: Handle, b: Handle|
            self.entries().contains_key(a) && self.entries().contains_key(b)
                && #[trigger] self.entries()[a].id == #[trigger] self.entries()[b].id implies a
            == b by {
            let ka = handle_key(a);
            let kb = handle_key(b);
            assert(self.by_handle@.contains_key(ka));
            assert(self.by_handle@.contains_key(kb));
            lemma_handle_key_injective(a, self.by_handle@[ka].0);
            lemma_handle_key_injective(b, self.by_handle@[kb].0);
        }
        assert forall|h: Handle| #[trigger]
            self.entries().contains_key(h) implies self.entries()[h].id < self.next_identifier() by {
            assert(self.by_handle@.contains_key(handle_key(h)));
        }
    }

    pub fn new() -> (r: Registry)
        ensures
            r.wf(),
            r.entries() == Map::<Handle, EntityNetMetadata>::empty(),
            r.next_identifier() == 0,
    {
        let r = Registry { by_handle: HashMapWithView::new(), by_id: HashMapWithView::new(), next_id: 0 };
        assert(r.entries() =~= Map::<Handle, EntityNetMetadata>::empty());
        r
    }

    /// The registry entry of `h`, if it is registered.
    pub fn metadata(&self, h: Handle) -> (r: Option<EntityNetMetadata>)
        requires
            self.wf(),
        ensures
            r is Some <==> self.entries().contains_key(h),
            r matches Some(m) ==> m == self.entries()[h],
    {
        let k = key_of(h);
        match self.by_handle.get(&k) {
            Some(e) => {
                proof {
                    lemma_handle_key_injective(h, e.0);
                }
                if e.0 == h {
                    Some(e.1)
                } else {
                    None
                }
            },
            None => None,
        }
    }

    /// Translates a handle to its network identifier, for outbound messages.
    pub fn resolve_to_identifier(&self, h: Handle) -> (r: Result<NetIdentifier, NetError>)
        requires
            self.wf(),
        ensures
            r == resolve_id_spec(self.entries(), h),
    {
        match self.metadata(h) {
            Some(m) => Ok(m.id),
            None => Err(NetError::NotFound),
        }
    }

    /// Translates a network identifier to the local handle, for inbound
    /// messages.
    pub fn resolve_to_handle(&self, id: NetIdentifier) -> (r: Result<Handle, NetError>)
        requires
            self.wf(),
        ensures
            r == resolve_handle_spec(self.entries(), id),
            r matches Ok(h) ==> self.entries().contains_key(h) && self.entries()[h].id == id,
    {
        proof {
            self.lemma_wf_ids();
        }
        match self.by_id.get(&id) {
            Some(h) => {
                let h = *h;
                proof {
                    let k = handle_key(h);
                    assert(self.by_handle@.contains_key(k));
                    lemma_handle_key_injective(h, self.by_handle@[k].0);
                    assert(self.entries().contains_key(h));
                    assert(self.entries()[h].id == id);
                    let c = choose|g: Handle| self.entries().contains_key(g) && #[trigger] self.entries()[g].id == id;
                    assert(self.entries().contains_key(c) && self.entries()[c].id == id);
                }
                Ok(h)
            },
            None => {
                proof {
                    if has_id(self.entries(), id) {
                        let g = choose|g: Handle| self.entries().contains_key(g) && #[trigger] self.entries()[g].id == id;
                        assert(self.by_handle@.contains_key(handle_key(g)));
                        lemma_handle_key_injective(g, self.by_handle@[handle_key(g)].0);
                    }
                }
                Err(NetError::NotFound)
            },
        }
    }

    /// Makes `h` network-visible under a fresh identifier, recording the
    /// frame it was spawned in. A handle already registered keeps its
    /// identifier.
    pub fn register(&mut self, h: Handle, frame: u64) -> (r: NetIdentifier)
        requires
            old(self).wf(),
            old(self).next_identifier() < u64::MAX,
        ensures
            final(self).wf(),
            old(self).entries().contains_key(h) ==> {
                &&& r == old(self).entries()[h].id
                &&& final(self).entries() == old(self).entries()
                &&& final(self).next_identifier() == old(self).next_identifier()
            },
            !old(self).entries().contains_key(h) ==> {
                &&& r == old(self).next_identifier()
                &&& !has_id(old(self).entries(), r)
                &&& final(self).entries() == old(self).entries().insert(
                    h,
                    EntityNetMetadata { id: r, spawned_frame_number: frame },
                )
                &&& final(self).next_identifier() == old(self).next_identifier() + 1
            },
    {
        if let Some(m) = self.metadata(h) {
            return m.id;
        }
        let id = self.next_id;
        let k = key_of(h);
        proof {
            self.lemma_wf_ids();
        }
        let meta = EntityNetMetadata { id, spawned_frame_number: frame };
        proof {
            if self.by_handle@.contains_key(k) {
                lemma_handle_key_injective(h, self.by_handle@[k].0);
            }
            assert(!self.by_id@.contains_key(id));
        }
        self.by_handle.insert(k, (h, meta));
        self.by_id.insert(id, h);
        self.next_id = id + 1;
        proof {
            assert forall|g: Handle| #[trigger] self.entries().contains_key(g) || old(self).entries().insert(h, meta).contains_key(g) implies
                (self.entries().contains_key(g) == old(self).entries().insert(h, meta).contains_key(g)
                && self.entries()[g] == old(self).entries().insert(h, meta)[g]) by {
                lemma_handle_key_injective(g, h);
            }
            assert(self.entries() =~= old(self).entries().insert(h, meta));
            assert forall|k2: u64| #[trigger] self.by_handle@.contains_key(k2) implies {
                let (h2, m2) = self.by_handle@[k2];
                &&& m2.id < self.next_id
                &&& self.by_id@.contains_key(m2.id)
                &&& self.by_id@[m2.id] == h2
            } by {
                if k2 != k {
                    assert(old(self).by_handle@.contains_key(k2));
                }
            }
            assert forall|id2: u64| #[trigger] self.by_id@.contains_key(id2) implies {
                let k2 = handle_key(self.by_id@[id2]);
                &&& self.by_handle@.contains_key(k2)
                &&& self.by_handle@[k2].1.id == id2
            } by {
                if id2 != id {
                    let k2 = handle_key(old(self).by_id@[id2]);
                    assert(old(self).by_handle@.contains_key(k2));
                    assert(k2 != k);
                }
            }
        }
        id
    }

    /// Removes `h` from the network layer; returns whether it was
    /// registered. Identifiers are never handed out again.
    pub fn unregister(&mut self, h: Handle) -> (r: bool)
        requires
            old(self).wf(),
        ensures
            final(self).wf(),
            r == old(self).entries().contains_key(h),
            final(self).entries() == old(self).entries().remove(h),
            final(self).next_identifier() == old(self).next_identifier(),
    {
        match self.metadata(h) {
            None => {
                proof {
                    assert(self.entries() =~= old(self).entries().remove(h));
                }
                false
            },
            Some(m) => {
                let k = key_of(h);
                proof {
                    lemma_handle_key_injective(h, self.by_handle@[k].0);
                }
                self.by_handle.remove(&k);
                self.by_id.remove(&m.id);
                proof {
                    assert forall|g: Handle| #[trigger] self.entries().contains_key(g) || old(self).entries().contains_key(g) implies
                        (self.entries().contains_key(g) == (old(self).entries().contains_key(g) && g != h)) by {
                        lemma_handle_key_injective(g, h);
                    }
                    assert(self.entries() =~= old(self).entries().remove(h));
                    assert forall|k2: u64| #[trigger] self.by_handle@.contains_key(k2) implies {
                        let (h2, m2) = self.by_handle@[k2];
                        &&& m2.id < self.next_id
                        &&& self.by_id@.contains_key(m2.id)
                        &&& self.by_id@[m2.id] == h2
                    } by {
                        assert(old(self).by_handle@.contains_key(k2));
                        let (h2, m2) = self.by_handle@[k2];
                        if m2.id == m.id {
                            assert(old(self).by_id@[m.id] == h);
                            assert(handle_key(h2) == k2);
                        }
                    }
                    assert forall|id2: u64| #[trigger] self.by_id@.contains_key(id2) implies {
                        let k2 = handle_key(self.by_id@[id2]);
                        &&& self.by_handle@.contains_key(k2)
                        &&& self.by_handle@[k2].1.id == id2
                    } by {
                        assert(old(self).by_id@.contains_key(id2));
                        let k2 = handle_key(old(self).by_id@[id2]);
                        assert(old(self).by_handle@.contains_key(k2));
                    }
                }
                true
            },
        }
    }
}

/// A registered handle resolves to its identifier until it is itself
/// unregistered: registering or unregistering other handles leaves its
/// resolution as it was, and unregistering it makes it resolve to
/// `NotFound`.
pub proof fn lemma_resolve_until_unregistered(
    m: Map<Handle, EntityNetMetadata>,
    h: Handle,
    meta: EntityNetMetadata,
    other: Handle,
    other_meta: EntityNetMetadata,
)
    ensures
        resolve_id_spec(m.insert(h, meta), h) == Ok::<NetIdentifier, NetError>(meta.id),
        other != h ==> resolve_id_spec(m.insert(other, other_meta), h) == resolve_id_spec(m, h),
        other != h ==> resolve_id_spec(m.remove(other), h) == resolve_id_spec(m, h),
        resolve_id_spec(m.remove(h), h) == Err::<NetIdentifier, NetError>(NetError::NotFound),
{
}

} // verus!
