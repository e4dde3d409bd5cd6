//! One record per remote peer: its read cursor into the shared event log,
//! its liveness timestamps and the last frame it acknowledged.
use vstd::prelude::*;
use crate::components::PlayerCastAction;
use crate::math::Vector2;
use crate::registry::NetIdentifier;

verus! {

/// What a client asks for in one frame.
#[derive(Debug, Clone, Copy, PartialEq, Eq, Structural)]
pub struct ClientIntent {
    pub frame: u64,
    pub walk_dir: Option<Vector2>,
    pub look_dir: Option<Vector2>,
    pub cast: Option<PlayerCastAction>,
}

/// An inbound event, as the transport appends it to the shared log.
#[derive(Debug, Clone, Copy, PartialEq, Eq, Structural)]
pub enum NetEvent {
    Intent(ClientIntent),
    Heartbeat { sent_at: u64 },
    Acknowledge { frame: u64 },
}

/// Append-only log of inbound events, read by many independent cursors.
pub struct EventLog {
    pub events: Vec<NetEvent>,
}

impl EventLog {
    pub fn new() -> (r: EventLog)
        ensures
            r.events@.len() == 0,
    {
        EventLog { events: Vec::new() }
    }

    pub fn push(&mut self, e: NetEvent)
        ensures
            final(self).events@ == old(self).events@.push(e),
    {
        self.events.push(e);
    }

    pub fn len(&self) -> (r: usize)
        ensures
            r == self.events@.len(),
    {
        self.events.len()
    }
}

/// A liveness failure: no heartbeat within the timeout.
#[derive(Debug, Clone, Copy, PartialEq, Eq, Structural)]
pub enum ConnectionError {
    ConnectionTimeout,
}

/// A remote peer's session; times are milliseconds.
#[derive(Debug, Clone, Copy, PartialEq, Eq, Structural)]
pub struct NetConnectionModel {
    pub id: NetIdentifier,
    pub reader: usize,
    pub created_at: u64,
    pub last_pinged_at: u64,
    pub last_acknowledged_update: Option<u64>,
}

/// The larger of an optional frame and a frame.
pub open spec fn max_frame(a: Option<u64>, f: u64) -> Option<u64> {
    match a {
        Some(x) => if x >= f { Some(x) } else { Some(f) },
        None => Some(f),
    }
}

impl NetConnectionModel {
    /// A connection opened at `now`, reading from the end of `log` so that
    /// it never sees events from before it connected.
    pub fn new(id: NetIdentifier, log: &EventLog, now: u64) -> (r: NetConnectionModel)
        ensures
            r.id == id,
            r.reader == log.events@.len(),
            r.created_at == now,
            r.last_pinged_at == now,
            r.last_acknowledged_update is None,
    {
        NetConnectionModel {
            id,
            reader: log.len(),
            created_at: now,
            last_pinged_at: now,
            last_acknowledged_update: None,
        }
    }

    /// Returns the events appended since the last read and moves the cursor
    /// to the end of the log.
    pub fn read_events(&mut self, log: &EventLog) -> (r: Vec<NetEvent>)
        requires
            old(self).reader <= log.events@.len(),
        ensures
            r@ == log.events@.subrange(old(self).reader as int, log.events@.len() as int),
            final(self).reader == log.events@.len(),
            *final(self) == (NetConnectionModel { reader: final(self).reader, ..*old(self) }),
    {
        let mut out: Vec<NetEvent> = Vec::new();
        let mut i = self.reader;
        while i < log.events.len()
            invariant
                self.reader <= i <= log.events@.len(),
                out@ == log.events@.subrange(self.reader as int, i as int),
            decreases log.events@.len() - i,
        {
            out.push(log.events[i]);
            i = i + 1;
        }
        self.reader = log.events.len();
        out
    }

    /// Records a heartbeat received at `now`; the timestamp never moves
    /// back.
    pub fn heartbeat(&mut self, now: u64)
        ensures
            final(self).last_pinged_at == if now > old(self).last_pinged_at { now } else { old(self).last_pinged_at },
            *final(self) == (NetConnectionModel { last_pinged_at: final(self).last_pinged_at, ..*old(self) }),
    {
        if now > self.last_pinged_at {
            self.last_pinged_at = now;
        }
    }

    /// Records that the peer confirmed `frame`; the acknowledged frame never
    /// regresses.
    pub fn acknowledge(&mut self, frame: u64)
        ensures
            final(self).last_acknowledged_update == max_frame(old(self).last_acknowledged_update, frame),
            *final(self) == (NetConnectionModel { last_acknowledged_update: final(self).last_acknowledged_update, ..*old(self) }),
    {
        let next = match self.last_acknowledged_update {
            Some(x) => if x >= frame { x } else { frame },
            None => frame,
        };
        self.last_acknowledged_update = Some(next);
    }

    /// Whether the peer stayed silent for `timeout` milliseconds or more at
    /// time `now`.
    pub open spec fn timed_out_spec(self, now: u64, timeout: u64) -> bool {
        now >= self.last_pinged_at + timeout
    }

    /// Fails with `ConnectionTimeout` when no heartbeat came within
    /// `timeout` milliseconds before `now`.
    pub fn check_liveness(&self, now: u64, timeout: u64) -> (r: Result<(), ConnectionError>)
        ensures
            r is Err <==> self.timed_out_spec(now, timeout),
            r is Err ==> r == Err::<(), ConnectionError>(ConnectionError::ConnectionTimeout),
    {
        if now as u128 >= self.last_pinged_at as u128 + timeout as u128 {
            Err(ConnectionError::ConnectionTimeout)
        } else {
            Ok(())
        }
    }
}

} // verus!
