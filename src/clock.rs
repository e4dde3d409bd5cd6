//! Fixed-tick frame clock: the single source of elapsed time.
use vstd::prelude::*;

verus! {

/// Raised when a time query names a frame that has not been reached yet.
#[derive(Debug, Clone, Copy, PartialEq, Eq, Structural)]
pub enum ClockError {
    InvalidFrame,
}

/// A frame counter advanced once per simulation tick of `tick_millis`
/// milliseconds.
#[derive(Debug, Clone, Copy, PartialEq, Eq, Structural)]
pub struct FrameClock {
    pub frame: u64,
    pub tick_millis: u64,
}

impl FrameClock {
    /// The clock can report elapsed milliseconds for every past frame.
    pub open spec fn wf(self) -> bool {
        &&& self.tick_millis > 0
        &&& self.frame * self.tick_millis <= u64::MAX
    }

    /// One more tick keeps every elapsed time representable.
    pub open spec fn can_tick(self) -> bool {
        &&& self.frame < u64::MAX
        &&& (self.frame + 1) * self.tick_millis <= u64::MAX
    }

    /// Milliseconds between `frame` and the current frame.
    pub open spec fn elapsed_spec(self, frame: u64) -> int {
        (self.frame - frame) * self.tick_millis
    }

    /// The clock after one tick.
    pub open spec fn ticked(self) -> FrameClock {
        FrameClock { frame: (self.frame + 1) as u64, tick_millis: self.tick_millis }
    }

    pub fn new(tick_millis: u64) -> (r: FrameClock)
        requires
            tick_millis > 0,
        ensures
            r.wf(),
            r.frame == 0,
            r.tick_millis == tick_millis,
    {
        FrameClock { frame: 0, tick_millis }
    }

    pub fn current_frame(&self) -> (r: u64)
        ensures
            r == self.frame,
    {
        self.frame
    }

    /// Milliseconds of simulated time since frame zero.
    pub fn now_millis(&self) -> (r: u64)
        requires
            self.wf(),
        ensures
            r == self.frame * self.tick_millis,
    {
        self.frame * self.tick_millis
    }

    /// Advances the clock by exactly one frame.
    pub fn tick(&mut self)
        requires
            old(self).wf(),
            old(self).can_tick(),
        ensures
            *final(self) == old(self).ticked(),
            final(self).wf(),
    {
        self.frame = self.frame + 1;
    }

    /// Splits `accumulated_millis` of wall time into the whole ticks now due
    /// and the milliseconds carried over to the next call.
    pub fn ticks_due(&self, accumulated_millis: u64) -> (r: (u64, u64))
        requires
            self.wf(),
        ensures
            r.0 == accumulated_millis / self.tick_millis,
            r.1 == accumulated_millis % self.tick_millis,
            r.1 < self.tick_millis,
    {
        (accumulated_millis / self.tick_millis, accumulated_millis % self.tick_millis)
    }

    /// Milliseconds elapsed since `frame`; fails on a frame not reached yet.
    pub fn millis_since(&self, frame: u64) -> (r: Result<u64, ClockError>)
        requires
            self.wf(),
        ensures
            frame > self.frame <==> r is Err,
            r is Ok ==> r->Ok_0 == self.elapsed_spec(frame),
            r is Err ==> r->Err_0 == ClockError::InvalidFrame,
    {
        if frame > self.frame {
            return Err(ClockError::InvalidFrame);
        }
        let frames = self.frame - frame;
        proof {
            assert(frames * self.tick_millis <= self.frame * self.tick_millis) by (nonlinear_arith)
                requires
                    frames <= self.frame,
            ;
        }
        Ok(frames * self.tick_millis)
    }

    /// Frames elapsed since `frame`, clamped at zero for a frame not reached
    /// yet.
    pub fn frames_since_clamped(&self, frame: u64) -> (r: u64)
        ensures
            frame <= self.frame ==> r == self.frame - frame,
            frame > self.frame ==> r == 0,
    {
        if frame > self.frame {
            0
        } else {
            self.frame - frame
        }
    }
}

/// No time has passed since the current frame.
pub proof fn lemma_elapsed_at_current_frame(c: FrameClock)
    requires
        c.wf(),
    ensures
        c.elapsed_spec(c.frame) == 0,
{
}

/// For a fixed past frame, the elapsed time grows strictly with every tick.
pub proof fn lemma_elapsed_strictly_increases(c: FrameClock, frame: u64)
    requires
        c.wf(),
        c.can_tick(),
        frame <= c.frame,
    ensures
        c.ticked().wf(),
        c.ticked().elapsed_spec(frame) > c.elapsed_spec(frame),
{
    assert(c.ticked().elapsed_spec(frame) == c.elapsed_spec(frame) + c.tick_millis) by (nonlinear_arith)
        requires
            c.ticked().frame == c.frame + 1,
            c.ticked().tick_millis == c.tick_millis,
            frame <= c.frame,
    ;
}

} // verus!
