//! The bookkeeping of the connection pool: how many connections are open,
//! how many of them wait idle, and when a new one may be opened.

use vstd::prelude::*;
use crate::error::{Error, Result};

verus! {

/// The pool size after admitting one more connection, or `None` when the
/// pool is closed or already holds `max` connections.
pub open spec fn next_size_spec(size: u32, max: u32, closed: bool) -> Option<u32> {
    if closed || size >= max {
        None
    } else {
        Some((size + 1) as u32)
    }
}

/// Try to grow the pool size by one for a new connection: refused when the
/// pool is closed, when the size would overflow, or when it would exceed
/// `max`.
pub fn next_pool_size(size: u32, max: u32, closed: bool) -> (r: Option<u32>)
    ensures
        r == next_size_spec(size, max, closed),
{
    if closed {
        return None;
    }
    match size.checked_add(1) {
        Some(next) => if next <= max {
            Some(next)
        } else {
            None
        },
        None => None,
    }
}

/// Admission never lets the pool grow past its maximum, and grows it by
/// exactly one.
pub proof fn lemma_pool_size_bounded(size: u32, max: u32, closed: bool)
    ensures
        next_size_spec(size, max, closed) matches Some(n) ==> n <= max && n == size + 1 && !closed,
        size < max && !closed ==> next_size_spec(size, max, closed) is Some,
{
}

/// The counters of a connection pool.
///
/// `size` connections are open, `idle` of them wait in the idle queue, and
/// at most `max` may be open at once.
#[derive(Debug, Clone, Copy, PartialEq, Eq, Structural)]
pub struct PoolState {
    /// Open connections.
    pub size: u32,
    /// Open connections waiting in the idle queue.
    pub idle: u32,
    /// The most connections the pool may hold.
    pub max: u32,
    /// Whether the pool has been closed.
    pub closed: bool,
}

/// What one attempt to acquire a connection does, once it holds a permit.
#[derive(Debug, Clone, Copy, PartialEq, Eq, Structural)]
pub enum AcquireStep {
    /// Hand out a connection taken from the idle queue.
    ReuseIdle,
    /// Open a new connection; the size already counts it.
    OpenNew,
    /// Neither was possible: yield and try again.
    Retry,
}

/// One attempt to acquire a connection with a permit in hand: the counters
/// after it and what it does.
pub open spec fn acquire_step_spec(s: PoolState) -> (PoolState, AcquireStep) {
    if s.idle > 0 {
        (PoolState { idle: (s.idle - 1) as u32, ..s }, AcquireStep::ReuseIdle)
    } else {
        match next_size_spec(s.size, s.max, s.closed) {
            Some(n) => (PoolState { size: n, ..s }, AcquireStep::OpenNew),
            None => (s, AcquireStep::Retry),
        }
    }
}

impl PoolState {
    /// The counters are consistent: idle connections are open ones, and no
    /// more than `max` are open.
    pub open spec fn wf(self) -> bool {
        self.idle <= self.size <= self.max
    }

    /// An empty, open pool of at most `max` connections.
    pub fn new(max: u32) -> (r: PoolState)
        ensures
            r == (PoolState { size: 0, idle: 0, max, closed: false }),
            r.wf(),
    {
        PoolState { size: 0, idle: 0, max, closed: false }
    }

    /// One attempt of `acquire` with a permit in hand: take an idle
    /// connection if there is one; otherwise count a new connection if the
    /// pool is open and below its maximum; otherwise retry.
    pub fn acquire_step(&mut self) -> (r: AcquireStep)
        requires
            old(self).wf(),
        ensures
            final(self).wf(),
            final(self).max == old(self).max,
            final(self).closed == old(self).closed,
            old(self).idle > 0 ==> r == AcquireStep::ReuseIdle && final(self).idle == old(self).idle
                - 1 && final(self).size == old(self).size,
            old(self).idle == 0 && next_size_spec(old(self).size, old(self).max, old(self).closed)
                is Some ==> r == AcquireStep::OpenNew && final(self).idle == 0 && final(self).size
                == old(self).size + 1,
            old(self).idle == 0 && next_size_spec(old(self).size, old(self).max, old(self).closed)
                is None ==> r == AcquireStep::Retry && *final(self) == *old(self),
            (*final(self), r) == acquire_step_spec(*old(self)),
    {
        if self.idle > 0 {
            self.idle = self.idle - 1;
            return AcquireStep::ReuseIdle;
        }
        match next_pool_size(self.size, self.max, self.closed) {
            Some(n) => {
                self.size = n;
                AcquireStep::OpenNew
            },
            None => AcquireStep::Retry,
        }
    }

    /// `acquire` on this pool: a closed pool refuses with
    /// [`Error::PoolClosed`] and changes nothing; an open one makes one
    /// attempt as [`acquire_step`](Self::acquire_step) does.
    pub fn acquire(&mut self) -> (r: Result<AcquireStep>)
        requires
            old(self).wf(),
        ensures
            final(self).wf(),
            old(self).closed ==> (r matches Err(Error::PoolClosed) && *final(self) == *old(self)),
            !old(self).closed ==> (r matches Ok(a) && (*final(self), a) == acquire_step_spec(
                *old(self),
            )),
    {
        if self.closed {
            return Err(Error::PoolClosed);
        }
        Ok(self.acquire_step())
    }

    /// `try_acquire`: take an idle connection without waiting, unless the
    /// pool is closed.
    pub fn try_acquire(&mut self) -> (r: bool)
        requires
            old(self).wf(),
        ensures
            final(self).wf(),
            r == (!old(self).closed && old(self).idle > 0),
            r ==> *final(self) == (PoolState { idle: (old(self).idle - 1) as u32, ..*old(self) }),
            !r ==> *final(self) == *old(self),
    {
        if self.closed || self.idle == 0 {
            return false;
        }
        self.idle = self.idle - 1;
        true
    }

    /// A connection in use goes back to the idle queue.
    pub fn release(&mut self)
        requires
            old(self).wf(),
            old(self).idle < old(self).size,
        ensures
            final(self).wf(),
            *final(self) == (PoolState { idle: (old(self).idle + 1) as u32, ..*old(self) }),
    {
        self.idle = self.idle + 1;
    }

    /// A connection in use is closed, or failed to open: it no longer
    /// counts toward the size.
    pub fn discard(&mut self)
        requires
            old(self).wf(),
            old(self).idle < old(self).size,
        ensures
            final(self).wf(),
            *final(self) == (PoolState { size: (old(self).size - 1) as u32, ..*old(self) }),
    {
        self.size = self.size - 1;
    }

    /// An idle connection is taken out and closed while the pool shuts down.
    pub fn close_idle(&mut self) -> (r: bool)
        requires
            old(self).wf(),
        ensures
            final(self).wf(),
            r == (old(self).idle > 0),
            r ==> *final(self) == (PoolState {
                size: (old(self).size - 1) as u32,
                idle: (old(self).idle - 1) as u32,
                ..*old(self)
            }),
            !r ==> *final(self) == *old(self),
    {
        if self.idle == 0 {
            return false;
        }
        self.idle = self.idle - 1;
        self.size = self.size - 1;
        true
    }

    /// Marks the pool closed; no new connection is counted after this.
    pub fn close(&mut self)
        requires
            old(self).wf(),
        ensures
            final(self).wf(),
            *final(self) == (PoolState { closed: true, ..*old(self) }),
    {
        self.closed = true;
    }
}

/// Once closed, a pool never opens another connection: every attempt
/// either reuses an idle one or retries.
pub proof fn lemma_closed_pool_opens_nothing(s: PoolState)
    requires
        s.wf(),
        s.closed,
    ensures
        next_size_spec(s.size, s.max, s.closed) is None,
{
}

} // verus!
