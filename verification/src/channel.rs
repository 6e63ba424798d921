//! The broadcast receive end: a bounded backlog with lossy-oldest-drop
//! semantics. A slow subscriber that falls behind loses the oldest buffered
//! updates first; that is acceptable because every update is a complete
//! description of its change and a new subscriber always starts from a fresh
//! `Init` snapshot.

use vstd::prelude::*;

verus! {

/// How many updates a receive end buffers before the oldest is dropped.
pub const CHANNEL_CAPACITY: usize = 16;

/// What one buffered send does to a backlog of capacity `cap`: append, after
/// dropping the oldest entry if the backlog is full.
pub open spec fn push_bounded<T>(q: Seq<T>, x: T, cap: nat) -> Seq<T> {
    if q.len() < cap {
        q.push(x)
    } else {
        q.drop_first().push(x)
    }
}

/// One subscriber's receive end: the updates sent but not yet received, in
/// send order, at most `CHANNEL_CAPACITY` of them.
pub struct Channel<T> {
    items: Vec<T>,
}

impl<T> Channel<T> {
    /// The backlog, oldest first.
    pub closed spec fn queue(&self) -> Seq<T> {
        self.items@
    }

    /// The backlog never outgrows the capacity.
    pub open spec fn wf(&self) -> bool {
        self.queue().len() <= CHANNEL_CAPACITY
    }

    /// A fresh receive end with an empty backlog.
    pub fn new() -> (c: Channel<T>)
        ensures
            c.wf(),
            c.queue() == Seq::<T>::empty(),
    {
        Channel { items: Vec::new() }
    }

    /// Buffers one update, dropping the oldest buffered one if the backlog
    /// is full.
    pub fn send(&mut self, x: T)
        requires
            old(self).wf(),
        ensures
            final(self).wf(),
            final(self).queue() == push_bounded(old(self).queue(), x, CHANNEL_CAPACITY as nat),
    {
        if self.items.len() == CHANNEL_CAPACITY {
            let _ = self.items.remove(0);
            proof {
                assert(self.items@ =~= old(self).queue().drop_first());
            }
        }
        self.items.push(x);
    }

    /// Takes the oldest buffered update, if any.
    pub fn recv(&mut self) -> (r: Option<T>)
        requires
            old(self).wf(),
        ensures
            final(self).wf(),
            old(self).queue().len() == 0 ==> r is None && *final(self) == *old(self),
            old(self).queue().len() > 0 ==> r == Some(old(self).queue().first()) && final(self).queue() == old(self).queue().drop_first(),
    {
        if self.items.len() == 0 {
            Option::None
        } else {
            let x = self.items.remove(0);
            proof {
                assert(self.items@ =~= old(self).queue().drop_first());
            }
            Option::Some(x)
        }
    }

    /// How many updates are buffered.
    pub fn len(&self) -> (n: usize)
        ensures
            n == self.queue().len(),
    {
        self.items.len()
    }
}

} // verus!
