//! Double-buffered event channels.
//!
//! An `Events<T>` holds two buffers and a flag selecting which one is
//! currently read from; the other is written to. A sent event lands in the
//! write buffer and becomes visible to `drain`, `len` and `is_empty` — which
//! always observe the read buffer — only after the next `update` call, which
//! swaps the two roles and clears the buffer that has become the write
//! buffer. Producers and a later-running consumer therefore never observe a
//! partially written frame's events: the channel trades exactly one frame of
//! lag for race-free single-threaded semantics.

use vstd::prelude::*;

verus! {

/// A double-buffered queue of events of type `T`.
pub struct Events<T> {
    a: Vec<T>,
    b: Vec<T>,
    read_a: bool,
}

impl<T> Events<T> {
    /// The events currently visible to consumers.
    pub closed spec fn read_seq(&self) -> Seq<T> {
        if self.read_a {
            self.a@
        } else {
            self.b@
        }
    }

    /// The events sent this frame, not yet visible to consumers.
    pub closed spec fn write_seq(&self) -> Seq<T> {
        if self.read_a {
            self.b@
        } else {
            self.a@
        }
    }

    /// Creates a channel with both buffers empty.
    pub fn new() -> (c: Events<T>)
        ensures
            c.read_seq() == Seq::<T>::empty(),
            c.write_seq() == Seq::<T>::empty(),
    {
        Events { a: Vec::new(), b: Vec::new(), read_a: true }
    }

    /// Appends one event to the write buffer; it stays invisible to
    /// consumers until the next `update`.
    pub fn send(&mut self, evt: T)
        ensures
            final(self).read_seq() == old(self).read_seq(),
            final(self).write_seq() == old(self).write_seq().push(evt),
    {
        self.write_mut().push(evt);
    }

    /// Appends the given events to the write buffer, keeping their order;
    /// they stay invisible to consumers until the next `update`.
    pub fn extend(&mut self, evts: Vec<T>)
        ensures
            final(self).read_seq() == old(self).read_seq(),
            final(self).write_seq() == old(self).write_seq() + evts@,
    {
        let mut incoming = evts;
        self.write_mut().append(&mut incoming);
    }

    /// Whether the read buffer holds no events.
    pub fn is_empty(&self) -> (r: bool)
        ensures
            r == (self.read_seq().len() == 0),
    {
        self.read_ref().is_empty()
    }

    /// How many events the read buffer holds.
    pub fn len(&self) -> (n: usize)
        ensures
            n == self.read_seq().len(),
    {
        self.read_ref().len()
    }

    /// Removes and returns all events of the read buffer, in send order. A
    /// second `drain` before the next `update` yields nothing; the write
    /// buffer is untouched.
    pub fn drain(&mut self) -> (r: Vec<T>)
        ensures
            r@ == old(self).read_seq(),
            final(self).read_seq() == Seq::<T>::empty(),
            final(self).write_seq() == old(self).write_seq(),
    {
        let mut out: Vec<T> = Vec::new();
        core::mem::swap(&mut out, self.read_mut());
        out
    }

    /// Swaps the read and write roles, then clears the buffer that is now
    /// written to: everything sent since the last `update` becomes visible,
    /// and what consumers saw before is dropped.
    pub fn update(&mut self)
        ensures
            final(self).read_seq() == old(self).write_seq(),
            final(self).write_seq() == Seq::<T>::empty(),
    {
        self.read_a = !self.read_a;
        self.write_mut().clear();
    }

    /// The read buffer.
    fn read_ref(&self) -> (r: &Vec<T>)
        ensures
            r@ == self.read_seq(),
    {
        if self.read_a {
            &self.a
        } else {
            &self.b
        }
    }

    /// The read buffer, writable.
    fn read_mut(&mut self) -> (r: &mut Vec<T>)
        ensures
            r@ == old(self).read_seq(),
            final(self).read_seq() == final(r)@,
            final(self).write_seq() == old(self).write_seq(),
    {
        if self.read_a {
            &mut self.a
        } else {
            &mut self.b
        }
    }

    /// The write buffer, writable.
    fn write_mut(&mut self) -> (r: &mut Vec<T>)
        ensures
            r@ == old(self).write_seq(),
            final(self).write_seq() == final(r)@,
            final(self).read_seq() == old(self).read_seq(),
    {
        if self.read_a {
            &mut self.b
        } else {
            &mut self.a
        }
    }
}

/// Law: the channel lags by exactly one frame. Take a channel `c0` with
/// both buffers empty and send any events `sent`, in order, giving `c1`
/// (each hypothesis is the stated contract of `send`/`extend`); draining
/// `c1` yields nothing — the sends are invisible this frame. After one
/// `update`, giving `c2`, draining yields exactly `sent` in send order; and
/// since `drain` leaves the read buffer empty and `update` emptied the
/// write buffer, a second drain before another `update` yields nothing.
pub proof fn lemma_event_double_buffer_lag<T>(
    c0: Events<T>,
    c1: Events<T>,
    c2: Events<T>,
    sent: Seq<T>,
)
    requires
        c0.read_seq().len() == 0,
        c0.write_seq().len() == 0,
        c1.read_seq() == c0.read_seq(),
        c1.write_seq() == c0.write_seq() + sent,
        c2.read_seq() == c1.write_seq(),
        c2.write_seq().len() == 0,
    ensures
        c1.read_seq().len() == 0,
        c2.read_seq() == sent,
{
    assert(c0.write_seq() + sent =~= sent);
}

} // verus!
