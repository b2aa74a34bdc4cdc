//! The signal bus: a bounded broadcast stream that any number of ports read,
//! each with its own cursor, and a fan-in queue that ports write into and the
//! bus owner drains.
//!
//! Every message broadcast gets the next sequence number. The bus keeps the
//! last `capacity` of them; when a broadcast would exceed that, the oldest is
//! dropped, and a port whose cursor points at a dropped message is told so by
//! `RecvError::Lagged` on its next read instead of skipping silently.

use vstd::prelude::*;

verus! {

/// Why a port read returned no message.
#[derive(Debug, Clone, Copy, PartialEq, Eq, Structural)]
pub enum RecvError {
    /// Nothing new has been broadcast since the port's last read.
    Empty,
    /// The port fell behind by this many messages, which are gone; its next
    /// read starts at the oldest message still kept.
    Lagged(u64),
    /// The bus is torn down and the port has read everything it kept.
    Closed,
}

/// A message that could not be sent, handed back: the bus is torn down,
/// or, for a broadcast, no port is subscribed, so no port could ever
/// observe it.
#[derive(Debug, Clone, PartialEq, Eq)]
pub struct SendError<T>(pub T);

/// What a bus holds, as mathematical values.
pub struct BusView<T> {
    /// The sequence number of the oldest message kept.
    pub head: int,
    /// The messages kept, oldest first.
    pub window: Seq<T>,
    /// The messages written by ports and not yet taken, oldest first.
    pub inbox: Seq<T>,
    pub capacity: int,
    pub closed: bool,
    /// The number of live ports: made and not yet unsubscribed.
    pub ports: int,
}

impl<T> BusView<T> {
    /// The sequence number the next broadcast gets.
    pub open spec fn next(self) -> int {
        self.head + self.window.len()
    }

    pub open spec fn wf(self) -> bool {
        &&& self.capacity > 0
        &&& self.window.len() <= self.capacity
        &&& 0 <= self.head
        &&& self.next() <= u64::MAX
        &&& 0 <= self.ports <= u64::MAX
    }

    /// The bus after a broadcast of `msg`: published where the bus is open
    /// and has a live port, else unchanged.
    pub open spec fn broadcast(self, msg: T) -> BusView<T> {
        if !self.closed && self.ports > 0 {
            self.publish(msg)
        } else {
            self
        }
    }

    /// The messages that a port whose cursor is `cursor` has still to read.
    pub open spec fn visible(self, cursor: int) -> Seq<T> {
        self.window.subrange(cursor - self.head, self.window.len() as int)
    }

    /// The bus after `msg` is broadcast on it: the oldest message is dropped
    /// where the window would exceed the capacity.
    pub open spec fn publish(self, msg: T) -> BusView<T> {
        let w = self.window.push(msg);
        if w.len() > self.capacity {
            BusView { head: self.head + 1, window: w.drop_first(), ..self }
        } else {
            BusView { window: w, ..self }
        }
    }

    /// The bus after each of `msgs` is broadcast on it, in order.
    pub open spec fn publish_all(self, msgs: Seq<T>) -> BusView<T>
        decreases msgs.len(),
    {
        if msgs.len() == 0 {
            self
        } else {
            self.publish_all(msgs.drop_last()).publish(msgs.last())
        }
    }
}

/// A publish/subscribe bus carrying messages of type `T`.
pub struct SignalHub<T> {
    capacity: usize,
    head: u64,
    window: Vec<T>,
    inbox: Vec<T>,
    closed: bool,
    ports: u64,
}

/// A reader's and writer's handle onto a bus: a cursor into its broadcast
/// stream. Ports are made only by `SignalHub::get_port` and
/// `SignalPort::resubscribe`, each of which starts at the next broadcast.
#[derive(Debug, PartialEq, Eq)]
pub struct SignalPort {
    cursor: u64,
}

/// The number of broadcast messages a bus keeps unless told otherwise.
pub const DEFAULT_CAPACITY: usize = 256;

impl<T> View for SignalHub<T> {
    type V = BusView<T>;

    closed spec fn view(&self) -> BusView<T> {
        BusView {
            head: self.head as int,
            window: self.window@,
            inbox: self.inbox@,
            capacity: self.capacity as int,
            closed: self.closed,
            ports: self.ports as int,
        }
    }
}

impl SignalPort {
    /// The sequence number of the next message this port reads.
    pub closed spec fn position(&self) -> int {
        self.cursor as int
    }

    /// Writes `msg` into the fan-in queue of `hub`.
    pub fn send<T>(&self, hub: &mut SignalHub<T>, msg: T) -> (r: Result<(), SendError<T>>)
        requires
            old(hub)@.wf(),
        ensures
            final(hub)@.wf(),
            old(hub)@.closed ==> r == Err::<(), SendError<T>>(SendError(msg)) && final(hub)@
                == old(hub)@,
            !old(hub)@.closed ==> r is Ok && final(hub)@ == (BusView {
                inbox: old(hub)@.inbox.push(msg),
                ..old(hub)@
            }),
    {
        hub.submit(msg)
    }

    /// A further port onto `hub`, subscribed afresh: it reads every message
    /// broadcast from now on and none broadcast before, whatever this port
    /// has left unread; both write into the same fan-in queue.
    pub fn resubscribe<T>(&self, hub: &mut SignalHub<T>) -> (r: SignalPort)
        requires
            old(hub)@.wf(),
            old(hub)@.ports < u64::MAX,
        ensures
            final(hub)@ == (BusView { ports: old(hub)@.ports + 1, ..old(hub)@ }),
            final(hub)@.wf(),
            r.position() == old(hub)@.next(),
            final(hub)@.visible(r.position()) == Seq::<T>::empty(),
    {
        hub.get_port()
    }

    /// Gives this port up: it no longer counts as a receiver of `hub`.
    pub fn unsubscribe<T>(self, hub: &mut SignalHub<T>)
        requires
            old(hub)@.wf(),
            old(hub)@.ports > 0,
        ensures
            final(hub)@ == (BusView { ports: old(hub)@.ports - 1, ..old(hub)@ }),
            final(hub)@.wf(),
    {
        hub.ports = hub.ports - 1;
    }

    /// Whether a read from `hub` would return a message or report a lag.
    pub fn has_pending<T>(&self, hub: &SignalHub<T>) -> (r: bool)
        requires
            hub@.wf(),
        ensures
            r == (self.position() < hub@.next()),
    {
        self.cursor < hub.head + hub.window.len() as u64
    }

    /// Reads the next broadcast message of `hub` that this port has not read.
    pub fn recv<'a, T>(&mut self, hub: &'a SignalHub<T>) -> (r: Result<&'a T, RecvError>)
        requires
            hub@.wf(),
        ensures
            old(self).position() < hub@.head ==> r == Err::<&T, RecvError>(
                RecvError::Lagged((hub@.head - old(self).position()) as u64),
            ) && final(self).position() == hub@.head,
            hub@.head <= old(self).position() < hub@.next() ==> r is Ok && *r.unwrap()
                == hub@.visible(old(self).position())[0] && final(self).position() == old(
                self,
            ).position() + 1,
            old(self).position() >= hub@.next() ==> r == Err::<&T, RecvError>(
                if hub@.closed {
                    RecvError::Closed
                } else {
                    RecvError::Empty
                },
            ) && final(self).position() == old(self).position(),
    {
        if self.cursor < hub.head {
            let missed = hub.head - self.cursor;
            self.cursor = hub.head;
            return Err(RecvError::Lagged(missed));
        }
        let offset = self.cursor - hub.head;
        if offset >= hub.window.len() as u64 {
            if hub.closed {
                return Err(RecvError::Closed);
            } else {
                return Err(RecvError::Empty);
            }
        }
        self.cursor = self.cursor + 1;
        Ok(&hub.window[offset as usize])
    }
}

impl<T> SignalHub<T> {
    /// A bus that keeps the last `capacity` broadcast messages.
    pub fn with_capacity(capacity: usize) -> (r: SignalHub<T>)
        requires
            capacity > 0,
        ensures
            r@.wf(),
            r@ == (BusView::<T> {
                head: 0,
                window: Seq::empty(),
                inbox: Seq::empty(),
                capacity: capacity as int,
                closed: false,
                ports: 0,
            }),
    {
        SignalHub { capacity, head: 0, window: Vec::new(), inbox: Vec::new(), closed: false, ports: 0 }
    }

    /// A bus that keeps the last `DEFAULT_CAPACITY` broadcast messages.
    pub fn new() -> (r: SignalHub<T>)
        ensures
            r@.wf(),
            r@ == (BusView::<T> {
                head: 0,
                window: Seq::empty(),
                inbox: Seq::empty(),
                capacity: DEFAULT_CAPACITY as int,
                closed: false,
                ports: 0,
            }),
    {
        Self::with_capacity(DEFAULT_CAPACITY)
    }

    /// The sequence number the next broadcast gets.
    pub fn next_seq(&self) -> (r: u64)
        requires
            self@.wf(),
        ensures
            r == self@.next(),
    {
        self.head + self.window.len() as u64
    }

    /// The number of messages waiting in the fan-in queue.
    pub fn inbox_len(&self) -> (r: usize)
        ensures
            r == self@.inbox.len(),
    {
        self.inbox.len()
    }

    /// The number of live ports.
    pub fn port_count(&self) -> (r: u64)
        requires
            self@.wf(),
        ensures
            r == self@.ports,
    {
        self.ports
    }

    /// Whether the bus is torn down.
    pub fn is_closed(&self) -> (r: bool)
        ensures
            r == self@.closed,
    {
        self.closed
    }

    /// A new port, which reads every message broadcast from now on and none
    /// broadcast before.
    pub fn get_port(&mut self) -> (r: SignalPort)
        requires
            old(self)@.wf(),
            old(self)@.ports < u64::MAX,
        ensures
            final(self)@ == (BusView { ports: old(self)@.ports + 1, ..old(self)@ }),
            final(self)@.wf(),
            r.position() == old(self)@.next(),
            final(self)@.visible(r.position()) == Seq::<T>::empty(),
    {
        proof {
            assert(old(self)@.visible(old(self)@.next()) =~= Seq::<T>::empty());
        }
        self.ports = self.ports + 1;
        SignalPort { cursor: self.head + self.window.len() as u64 }
    }

    /// Broadcasts `msg` to every live port, and returns how many there are;
    /// where the bus is torn down or has no live port, nothing is published
    /// and `msg` is handed back.
    pub fn send(&mut self, msg: T) -> (r: Result<u64, SendError<T>>)
        requires
            old(self)@.wf(),
            old(self)@.next() < u64::MAX,
        ensures
            final(self)@.wf(),
            final(self)@ == old(self)@.broadcast(msg),
            (old(self)@.closed || old(self)@.ports == 0) ==> r == Err::<u64, SendError<T>>(SendError(msg)),
            !(old(self)@.closed || old(self)@.ports == 0) ==> r == Ok::<u64, SendError<T>>(old(self)@.ports as u64),
    {
        if self.closed || self.ports == 0 {
            return Err(SendError(msg));
        }
        self.window.push(msg);
        if self.window.len() > self.capacity {
            self.window.remove(0);
            self.head = self.head + 1;
        }
        proof {
            let w = old(self)@.window.push(msg);
            if w.len() > old(self)@.capacity {
                assert(self.window@ =~= w.drop_first());
            }
        }
        Ok(self.ports)
    }

    /// Writes `msg` into the fan-in queue.
    pub fn submit(&mut self, msg: T) -> (r: Result<(), SendError<T>>)
        requires
            old(self)@.wf(),
        ensures
            final(self)@.wf(),
            old(self)@.closed ==> r == Err::<(), SendError<T>>(SendError(msg)) && final(self)@
                == old(self)@,
            !old(self)@.closed ==> r is Ok && final(self)@ == (BusView {
                inbox: old(self)@.inbox.push(msg),
                ..old(self)@
            }),
    {
        if self.closed {
            return Err(SendError(msg));
        }
        self.inbox.push(msg);
        Ok(())
    }

    /// Takes the oldest message of the fan-in queue.
    pub fn recv(&mut self) -> (r: Option<T>)
        requires
            old(self)@.wf(),
        ensures
            final(self)@.wf(),
            old(self)@.inbox.len() == 0 ==> r is None && final(self)@ == old(self)@,
            old(self)@.inbox.len() > 0 ==> r == Some(old(self)@.inbox[0]) && final(self)@ == (
            BusView { inbox: old(self)@.inbox.drop_first(), ..old(self)@ }),
    {
        if self.inbox.len() == 0 {
            return None;
        }
        let m = self.inbox.remove(0);
        proof {
            assert(self.inbox@ =~= old(self)@.inbox.drop_first());
        }
        Some(m)
    }

    /// Tears the bus down: sends fail from now on, and each port reads what
    /// it had pending, then `Closed`.
    pub fn close(&mut self)
        requires
            old(self)@.wf(),
        ensures
            final(self)@ == (BusView { closed: true, ..old(self)@ }),
    {
        self.closed = true;
    }
}

proof fn lemma_publish_one<T>(v: BusView<T>, msg: T, cursor: int)
    requires
        v.wf(),
        v.next() < u64::MAX,
        v.head <= cursor <= v.next(),
        v.publish(msg).head <= cursor,
    ensures
        v.publish(msg).wf(),
        v.publish(msg).next() == v.next() + 1,
        v.publish(msg).visible(cursor) == v.visible(cursor).push(msg),
{
    let u = v.publish(msg);
    assert(u.visible(cursor) =~= v.visible(cursor).push(msg));
}

proof fn lemma_publish_all<T>(v: BusView<T>, msgs: Seq<T>, cursor: int)
    requires
        v.wf(),
        v.next() + msgs.len() <= u64::MAX,
        v.head <= cursor <= v.next(),
        v.publish_all(msgs).head <= cursor,
    ensures
        v.publish_all(msgs).wf(),
        v.publish_all(msgs).next() == v.next() + msgs.len(),
        v.publish_all(msgs).head >= v.head,
        v.publish_all(msgs).visible(cursor) == v.visible(cursor) + msgs,
    decreases msgs.len(),
{
    if msgs.len() == 0 {
        assert(v.visible(cursor) + msgs =~= v.visible(cursor));
    } else {
        let rest = msgs.drop_last();
        let u = v.publish_all(rest);
        lemma_head_monotone(v, rest, msgs.last());
        lemma_publish_all(v, rest, cursor);
        lemma_publish_one(u, msgs.last(), cursor);
        assert(v.visible(cursor) + msgs =~= (v.visible(cursor) + rest).push(msgs.last()));
    }
}

proof fn lemma_head_monotone<T>(v: BusView<T>, msgs: Seq<T>, msg: T)
    ensures
        v.publish_all(msgs).publish(msg).head >= v.publish_all(msgs).head,
        v.publish_all(msgs).head >= v.head,
    decreases msgs.len(),
{
    if msgs.len() > 0 {
        lemma_head_monotone(v, msgs.drop_last(), msgs.last());
    }
}

/// Fan-out: ports made from one bus before a run of broadcasts, and not
/// overrun by them, each go on to read what they had pending followed by
/// every one of those broadcasts, in the order they were made, once each.
pub proof fn lemma_fan_out<T>(v: BusView<T>, msgs: Seq<T>, cursors: Seq<int>)
    requires
        v.wf(),
        v.next() + msgs.len() <= u64::MAX,
        forall|i: int| 0 <= i < cursors.len() ==> v.head <= #[trigger] cursors[i] <= v.next(),
        forall|i: int| 0 <= i < cursors.len() ==> v.publish_all(msgs).head <= #[trigger] cursors[i],
    ensures
        forall|i: int|
            0 <= i < cursors.len() ==> #[trigger] v.publish_all(msgs).visible(cursors[i])
                == v.visible(cursors[i]) + msgs,
{
    assert forall|i: int| 0 <= i < cursors.len() implies #[trigger] v.publish_all(msgs).visible(
        cursors[i],
    ) == v.visible(cursors[i]) + msgs by {
        lemma_publish_all(v, msgs, cursors[i]);
    }
}

/// Isolation: a port made after a broadcast reads only what is broadcast
/// after it was made; within the capacity it reads exactly that.
pub proof fn lemma_isolation<T>(v: BusView<T>, msg: T, later: Seq<T>)
    requires
        v.wf(),
        v.next() + 1 + later.len() <= u64::MAX,
        later.len() <= v.capacity,
    ensures
        v.publish(msg).publish_all(later).visible(v.publish(msg).next()) == later,
{
    let u = v.publish(msg);
    let c = u.next();
    lemma_publish_one(v, msg, v.next());
    lemma_window_after(u, later);
    lemma_publish_all(u, later, c);
    assert(u.visible(c) =~= Seq::<T>::empty());
    assert(u.visible(c) + later =~= later);
}

/// After `msgs` are broadcast, the oldest message kept is no later than the
/// first of them, where there are no more of them than the capacity.
proof fn lemma_window_after<T>(v: BusView<T>, msgs: Seq<T>)
    requires
        v.wf(),
        v.next() + msgs.len() <= u64::MAX,
        msgs.len() <= v.capacity,
    ensures
        v.publish_all(msgs).head <= v.next(),
        v.publish_all(msgs).next() == v.next() + msgs.len(),
        v.publish_all(msgs).wf(),
    decreases msgs.len(),
{
    if msgs.len() > 0 {
        let rest = msgs.drop_last();
        lemma_window_after(v, rest);
        lemma_window_len(v, rest);
    }
}

proof fn lemma_window_len<T>(v: BusView<T>, msgs: Seq<T>)
    requires
        v.wf(),
        v.next() + msgs.len() <= u64::MAX,
    ensures
        v.publish_all(msgs).window.len() >= (if msgs.len() < v.capacity {
            msgs.len() as int
        } else {
            v.capacity
        }),
        v.publish_all(msgs).capacity == v.capacity,
        v.publish_all(msgs).wf(),
        v.publish_all(msgs).next() == v.next() + msgs.len(),
    decreases msgs.len(),
{
    if msgs.len() > 0 {
        lemma_window_len(v, msgs.drop_last());
    }
}

} // verus!
