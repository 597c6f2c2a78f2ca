//! The channels between the two CPUs: the mailbox, one word that holds the
//! address of a message or zero, and the queue of remote calls, a ring of such
//! addresses that the kernel CPU fills without ever waiting.

use vstd::prelude::*;

verus! {

/// The mailbox. The sender stores the address of a message; the receiver
/// reads it, works on the message, and clears the word to hand the message
/// back. The two counters exist in proofs only.
pub struct Mailbox {
    slot: usize,
    sent: Ghost<nat>,
    acknowledged: Ghost<nat>,
}

impl Mailbox {
    /// The word in the mailbox: the address of the message, or zero.
    pub closed spec fn slot(&self) -> usize {
        self.slot
    }

    /// How many messages were sent so far.
    pub closed spec fn sent(&self) -> nat {
        self.sent@
    }

    /// How many messages were acknowledged so far.
    pub closed spec fn acknowledged(&self) -> nat {
        self.acknowledged@
    }

    /// The counters agree with the word: a message is in the mailbox exactly
    /// when one more was sent than acknowledged, and otherwise as many were
    /// acknowledged as sent.
    pub open spec fn wf(&self) -> bool {
        if self.slot() == 0 {
            self.sent() == self.acknowledged()
        } else {
            self.sent() == self.acknowledged() + 1
        }
    }

    /// An empty mailbox.
    pub fn new() -> (mailbox: Mailbox)
        ensures
            mailbox.wf(),
            mailbox.slot() == 0,
            mailbox.sent() == 0,
            mailbox.acknowledged() == 0,
    {
        Mailbox { slot: 0, sent: Ghost(0), acknowledged: Ghost(0) }
    }

    /// Puts the message at `message` in the mailbox. The mailbox must be
    /// empty: the message before this one has been acknowledged.
    pub fn send(&mut self, message: usize)
        requires
            old(self).wf(),
            old(self).slot() == 0,
            message != 0,
        ensures
            final(self).wf(),
            final(self).slot() == message,
            final(self).sent() == old(self).sent() + 1,
            final(self).acknowledged() == old(self).acknowledged(),
    {
        self.slot = message;
        proof {
            self.sent@ = self.sent@ + 1;
        }
    }

    /// Puts the message at `message` in the mailbox if it is empty and the
    /// address is not zero, and says whether it did.
    pub fn try_send(&mut self, message: usize) -> (stored: bool)
        requires
            old(self).wf(),
        ensures
            final(self).wf(),
            stored == (old(self).slot() == 0 && message != 0),
            stored ==> final(self).slot() == message && final(self).sent() == old(self).sent() + 1,
            !stored ==> final(self).slot() == old(self).slot() && final(self).sent() == old(self).sent(),
            final(self).acknowledged() == old(self).acknowledged(),
    {
        if self.slot == 0 && message != 0 {
            self.send(message);
            true
        } else {
            false
        }
    }

    /// The address in the mailbox, or zero. The mailbox stays as it is.
    pub fn receive(&self) -> (message: usize)
        ensures
            message == self.slot(),
    {
        self.slot
    }

    /// Whether a message is in the mailbox. A sender waits while this holds
    /// after it has sent; a receiver waits while it does not.
    pub fn pending(&self) -> (pending: bool)
        ensures
            pending == (self.slot() != 0),
    {
        self.slot != 0
    }

    /// Clears the mailbox. A message that was in it counts as acknowledged;
    /// on an empty mailbox nothing happens.
    pub fn acknowledge(&mut self)
        requires
            old(self).wf(),
        ensures
            final(self).wf(),
            final(self).slot() == 0,
            final(self).sent() == old(self).sent(),
            final(self).acknowledged() == old(self).sent(),
    {
        proof {
            self.acknowledged@ = self.sent@;
        }
        self.slot = 0;
    }
}

/// At every moment each message that was sent has been acknowledged once,
/// but for the one that is in the mailbox, which has not been acknowledged yet.
pub proof fn lemma_handshake(mailbox: Mailbox)
    requires
        mailbox.wf(),
    ensures
        mailbox.acknowledged() <= mailbox.sent() <= mailbox.acknowledged() + 1,
        mailbox.slot() == 0 <==> mailbox.sent() == mailbox.acknowledged(),
{
}

/// How many remote calls the queue holds at most.
pub const RPC_QUEUE_CAPACITY: usize = 64;

/// The queue of remote calls: the kernel CPU puts the address of each call
/// at the back and never waits; the comms CPU takes them from the front.
pub struct RpcQueue {
    ring: Vec<usize>,
    head: usize,
    count: usize,
}

/// The calls in the ring, oldest first.
pub open spec fn queued(ring: Seq<usize>, head: int, count: int) -> Seq<usize> {
    Seq::new(count as nat, |i: int| ring[(head + i) % (ring.len() as int)])
}

impl View for RpcQueue {
    type V = Seq<usize>;

    /// The addresses of the calls that wait, oldest first.
    closed spec fn view(&self) -> Seq<usize> {
        queued(self.ring@, self.head as int, self.count as int)
    }
}

impl RpcQueue {
    /// The ring has its full length, and the indices are within it.
    pub closed spec fn wf(&self) -> bool {
        &&& self.ring@.len() == RPC_QUEUE_CAPACITY
        &&& self.head < RPC_QUEUE_CAPACITY
        &&& self.count <= RPC_QUEUE_CAPACITY
    }

    /// An empty queue.
    pub fn new() -> (queue: RpcQueue)
        ensures
            queue.wf(),
            queue@ == Seq::<usize>::empty(),
    {
        let mut ring: Vec<usize> = Vec::new();
        let mut i: usize = 0;
        while i < RPC_QUEUE_CAPACITY
            invariant
                i <= RPC_QUEUE_CAPACITY,
                ring@.len() == i,
            decreases RPC_QUEUE_CAPACITY - i,
        {
            ring.push(0);
            i += 1;
        }
        let queue = RpcQueue { ring, head: 0, count: 0 };
        assert(queue@ =~= Seq::<usize>::empty());
        queue
    }

    /// Whether no call waits.
    pub fn empty(&self) -> (empty: bool)
        requires
            self.wf(),
        ensures
            empty == (self@.len() == 0),
    {
        self.count == 0
    }

    /// Whether the queue can take no more.
    pub fn full(&self) -> (full: bool)
        requires
            self.wf(),
        ensures
            full == (self@.len() == RPC_QUEUE_CAPACITY),
    {
        self.count == RPC_QUEUE_CAPACITY
    }

    /// Puts `call` at the back, or hands it back when the queue is full.
    pub fn enqueue(&mut self, call: usize) -> (result: Result<(), usize>)
        requires
            old(self).wf(),
        ensures
            final(self).wf(),
            old(self)@.len() < RPC_QUEUE_CAPACITY ==> result is Ok && final(self)@ == old(self)@.push(
                call,
            ),
            old(self)@.len() >= RPC_QUEUE_CAPACITY ==> result == Err::<(), usize>(call) && final(self)@ == old(self)@,
    {
        if self.count == RPC_QUEUE_CAPACITY {
            return Err(call);
        }
        let back = (self.head + self.count) % RPC_QUEUE_CAPACITY;
        self.ring[back] = call;
        self.count = self.count + 1;
        proof {
            let ring = self.ring@;
            let before = old(self).ring@;
            let head = self.head as int;
            let n = old(self).count as int;
            assert forall|i: int| 0 <= i < n + 1 implies #[trigger] self@[i] == old(self)@.push(
                call,
            )[i] by {
                if i < n {
                    lemma_ring_places_differ(head, i, n);
                }
            }
            assert(self@ =~= old(self)@.push(call));
        }
        Ok(())
    }

    /// Takes the oldest call from the front, if there is one.
    pub fn dequeue(&mut self) -> (call: Option<usize>)
        requires
            old(self).wf(),
        ensures
            final(self).wf(),
            old(self)@.len() == 0 ==> call is None && final(self)@ == old(self)@,
            old(self)@.len() > 0 ==> call == Some(old(self)@[0]) && final(self)@ == old(self)@.subrange(1, old(self)@.len() as int),
    {
        if self.count == 0 {
            return None;
        }
        let call = self.ring[self.head];
        let ghost head = self.head as int;
        self.head = (self.head + 1) % RPC_QUEUE_CAPACITY;
        self.count = self.count - 1;
        proof {
            let n = old(self).count as int;
            assert(old(self)@[0] == old(self).ring@[(head + 0) % 64]);
            assert forall|i: int| 0 <= i < n - 1 implies #[trigger] self@[i] == old(self)@.subrange(
                1,
                n,
            )[i] by {
                lemma_ring_step(head, i);
            }
            assert(self@ =~= old(self)@.subrange(1, n));
        }
        Some(call)
    }
}

/// Two places of the ring that are less than its length apart are different.
proof fn lemma_ring_places_differ(head: int, i: int, n: int)
    requires
        0 <= head < 64,
        0 <= i < n < 64,
    ensures
        (head + i) % 64 != (head + n) % 64,
{
}

/// Counting from the place after the head is counting one further from the head.
proof fn lemma_ring_step(head: int, i: int)
    requires
        0 <= head < 64,
        0 <= i < 64,
    ensures
        (((head + 1) % 64) + i) % 64 == (head + (i + 1)) % 64,
{
}

} // verus!
