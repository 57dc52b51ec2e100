//! Bounded FIFO of motion packets from the sampling interrupt to the main
//! loop. A push to a full queue is rejected and hands the packet back.
use vstd::prelude::*;

use heapless::spsc::Queue;

verus! {

/// Packets the queue holds at most.
pub const CAPACITY: usize = 32;

/// One batch of motion samples, tagged with its capture time and the
/// position at capture. Longitude and latitude are the IEEE-754 bit patterns
/// of degrees.
#[derive(Clone, Debug, PartialEq, Eq)]
pub struct MotionPacket {
    pub timestamp: i64,
    pub lon_bits: u64,
    pub lat_bits: u64,
    pub data: Vec<u16>,
}

#[verifier::external_type_specification]
#[verifier::external_body]
#[verifier::reject_recursive_types(T)]
pub struct ExQueue<T, const N: usize>(Queue<T, N>);

/// The packets a ring holds, oldest first.
pub uninterp spec fn ring_items(q: Queue<MotionPacket, 33>) -> Seq<MotionPacket>;

/// Relies on heapless::spsc::Queue::new: an empty ring (it holds one slot
/// less than its size, here `CAPACITY`).
#[verifier::external_body]
fn ring_new() -> (r: Queue<MotionPacket, 33>)
    ensures
        ring_items(r) == Seq::<MotionPacket>::empty(),
{
    Queue::new()
}

/// Relies on heapless::spsc::Queue::enqueue: appends at the back, or hands
/// the value back when `CAPACITY` items are held already; it has no panicking
/// path.
#[verifier::external_body]
fn ring_enqueue(q: &mut Queue<MotionPacket, 33>, p: MotionPacket) -> (rejected: Option<MotionPacket>)
    ensures
        ring_items(*final(q)) == spec_push(ring_items(*old(q)), p),
        rejected == (if ring_items(*old(q)).len() < CAPACITY { None } else { Some(p) }),
    no_unwind
{
    q.enqueue(p).err()
}

/// Relies on heapless::spsc::Queue::dequeue: takes the oldest item, or
/// `None` when the ring is empty; it has no panicking path.
#[verifier::external_body]
fn ring_dequeue(q: &mut Queue<MotionPacket, 33>) -> (r: Option<MotionPacket>)
    ensures
        (ring_items(*final(q)), r) == spec_pop(ring_items(*old(q))),
    no_unwind
{
    q.dequeue()
}

/// Contents after a push: appended when there is room, unchanged otherwise.
pub open spec fn spec_push(items: Seq<MotionPacket>, p: MotionPacket) -> Seq<MotionPacket> {
    if items.len() < CAPACITY {
        items.push(p)
    } else {
        items
    }
}

/// Contents after a pop, and what it returned.
pub open spec fn spec_pop(items: Seq<MotionPacket>) -> (Seq<MotionPacket>, Option<MotionPacket>) {
    if items.len() == 0 {
        (items, None)
    } else {
        (items.drop_first(), Some(items[0]))
    }
}

/// One call on the queue.
pub enum QueueOp {
    Push(MotionPacket),
    Pop,
}

/// Contents of a queue that started empty, after the calls `ops`, and the
/// packets that its pops returned, in order.
pub open spec fn run_ops(ops: Seq<QueueOp>) -> (Seq<MotionPacket>, Seq<MotionPacket>)
    decreases ops.len(),
{
    if ops.len() == 0 {
        (Seq::empty(), Seq::empty())
    } else {
        let (items, popped) = run_ops(ops.drop_last());
        match ops.last() {
            QueueOp::Push(p) => (spec_push(items, p), popped),
            QueueOp::Pop => {
                let (rest, out) = spec_pop(items);
                match out {
                    Some(q) => (rest, popped.push(q)),
                    None => (rest, popped),
                }
            },
        }
    }
}

/// The packets pushed by `ops`, in order.
pub open spec fn pushed(ops: Seq<QueueOp>) -> Seq<MotionPacket>
    decreases ops.len(),
{
    if ops.len() == 0 {
        Seq::empty()
    } else {
        match ops.last() {
            QueueOp::Push(p) => pushed(ops.drop_last()).push(p),
            QueueOp::Pop => pushed(ops.drop_last()),
        }
    }
}

/// First in, first out: for at most `CAPACITY` pushes interleaved with any
/// pops on an empty queue, every push is taken, and the packets popped
/// followed by those still pending are exactly the packets pushed, in push
/// order.
pub proof fn lemma_fifo_order(ops: Seq<QueueOp>)
    requires
        pushed(ops).len() <= CAPACITY,
    ensures
        run_ops(ops).1 + run_ops(ops).0 == pushed(ops),
    decreases ops.len(),
{
    if ops.len() > 0 {
        let prefix = ops.drop_last();
        assert(pushed(prefix).len() <= pushed(ops).len());
        lemma_fifo_order(prefix);
        let (items, popped) = run_ops(prefix);
        match ops.last() {
            QueueOp::Push(p) => {
                assert(items.len() <= pushed(prefix).len());
                assert(popped + items.push(p) =~= (popped + items).push(p));
            },
            QueueOp::Pop => {
                if items.len() > 0 {
                    assert(popped.push(items[0]) + items.drop_first() =~= popped + items);
                }
            },
        }
    }
}

/// The acquisition queue; its contents never exceed `CAPACITY`.
pub struct AcquisitionQueue {
    ring: Queue<MotionPacket, 33>,
}

impl View for AcquisitionQueue {
    type V = Seq<MotionPacket>;

    closed spec fn view(&self) -> Seq<MotionPacket> {
        ring_items(self.ring)
    }
}

impl AcquisitionQueue {
    #[verifier::type_invariant]
    closed spec fn inv(self) -> bool {
        ring_items(self.ring).len() <= CAPACITY
    }

    /// An empty queue.
    pub fn new() -> (r: AcquisitionQueue)
        ensures
            r@ == Seq::<MotionPacket>::empty(),
    {
        AcquisitionQueue { ring: ring_new() }
    }

    /// Appends `p` behind every pending packet. A full queue is left as it
    /// is and `p` comes back as the error.
    pub fn push(&mut self, p: MotionPacket) -> (r: Result<(), MotionPacket>)
        ensures
            final(self)@ == spec_push(old(self)@, p),
            final(self)@.len() <= CAPACITY,
            r is Ok <==> old(self)@.len() < CAPACITY,
            r is Err ==> r == Err::<(), MotionPacket>(p),
    {
        proof {
            use_type_invariant(&*self);
        }
        match ring_enqueue(&mut self.ring, p) {
            None => Ok(()),
            Some(back) => Err(back),
        }
    }

    /// Takes the oldest pending packet; `None` when none is pending.
    pub fn pop(&mut self) -> (r: Option<MotionPacket>)
        ensures
            (final(self)@, r) == spec_pop(old(self)@),
    {
        proof {
            use_type_invariant(&*self);
        }
        ring_dequeue(&mut self.ring)
    }

    /// Takes every pending packet, oldest first, leaving the queue empty.
    pub fn drain(&mut self) -> (r: Vec<MotionPacket>)
        ensures
            r@ == old(self)@,
            final(self)@ == Seq::<MotionPacket>::empty(),
    {
        let mut out: Vec<MotionPacket> = Vec::new();
        loop
            invariant
                out@ + self@ == old(self)@,
            ensures
                out@ == old(self)@,
                self@ == Seq::<MotionPacket>::empty(),
            decreases self@.len(),
        {
            let ghost before = self@;
            match self.pop() {
                Some(p) => {
                    out.push(p);
                    assert(out@ + self@ =~= old(self)@) by {
                        assert(before =~= seq![p] + self@);
                    }
                },
                None => {
                    assert(out@ + self@ =~= out@);
                    assert(self@ =~= Seq::<MotionPacket>::empty());
                    break ;
                },
            }
        }
        out
    }
}

} // verus!
