//! The clock and last known position shared by the main loop and the
//! sampling interrupt. Callers keep every access inside one critical
//! section; the methods here only copy scalars.
use vstd::prelude::*;

verus! {

/// Longitude and latitude as the IEEE-754 bit patterns of degrees.
#[derive(Clone, Copy, Debug, PartialEq, Eq, Structural)]
pub struct Position {
    pub lon_bits: u64,
    pub lat_bits: u64,
}

/// A consistent reading of the shared record.
#[derive(Clone, Copy, Debug, PartialEq, Eq, Structural)]
pub struct Snapshot {
    pub timestamp: i64,
    pub lon_bits: u64,
    pub lat_bits: u64,
}

/// The snapshot taken at clock reading `now` of a record holding `p`.
pub open spec fn spec_read(p: Position, now: i64) -> Snapshot {
    Snapshot { timestamp: now, lon_bits: p.lon_bits, lat_bits: p.lat_bits }
}

/// The position before the first fix: (0.0, 0.0).
pub open spec fn spec_origin() -> Position {
    Position { lon_bits: 0, lat_bits: 0 }
}

/// The shared record: a clock of type `C` and the last known position.
pub struct SharedState<C> {
    clock: C,
    position: Position,
}

impl<C> View for SharedState<C> {
    type V = Position;

    closed spec fn view(&self) -> Position {
        self.position
    }
}

impl<C> SharedState<C> {
    /// The record at boot: the given clock, and position (0.0, 0.0).
    pub fn new(clock: C) -> (r: SharedState<C>)
        ensures
            r@ == spec_origin(),
    {
        SharedState { clock, position: Position { lon_bits: 0, lat_bits: 0 } }
    }

    /// The clock, to be read inside the same critical section as `read`.
    pub fn clock(&self) -> &C {
        &self.clock
    }

    /// Replaces both coordinates at once.
    pub fn update_position(&mut self, lon_bits: u64, lat_bits: u64)
        ensures
            final(self)@ == (Position { lon_bits, lat_bits }),
    {
        self.position = Position { lon_bits, lat_bits };
    }

    /// The last known position.
    pub fn position(&self) -> (r: Position)
        ensures
            r == self@,
    {
        self.position
    }

    /// Both coordinates, tagged with the clock reading `now`.
    pub fn read(&self, now: i64) -> (r: Snapshot)
        ensures
            r == spec_read(self@, now),
    {
        Snapshot { timestamp: now, lon_bits: self.position.lon_bits, lat_bits: self.position.lat_bits }
    }
}

/// One access to the shared record, made inside a critical section.
pub enum StateOp {
    Update(Position),
    Read(i64),
}

/// Position after the accesses `ops` on a record that held `init`, and the
/// snapshots that its reads returned, in order.
pub open spec fn state_run(init: Position, ops: Seq<StateOp>) -> (Position, Seq<Snapshot>)
    decreases ops.len(),
{
    if ops.len() == 0 {
        (init, Seq::empty())
    } else {
        let (p, reads) = state_run(init, ops.drop_last());
        match ops.last() {
            StateOp::Update(q) => (q, reads),
            StateOp::Read(now) => (p, reads.push(spec_read(p, now))),
        }
    }
}

/// `init` followed by every position written by `ops`, in order.
pub open spec fn written(init: Position, ops: Seq<StateOp>) -> Seq<Position>
    decreases ops.len(),
{
    if ops.len() == 0 {
        seq![init]
    } else {
        match ops.last() {
            StateOp::Update(q) => written(init, ops.drop_last()).push(q),
            StateOp::Read(_) => written(init, ops.drop_last()),
        }
    }
}

/// Whether snapshot `s` carries both coordinates of one written position.
pub open spec fn untorn(s: Snapshot, ws: Seq<Position>) -> bool {
    exists|k: int| 0 <= k < ws.len() && ws[k].lon_bits == s.lon_bits && ws[k].lat_bits == s.lat_bits
}

/// Snapshots are never torn: in any order of updates and reads, each
/// snapshot pairs the longitude and latitude of one and the same write (or
/// of the initial position), never a new longitude with an old latitude.
pub proof fn lemma_reads_never_torn(init: Position, ops: Seq<StateOp>)
    ensures
        forall|i: int|
            0 <= i < state_run(init, ops).1.len() ==> untorn(
                #[trigger] state_run(init, ops).1[i],
                written(init, ops),
            ),
        exists|k: int|
            0 <= k < written(init, ops).len() && written(init, ops)[k] == state_run(init, ops).0,
    decreases ops.len(),
{
    if ops.len() == 0 {
        assert(written(init, ops)[0] == init);
    } else {
        let prefix = ops.drop_last();
        lemma_reads_never_torn(init, prefix);
        let ws0 = written(init, prefix);
        let ws = written(init, ops);
        let (p, reads) = state_run(init, prefix);
        assert(ws.len() >= ws0.len());
        assert forall|k: int| 0 <= k < ws0.len() implies ws[k] == ws0[k] by {}
        let k0 = choose|k: int| 0 <= k < ws0.len() && ws0[k] == p;
        assert forall|i: int| 0 <= i < reads.len() implies untorn(reads[i], ws) by {
            let k = choose|k: int|
                0 <= k < ws0.len() && ws0[k].lon_bits == reads[i].lon_bits && ws0[k].lat_bits
                    == reads[i].lat_bits;
            assert(ws[k] == ws0[k]);
        }
        match ops.last() {
            StateOp::Update(q) => {
                assert(ws[ws0.len() as int] == q);
            },
            StateOp::Read(now) => {
                let reads1 = state_run(init, ops).1;
                assert forall|i: int| 0 <= i < reads1.len() implies untorn(reads1[i], ws) by {
                    if i == reads.len() {
                        assert(ws[k0] == ws0[k0]);
                    } else {
                        assert(reads1[i] == reads[i]);
                    }
                }
                assert(ws[k0] == p);
            },
        }
    }
}

} // verus!
