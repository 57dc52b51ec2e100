use sfy_buoy::handoff::{ensure_held, HandoffCell};
use sfy_buoy::queue::{AcquisitionQueue, MotionPacket, CAPACITY};
use sfy_buoy::state::{Position, SharedState, Snapshot};

fn packet(n: i64) -> MotionPacket {
    MotionPacket {
        timestamp: n,
        lon_bits: (n as f64).to_bits(),
        lat_bits: (-(n as f64)).to_bits(),
        data: vec![n as u16, 2 * n as u16],
    }
}

#[test]
fn thirty_two_packets_drain_in_order() {
    let mut q = AcquisitionQueue::new();
    for n in 1..=32 {
        assert_eq!(q.push(packet(n)), Ok(()));
    }
    let out = q.drain();
    let expected: Vec<MotionPacket> = (1..=32).map(packet).collect();
    assert_eq!(out, expected);
    assert_eq!(q.pop(), None);
    assert_eq!(CAPACITY, 32);
}

#[test]
fn push_to_full_queue_is_rejected() {
    let mut q = AcquisitionQueue::new();
    for n in 1..=32 {
        q.push(packet(n)).unwrap();
    }
    assert_eq!(q.push(packet(33)), Err(packet(33)));
    assert_eq!(q.pop(), Some(packet(1)));
    assert_eq!(q.push(packet(34)), Ok(()));
    let out = q.drain();
    assert_eq!(out.len(), 32);
    assert_eq!(out[0], packet(2));
    assert_eq!(out[31], packet(34));
}

#[test]
fn interleaved_pushes_and_pops_keep_order() {
    let mut q = AcquisitionQueue::new();
    let mut popped = Vec::new();
    q.push(packet(1)).unwrap();
    q.push(packet(2)).unwrap();
    popped.push(q.pop().unwrap());
    q.push(packet(3)).unwrap();
    popped.push(q.pop().unwrap());
    popped.push(q.pop().unwrap());
    assert_eq!(q.pop(), None);
    q.push(packet(4)).unwrap();
    popped.extend(q.drain());
    assert_eq!(popped, vec![packet(1), packet(2), packet(3), packet(4)]);
}

#[test]
fn pop_on_empty_queue_is_none() {
    let mut q = AcquisitionQueue::new();
    assert_eq!(q.pop(), None);
    assert!(q.drain().is_empty());
}

#[test]
fn second_claim_yields_nothing() {
    let mut cell = HandoffCell::new(7u32);
    assert!(cell.is_staged());
    assert_eq!(cell.claim(), Some(7));
    assert!(!cell.is_staged());
    assert_eq!(cell.claim(), None);
}

#[test]
fn sampler_claims_handle_once() {
    let mut cell = HandoffCell::new(String::from("imu"));
    let mut held: Option<String> = None;
    assert!(ensure_held(&mut held, &mut cell));
    assert_eq!(held.as_deref(), Some("imu"));
    assert!(!cell.is_staged());
    assert!(ensure_held(&mut held, &mut cell));
    assert_eq!(held.as_deref(), Some("imu"));
}

#[test]
fn held_handle_leaves_cell_alone() {
    let mut cell = HandoffCell::new(2u8);
    let mut held = Some(1u8);
    assert!(ensure_held(&mut held, &mut cell));
    assert_eq!(held, Some(1));
    assert!(cell.is_staged());
}

#[test]
fn sampler_without_staged_handle_holds_nothing() {
    let mut cell = HandoffCell::new(2u8);
    cell.claim();
    let mut held: Option<u8> = None;
    assert!(!ensure_held(&mut held, &mut cell));
    assert_eq!(held, None);
}

#[test]
fn position_starts_at_origin() {
    let s = SharedState::new(42u32);
    assert_eq!(s.position(), Position { lon_bits: 0, lat_bits: 0 });
    assert_eq!(f64::from_bits(s.read(10).lon_bits), 0.0);
    assert_eq!(*s.clock(), 42);
}

#[test]
fn read_returns_whole_update() {
    let mut s = SharedState::new(());
    s.update_position(5.25f64.to_bits(), 60.5f64.to_bits());
    assert_eq!(
        s.read(1234),
        Snapshot { timestamp: 1234, lon_bits: 5.25f64.to_bits(), lat_bits: 60.5f64.to_bits() }
    );
    s.update_position(6.0f64.to_bits(), 61.0f64.to_bits());
    let r = s.read(2000);
    assert_eq!((f64::from_bits(r.lon_bits), f64::from_bits(r.lat_bits)), (6.0, 61.0));
}
