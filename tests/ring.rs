use slotring::{Buffer, GrantError, SlotRing, SLOT_BYTES};

fn ring_of(n: usize) -> SlotRing {
    SlotRing::new(vec![[0u8; 8]; n])
}

#[test]
fn basic() {
    let mut x = ring_of(8);

    let (mut p, mut c) = x.split().unwrap();

    for i in 0..4 {
        // Explicit drop of grant
        let a = p.start_write(&mut x).unwrap();
        *a.buf = [i as u8; 8];
        a.consume();

        // Implicit drop of grant
        let b = p.start_write(&mut x).unwrap();
        *b.buf = [i as u8; 8];
    }

    for i in 0..4 {
        // Explicit drop of grant
        let a = c.start_read(&mut x).unwrap();
        assert!((*a.buf).len() == 8);
        (*a.buf).iter().for_each(|j| assert!(i == *j));
        a.consume();

        // Implicit drop of grant
        let b = c.start_read(&mut x).unwrap();
        assert!((*b.buf).len() == 8);
        (*b.buf).iter().for_each(|j| assert!(i == *j));
    }

    println!("{:?}", x.slots());
}

#[test]
fn four_writes_then_four_reads_in_order() {
    let mut ring = ring_of(8);
    let (mut p, mut c) = ring.split().unwrap();
    for i in 0..4u8 {
        let g = p.start_write(&mut ring).unwrap();
        *g.buf = [i; 8];
        if i % 2 == 0 {
            g.consume();
        }
    }
    assert!(!p.is_busy());
    for i in 0..4u8 {
        let g = c.start_read(&mut ring).unwrap();
        assert_eq!(g.index, i as usize);
        assert_eq!(*g.buf, [i; 8]);
        if i % 2 == 0 {
            g.consume();
        }
    }
    assert!(!c.is_busy());
    assert_eq!(ring.write_cursor(), 4);
    assert_eq!(ring.read_cursor(), 4);
    let store = ring.into_store();
    assert_eq!(store[..4], [[0u8; 8], [1u8; 8], [2u8; 8], [3u8; 8]]);
    assert_eq!(store[4..], [[0u8; 8]; 4]);
}

#[test]
fn reads_return_writes_in_write_order() {
    let mut ring = ring_of(5);
    let (mut p, mut c) = ring.split().unwrap();
    let values: Vec<Buffer> = (0..5u8).map(|k| [k * 3, k, 7, 0, 255, k, 1, 2]).collect();
    for v in &values {
        let g = p.start_write(&mut ring).unwrap();
        *g.buf = *v;
    }
    for v in &values {
        let g = c.start_read(&mut ring).unwrap();
        assert_eq!(*g.buf, *v);
    }
}

#[test]
fn forgotten_write_grant_leaves_handle_busy() {
    let mut ring = ring_of(4);
    let (mut p, _c) = ring.split().unwrap();
    let g = p.start_write(&mut ring).unwrap();
    assert!(g.release.handle.as_ref().unwrap().is_busy());
    std::mem::forget(g);
    assert!(p.is_busy());
    assert!(matches!(p.start_write(&mut ring), Err(GrantError::HandleBusy)));
    assert_eq!(ring.write_cursor(), 1);
}

#[test]
fn forgotten_read_grant_leaves_handle_busy() {
    let mut ring = ring_of(4);
    let (mut p, mut c) = ring.split().unwrap();
    for _ in 0..2 {
        p.start_write(&mut ring).unwrap().consume();
    }
    let g = c.start_read(&mut ring).unwrap();
    std::mem::forget(g);
    assert!(c.is_busy());
    assert!(matches!(c.start_read(&mut ring), Err(GrantError::HandleBusy)));
    assert_eq!(ring.read_cursor(), 1);
}

#[test]
fn busy_takes_precedence_over_exhaustion() {
    let mut ring = ring_of(1);
    let (mut p, _c) = ring.split().unwrap();
    std::mem::forget(p.start_write(&mut ring).unwrap());
    assert!(matches!(p.start_write(&mut ring), Err(GrantError::HandleBusy)));
}

#[test]
fn both_release_paths_leave_handles_idle() {
    let mut ring = ring_of(4);
    let (mut p, mut c) = ring.split().unwrap();
    p.start_write(&mut ring).unwrap().consume();
    assert!(!p.is_busy());
    {
        let _g = p.start_write(&mut ring).unwrap();
    }
    assert!(!p.is_busy());
    c.start_read(&mut ring).unwrap().consume();
    assert!(!c.is_busy());
    {
        let _g = c.start_read(&mut ring).unwrap();
    }
    assert!(!c.is_busy());
    assert!(p.start_write(&mut ring).is_ok());
}

#[test]
fn release_on_early_return() {
    fn fill(p: &mut slotring::SRProd, ring: &mut SlotRing, fail: bool) -> Result<(), GrantError> {
        let g = p.start_write(ring)?;
        if fail {
            return Err(GrantError::StoreUnavailable);
        }
        *g.buf = [9; 8];
        g.consume();
        Ok(())
    }
    let mut ring = ring_of(3);
    let (mut p, _c) = ring.split().unwrap();
    assert!(fill(&mut p, &mut ring, true).is_err());
    assert!(!p.is_busy());
    assert!(fill(&mut p, &mut ring, false).is_ok());
    assert_eq!(ring.slots()[1], [9; 8]);
}

#[test]
fn write_exhausts_after_capacity() {
    let mut ring = ring_of(8);
    let (mut p, _c) = ring.split().unwrap();
    for _ in 0..8 {
        assert!(p.start_write(&mut ring).is_ok());
    }
    assert!(matches!(p.start_write(&mut ring), Err(GrantError::StoreUnavailable)));
    assert!(!p.is_busy());
    assert_eq!(ring.write_cursor(), 8);
}

#[test]
fn read_before_any_write_is_unavailable() {
    let mut ring = ring_of(8);
    let (_p, mut c) = ring.split().unwrap();
    assert!(matches!(c.start_read(&mut ring), Err(GrantError::StoreUnavailable)));
    assert!(!c.is_busy());
    assert_eq!(ring.read_cursor(), 0);
}

#[test]
fn read_waits_for_writes() {
    let mut ring = ring_of(4);
    let (mut p, mut c) = ring.split().unwrap();
    p.start_write(&mut ring).unwrap().consume();
    assert!(c.start_read(&mut ring).is_ok());
    assert!(matches!(c.start_read(&mut ring), Err(GrantError::StoreUnavailable)));
}

#[test]
fn empty_store_gives_no_grants() {
    let mut ring = ring_of(0);
    let (mut p, mut c) = ring.split().unwrap();
    assert_eq!(ring.slot_count(), 0);
    assert!(matches!(p.start_write(&mut ring), Err(GrantError::StoreUnavailable)));
    assert!(matches!(c.start_read(&mut ring), Err(GrantError::StoreUnavailable)));
}

#[test]
fn write_grants_cover_distinct_slots() {
    let mut ring = ring_of(6);
    let (mut p, _c) = ring.split().unwrap();
    let mut seen = Vec::new();
    for k in 0..6u8 {
        let g = p.start_write(&mut ring).unwrap();
        assert!(!seen.contains(&g.index));
        seen.push(g.index);
        *g.buf = [k; 8];
    }
    assert_eq!(seen, vec![0, 1, 2, 3, 4, 5]);
    for k in 0..6u8 {
        assert_eq!(ring.slots()[k as usize], [k; 8]);
    }
}

#[test]
fn split_only_once() {
    let mut ring = ring_of(2);
    assert!(ring.split().is_some());
    assert!(ring.split().is_none());
}

#[test]
fn slot_size() {
    assert_eq!(SLOT_BYTES, 8);
    let ring = SlotRing::new(vec![[1u8; 8], [2u8; 8]]);
    assert_eq!(ring.slot_count(), 2);
    assert_eq!(ring.slots()[1].len(), SLOT_BYTES);
}
