use dekker::CloseOutcome;
use dekker::Dekker;
use dekker::ProcessId;

#[test]
fn basic() {
    let (mut d, mut p1, mut p2) = Dekker::new(0);
    let g = p1.lock(&mut d);
    *d.value_mut(&g) += 1;
    p1.unlock(&mut d, g);
    let g = p2.lock(&mut d);
    *d.value_mut(&g) += 1;
    p2.unlock(&mut d, g);
    let g = p1.lock(&mut d);
    assert_eq!(*d.value(&g), 2);
    p1.unlock(&mut d, g);
}

#[test]
fn alternating_count() {
    let (mut d, mut p1, mut p2) = Dekker::new(0u64);
    for _ in 0..1000 {
        let g = p1.lock(&mut d);
        *d.value_mut(&g) += 1;
        p1.unlock(&mut d, g);
        let g = p2.lock(&mut d);
        *d.value_mut(&g) += 1;
        p2.unlock(&mut d, g);
    }
    let g = p1.lock(&mut d);
    assert_eq!(*d.value(&g), 2000);
    p1.unlock(&mut d, g);
}

#[test]
fn initial_state() {
    let (d, p1, p2) = Dekker::new(5u32);
    assert_eq!(d.turn(), ProcessId::First);
    assert_eq!(d.live_handles(), 2);
    assert!(!d.intent(ProcessId::First));
    assert!(!d.intent(ProcessId::Second));
    assert_eq!(p1.id(), ProcessId::First);
    assert_eq!(p2.id(), ProcessId::Second);
}

#[test]
fn other_of_each_identity() {
    assert_eq!(ProcessId::First.other(), ProcessId::Second);
    assert_eq!(ProcessId::Second.other(), ProcessId::First);
}

#[test]
fn guard_names_its_owner() {
    let (mut d, mut p1, mut p2) = Dekker::new(3i64);
    let g = p1.lock(&mut d);
    assert_eq!(g.id(), p1.id());
    p1.unlock(&mut d, g);
    let g = p2.lock(&mut d);
    assert_eq!(g.id(), p2.id());
    p2.unlock(&mut d, g);
}

#[test]
fn intent_tracks_holding() {
    let (mut d, mut p1, _p2) = Dekker::new(0u8);
    assert!(!d.intent(ProcessId::First));
    let g = p1.lock(&mut d);
    assert!(d.intent(ProcessId::First));
    assert!(!d.intent(ProcessId::Second));
    p1.unlock(&mut d, g);
    assert!(!d.intent(ProcessId::First));
    assert!(!d.intent(ProcessId::Second));
}

#[test]
fn turn_alternates_after_release() {
    let (mut d, mut p1, mut p2) = Dekker::new(0u8);
    let g = p1.lock(&mut d);
    p1.unlock(&mut d, g);
    assert_eq!(d.turn(), ProcessId::Second);
    let g = p2.lock(&mut d);
    p2.unlock(&mut d, g);
    assert_eq!(d.turn(), ProcessId::First);
    let g = p2.lock(&mut d);
    p2.unlock(&mut d, g);
    assert_eq!(d.turn(), ProcessId::First);
}

#[test]
fn release_unblocks_other() {
    let (mut d, mut p1, mut p2) = Dekker::new(0u16);
    let g = p1.lock(&mut d);
    *d.value_mut(&g) = 40;
    p1.unlock(&mut d, g);
    let g = p2.lock(&mut d);
    assert_eq!(*d.value(&g), 40);
    p2.unlock(&mut d, g);
}

#[test]
fn guard_reads_and_writes_value() {
    let (mut d, mut p1, _p2) = Dekker::new(String::from("before"));
    let g = p1.lock(&mut d);
    assert_eq!(d.value(&g).as_str(), "before");
    *d.value_mut(&g) = String::from("after");
    assert_eq!(d.value(&g).as_str(), "after");
    p1.unlock(&mut d, g);
}

#[test]
fn teardown_first_then_second() {
    let (d, p1, p2) = Dekker::new(11u64);
    let d = match p1.close(d) {
        CloseOutcome::StillShared(d) => d,
        CloseOutcome::Reclaimed(_) => panic!("first close must not reclaim"),
    };
    assert_eq!(d.live_handles(), 1);
    assert_eq!(d.turn(), ProcessId::Second);
    match p2.close(d) {
        CloseOutcome::StillShared(_) => panic!("second close must reclaim"),
        CloseOutcome::Reclaimed(v) => assert_eq!(v, 11),
    }
}

#[test]
fn teardown_second_then_first() {
    let (d, p1, p2) = Dekker::new(11u64);
    let d = match p2.close(d) {
        CloseOutcome::StillShared(d) => d,
        CloseOutcome::Reclaimed(_) => panic!("first close must not reclaim"),
    };
    assert_eq!(d.live_handles(), 1);
    assert_eq!(d.turn(), ProcessId::First);
    match p1.close(d) {
        CloseOutcome::StillShared(_) => panic!("second close must reclaim"),
        CloseOutcome::Reclaimed(v) => assert_eq!(v, 11),
    }
}

#[test]
fn teardown_reclaims_last_written_value() {
    let (mut d, mut p1, p2) = Dekker::new(0u32);
    let g = p1.lock(&mut d);
    *d.value_mut(&g) = 77;
    p1.unlock(&mut d, g);
    let d = match p2.close(d) {
        CloseOutcome::StillShared(d) => d,
        CloseOutcome::Reclaimed(_) => panic!("first close must not reclaim"),
    };
    match p1.close(d) {
        CloseOutcome::StillShared(_) => panic!("second close must reclaim"),
        CloseOutcome::Reclaimed(v) => assert_eq!(v, 77),
    }
}
