use dac_core::buffer::DoubleBuffer;
use dac_core::dac::Dac;
use dac_core::replay::ReplayMode;

#[test]
fn fill_drain_scenario() {
    // Capacity 4; publish [10,20,30,40]; demand 2, then 5 with a fresh
    // publish of [1,2,3,4] in between.
    let mut d = Dac::new(4, ReplayMode::OneShot);
    d.produce(&vec![10, 20, 30, 40]);
    let mut msg: Vec<i32> = Vec::new();
    assert!(d.fill_into(&mut msg, 2));
    assert_eq!(msg, vec![10, 20]);
    d.produce(&vec![1, 2, 3, 4]);
    let mut msg2: Vec<i32> = Vec::new();
    assert!(d.fill_into(&mut msg2, 5));
    assert_eq!(msg2, vec![30, 40, 1, 2, 3]);
}

#[test]
fn cyclic_replay_scenario() {
    // Buffer [0,5,0,-5], mode Cyclic, demand 6 then 6: the output is the
    // buffer repeated indefinitely, unaffected by message boundaries.
    let mut d = Dac::new(4, ReplayMode::Cyclic);
    d.produce(&vec![0, 5, 0, -5]);
    let mut m1: Vec<i32> = Vec::new();
    assert!(d.fill_into(&mut m1, 6));
    assert_eq!(m1, vec![0, 5, 0, -5, 0, 5]);
    let mut m2: Vec<i32> = Vec::new();
    assert!(d.fill_into(&mut m2, 6));
    assert_eq!(m2, vec![0, -5, 0, 5, 0, -5]);
}

#[test]
fn cyclic_whole_multiples_repeat_buffer() {
    // Draining k * len samples cyclically yields the buffer k times.
    let mut d = Dac::new(3, ReplayMode::Cyclic);
    d.produce(&vec![1, 2, 3]);
    let mut msg: Vec<i32> = Vec::new();
    assert!(d.fill_into(&mut msg, 9));
    assert_eq!(msg, vec![1, 2, 3, 1, 2, 3, 1, 2, 3]);
}

#[test]
fn oneshot_chunked_drain_never_repeats() {
    let mut d = Dac::new(4, ReplayMode::OneShot);
    d.produce(&vec![4, 5, 6, 7]);
    let mut all: Vec<i32> = Vec::new();
    for _ in 0..4 {
        let mut m: Vec<i32> = Vec::new();
        assert!(d.fill_into(&mut m, 1));
        all.extend(m);
    }
    assert_eq!(all, vec![4, 5, 6, 7]);
    let mut m: Vec<i32> = Vec::new();
    assert!(!d.fill_into(&mut m, 1));
    assert!(m.is_empty());
}

#[test]
fn oneshot_blocks_when_starved() {
    let mut d = Dac::new(4, ReplayMode::OneShot);
    d.produce(&vec![7, 8]);
    let mut msg: Vec<i32> = Vec::new();
    assert!(!d.fill_into(&mut msg, 3));
    assert_eq!(msg, vec![7, 8]);
    assert!(d.refill_pending());
    d.produce(&vec![9]);
    assert!(d.fill_into(&mut msg, 3));
    assert_eq!(msg, vec![7, 8, 9]);
}

#[test]
fn oneshot_no_reemission() {
    // Once drained, one-shot mode emits nothing more until a fresh publish.
    let mut d = Dac::new(2, ReplayMode::OneShot);
    d.produce(&vec![1, 2]);
    let mut msg: Vec<i32> = Vec::new();
    assert!(d.fill_into(&mut msg, 2));
    assert_eq!(msg, vec![1, 2]);
    let mut msg2: Vec<i32> = Vec::new();
    assert!(!d.fill_into(&mut msg2, 1));
    assert!(msg2.is_empty());
}

#[test]
fn empty_publish_cannot_satisfy_demand() {
    let mut d = Dac::new(4, ReplayMode::Cyclic);
    d.produce(&vec![]);
    let mut msg: Vec<i32> = Vec::new();
    assert!(!d.fill_into(&mut msg, 3));
    assert!(msg.is_empty());
}

#[test]
fn publish_replaces_unswapped_data() {
    // Full-replace semantics: a newer publish supersedes an unswapped one.
    let mut d = Dac::new(3, ReplayMode::OneShot);
    d.produce(&vec![1, 2, 3]);
    d.produce(&vec![4, 5]);
    let mut msg: Vec<i32> = Vec::new();
    assert!(d.fill_into(&mut msg, 2));
    assert_eq!(msg, vec![4, 5]);
}

#[test]
fn refill_request_lifecycle() {
    let mut d = Dac::new(2, ReplayMode::OneShot);
    assert!(d.refill_pending());
    d.produce(&vec![1]);
    assert!(!d.refill_pending());
    let mut msg: Vec<i32> = Vec::new();
    assert!(d.fill_into(&mut msg, 1));
    assert!(d.refill_pending());
}

#[test]
fn mode_change_takes_effect_at_next_swap_decision() {
    let mut d = Dac::new(2, ReplayMode::OneShot);
    d.produce(&vec![1, 2]);
    let mut msg: Vec<i32> = Vec::new();
    assert!(d.fill_into(&mut msg, 2));
    assert_eq!(msg, vec![1, 2]);
    d.set_mode(ReplayMode::Cyclic);
    let mut msg2: Vec<i32> = Vec::new();
    assert!(d.fill_into(&mut msg2, 4));
    assert_eq!(msg2, vec![1, 2, 1, 2]);
}

#[test]
fn demand_discovery_through_core() {
    let mut d = Dac::new(4, ReplayMode::OneShot);
    assert_eq!(d.poll_demand(), None);
    d.request(2);
    d.request(5);
    assert_eq!(d.poll_demand(), Some(4));
    assert_eq!(d.poll_demand(), Some(3));
    assert_eq!(d.poll_demand(), None);
}

#[test]
fn swap_installs_whole_publish() {
    let mut b = DoubleBuffer::new(3);
    b.begin_update();
    b.append(1);
    b.append(2);
    assert!(!b.try_swap());
    b.publish();
    assert!(b.try_swap());
    let mut msg: Vec<i32> = Vec::new();
    assert_eq!(b.take_into(&mut msg, 5), 2);
    assert_eq!(msg, vec![1, 2]);
    assert_eq!(b.take_into(&mut msg, 1), 0);
}

#[test]
fn capacity_bound_between_swaps() {
    let mut b = DoubleBuffer::new(3);
    b.begin_update();
    b.append(1);
    b.append(2);
    b.append(3);
    b.publish();
    assert!(b.try_swap());
    let mut msg: Vec<i32> = Vec::new();
    let mut total: usize = 0;
    loop {
        let t = b.take_into(&mut msg, 2);
        if t == 0 {
            break;
        }
        total += t;
    }
    assert_eq!(total, 3);
}

#[test]
fn cyclic_fill_wraps_from_cursor() {
    let mut b = DoubleBuffer::new(3);
    b.begin_update();
    b.append(1);
    b.append(2);
    b.append(3);
    b.publish();
    assert!(b.try_swap());
    let mut msg: Vec<i32> = Vec::new();
    assert_eq!(b.take_into(&mut msg, 2), 2);
    b.fill_cyclic(&mut msg, 4);
    assert_eq!(msg, vec![1, 2, 3, 1, 2, 3]);
    b.rewind();
    let mut msg2: Vec<i32> = Vec::new();
    assert_eq!(b.take_into(&mut msg2, 3), 3);
    assert_eq!(msg2, vec![1, 2, 3]);
}
