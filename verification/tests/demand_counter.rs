use dac_core::demand::DemandCounter;

#[test]
fn demand_accumulates_and_conserves() {
    let mut c = DemandCounter::new();
    c.add(3);
    c.add(4);
    let mut served: usize = 0;
    served += c.try_sub(1, 5).unwrap();
    served += c.try_sub(1, 5).unwrap();
    assert_eq!(c.try_sub(1, 5), None);
    assert_eq!(served, 7);
}

#[test]
fn try_sub_waits_below_minimum() {
    let mut c = DemandCounter::new();
    c.add(1);
    assert_eq!(c.try_sub(2, 4), None);
    c.add(1);
    assert_eq!(c.try_sub(2, 4), Some(2));
}

#[test]
fn try_sub_clamps_to_maximum() {
    let mut c = DemandCounter::new();
    c.add(10);
    assert_eq!(c.try_sub(1, 4), Some(4));
    assert_eq!(c.try_sub(1, 4), Some(4));
    assert_eq!(c.try_sub(1, 4), Some(2));
    assert_eq!(c.try_sub(1, 4), None);
}

#[test]
fn add_saturates_at_machine_limit() {
    let mut c = DemandCounter::new();
    c.add(usize::MAX);
    c.add(5);
    assert_eq!(c.try_sub(1, usize::MAX), Some(usize::MAX));
    assert_eq!(c.try_sub(1, 1), None);
}
