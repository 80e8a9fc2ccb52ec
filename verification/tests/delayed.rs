use nes::delayed::Delayed;

#[test]
fn delay_1_returns_on_first_pop() {
    let mut d: Delayed<u8> = Delayed::new(1);
    d.push(42).unwrap();
    assert_eq!(d.pop(), Some(42));
    assert_eq!(d.pop(), None);
}

#[test]
fn delay_3_single_entry() {
    let mut d: Delayed<(usize, u8)> = Delayed::new(3);
    d.push((0, 1)).unwrap();
    assert_eq!(d.pop(), None);
    assert_eq!(d.pop(), None);
    assert_eq!(d.pop(), Some((0, 1)));
    assert_eq!(d.pop(), None);
}

#[test]
fn delay_3_two_entries_pushed_together() {
    let mut d: Delayed<(usize, u8)> = Delayed::new(3);
    d.push((0, 1)).unwrap();
    d.push((2, 3)).unwrap();
    assert_eq!(d.pop(), None);
    assert_eq!(d.pop(), None);
    assert_eq!(d.pop(), Some((0, 1)));
    // (2, 3) was pushed one tick later relative to (0, 1) so it needs one
    // more pop.
    assert_eq!(d.pop(), Some((2, 3)));
}

#[test]
fn delay_3_three_entries_then_reuse() {
    let mut d: Delayed<(usize, u8)> = Delayed::new(3);
    d.push((2, 3)).unwrap();
    d.push((3, 4)).unwrap();
    assert_eq!(d.pop(), None);
    assert_eq!(d.pop(), None);
    assert_eq!(d.pop(), Some((2, 3)));
    assert_eq!(d.pop(), Some((3, 4)));

    // Queue is now empty; push another entry and confirm the delay resets.
    d.push((4, 5)).unwrap();
    assert_eq!(d.pop(), None);
    assert_eq!(d.pop(), None);
    assert_eq!(d.pop(), Some((4, 5)));
}

#[test]
fn capacity_limit_enforced() {
    let mut d: Delayed<(usize, u8)> = Delayed::new(2);
    d.push((0, 1)).unwrap();
    d.push((1, 2)).unwrap();
    assert!(d.push((2, 3)).is_err());
}

#[test]
fn capacity_freed_after_pop() {
    let mut d: Delayed<(usize, u8)> = Delayed::new(2);
    d.push((0, 1)).unwrap();
    d.push((1, 2)).unwrap();
    // Drain the queue so there is room again.
    while d.pop().is_none() {}   // first entry out
    while d.pop().is_none() {}   // second entry out
    // Now there is room for two more.
    assert!(d.push((2, 3)).is_ok());
    assert!(d.push((3, 4)).is_ok());
}

#[test]
fn delay_zero_refuses_every_push() {
    let mut d: Delayed<u8> = Delayed::new(0);
    assert!(d.push(1).is_err());
    assert_eq!(d.pop(), None);
}
