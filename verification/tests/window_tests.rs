use scope_core::SlidingWindow;

#[test]
fn new_window_is_empty() {
    let w = SlidingWindow::new(8);
    assert_eq!(w.len(), 0);
    assert_eq!(w.capacity(), 8);
    assert_eq!(w.snapshot(), Vec::<i64>::new());
    assert_eq!(w.head(), None);
}

#[test]
fn window_length_is_min_of_pushes_and_capacity() {
    let mut w = SlidingWindow::new(3);
    w.push(1);
    w.push(2);
    assert_eq!(w.len(), 2);
    assert_eq!(w.snapshot(), vec![1, 2]);
    w.push(3);
    w.push(4);
    w.push(5);
    assert_eq!(w.len(), 3);
    assert_eq!(w.snapshot(), vec![3, 4, 5]);
}

#[test]
fn window_capacity_boundary_drops_exactly_the_first() {
    // Push exactly N + 1 samples into a window of capacity N: the first
    // pushed sample is gone and samples 2..=N+1 remain in order.
    let n: usize = 5;
    let mut w = SlidingWindow::new(n);
    for s in 1..=(n as i64 + 1) {
        w.push(s * 10);
    }
    let snap = w.snapshot();
    assert_eq!(snap.len(), n);
    assert!(!snap.contains(&10));
    assert_eq!(snap, vec![20, 30, 40, 50, 60]);
}

#[test]
fn window_evicts_per_sample_in_fifo_order() {
    let mut w = SlidingWindow::new(2);
    w.push(1);
    w.push(2);
    w.push(3);
    assert_eq!(w.snapshot(), vec![2, 3]);
    w.push(4);
    assert_eq!(w.snapshot(), vec![3, 4]);
}

#[test]
fn window_head_is_oldest() {
    let mut w = SlidingWindow::new(2);
    w.push(7);
    assert_eq!(w.head(), Some(7));
    w.push(8);
    assert_eq!(w.head(), Some(7));
    w.push(9);
    assert_eq!(w.head(), Some(8));
}

#[test]
fn window_snapshot_does_not_mutate() {
    let mut w = SlidingWindow::new(4);
    w.push(-5);
    w.push(6);
    let a = w.snapshot();
    let b = w.snapshot();
    assert_eq!(a, b);
    assert_eq!(w.len(), 2);
    assert_eq!(a, vec![-5, 6]);
}
