use bare_metal_swim::arith::{add1, safe_add, sub1};

#[test]
fn safe_add_wraps_at_the_limit() {
    assert_eq!(safe_add::<5>(3, 4), 2);
    assert_eq!(safe_add::<5>(1, 2), 3);
    assert_eq!(safe_add::<5>(5, 0), 0);
    assert_eq!(safe_add::<1>(7, 9), 0);
}

#[test]
fn add1_steps_forward_around_the_ring() {
    assert_eq!(add1::<4>(0), 1);
    assert_eq!(add1::<4>(2), 3);
    assert_eq!(add1::<4>(3), 0);
}

#[test]
fn sub1_steps_back_around_the_ring() {
    assert_eq!(sub1::<4>(3), 2);
    assert_eq!(sub1::<4>(1), 0);
    assert_eq!(sub1::<4>(0), 3);
}

#[test]
fn add1_and_sub1_undo_each_other() {
    for v in 0..7usize {
        assert_eq!(sub1::<7>(add1::<7>(v)), v);
        assert_eq!(add1::<7>(sub1::<7>(v)), v);
    }
}

#[test]
fn safe_add_stays_below_the_limit() {
    for a in 0..20usize {
        for b in 0..20usize {
            assert!(safe_add::<6>(a, b) < 6);
            assert_eq!(safe_add::<6>(a, b), (a + b) % 6);
        }
    }
}
