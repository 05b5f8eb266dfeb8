use langtons_ant::{Direction, LoopValue, Position};

#[test]
fn add_assign_works() {
    let mut x = LoopValue::new(0, 10);
    x.advance(1);
    assert_eq!(x.value(), 1);
}

#[test]
fn add_assign_positive_overflow_works() {
    let mut x = LoopValue::new(9, 10);
    x.advance(1);
    assert_eq!(x.value(), 0);
}

#[test]
fn add_assign_positive_negative_overflow_works() {
    let mut x = LoopValue::new(0, 10);
    x.advance(-1);
    assert_eq!(x.value(), 9);
}

#[test]
fn wrap_at_both_ends_for_many_moduli() {
    for m in [1, 2, 3, 7, 10, 1000, i32::MAX] {
        let mut top = LoopValue::new(m - 1, m);
        top.advance(1);
        assert_eq!(top.value(), 0);
        let mut bottom = LoopValue::new(0, m);
        bottom.advance(-1);
        assert_eq!(bottom.value(), m - 1);
    }
}

#[test]
fn advance_by_large_deltas_reduces_euclidean() {
    let mut x = LoopValue::new(3, 10);
    x.advance(25);
    assert_eq!(x.value(), 8);
    x.advance(-33);
    assert_eq!(x.value(), 5);
    let mut y = LoopValue::new(i32::MAX - 1, i32::MAX);
    y.advance(i32::MAX);
    assert_eq!(y.value(), i32::MAX - 1);
    let mut z = LoopValue::new(0, 7);
    z.advance(i32::MIN);
    assert_eq!(z.value(), (i32::MIN as i64).rem_euclid(7) as i32);
    assert_eq!(z.to_index(), z.value() as usize);
}

#[test]
fn rotations_undo_each_other() {
    for d in [Direction::Up, Direction::Right, Direction::Down, Direction::Left] {
        assert_eq!(d.rotate_cw().rotate_ccw(), d);
        assert_eq!(d.rotate_ccw().rotate_cw(), d);
    }
}

#[test]
fn clockwise_cycle_order() {
    assert_eq!(Direction::Up.rotate_cw(), Direction::Right);
    assert_eq!(Direction::Right.rotate_cw(), Direction::Down);
    assert_eq!(Direction::Down.rotate_cw(), Direction::Left);
    assert_eq!(Direction::Left.rotate_cw(), Direction::Up);
    assert_eq!(Direction::Up.rotate_ccw(), Direction::Left);
    assert_eq!(Direction::Left.rotate_ccw(), Direction::Down);
    assert_eq!(Direction::Down.rotate_ccw(), Direction::Right);
    assert_eq!(Direction::Right.rotate_ccw(), Direction::Up);
}

#[test]
fn translation_wraps_each_axis_at_its_own_bound() {
    let mut p = Position::new(0, 0, 3, 5);
    p.translate(Direction::Up.vector());
    assert_eq!((p.y_usize(), p.x_usize()), (2, 0));
    p.translate(Direction::Left.vector());
    assert_eq!((p.y_usize(), p.x_usize()), (2, 4));
    p.translate(Direction::Down.vector());
    assert_eq!((p.y_value(), p.x_value()), (0, 4));
    p.translate(Direction::Right.vector());
    assert_eq!((p.y_value(), p.x_value()), (0, 0));
    for _ in 0..4 {
        p.translate(Direction::Right.vector());
    }
    assert_eq!((p.y_value(), p.x_value()), (0, 4));
}
