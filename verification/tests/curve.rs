use gamemath::{Bit, Curve};

#[test]
fn new_copies_the_values() {
    let c: Curve<i32> = Curve::new(&[0, 10, 5, 0]);
    assert_eq!(c.len(), 4);
    assert_eq!(c.index(0), 0);
    assert_eq!(c.index(1), 10);
    assert_eq!(c.index(2), 5);
    assert_eq!(c.index(3), 0);
}

#[test]
fn new_of_nothing_is_empty() {
    let c: Curve<u8> = Curve::new(&[]);
    assert_eq!(c.len(), 0);
}

#[test]
fn lerp_between_two_values() {
    let c = Curve::new(&[Bit(false), Bit(true), Bit(true)]);
    // (1 - 1) * c[0] + 1 * c[1]
    assert_eq!(c.lerp(Some((0, 1, Bit(true)))), Bit(true));
    // (1 - 0) * c[0] + 0 * c[1]
    assert_eq!(c.lerp(Some((0, 1, Bit(false)))), Bit(false));
    assert_eq!(c.lerp(Some((1, 2, Bit(false)))), Bit(true));
    assert_eq!(c.lerp(None), Bit(true));
}

#[test]
fn lerp_of_short_curves() {
    let one = Curve::new(&[Bit(true)]);
    assert_eq!(one.lerp(None), Bit(true));
    assert_eq!(one.lerp(Some((5, 7, Bit(false)))), Bit(true));
    let none: Curve<Bit> = Curve::new(&[]);
    assert_eq!(none.lerp(None), Bit(false));
    assert_eq!(none.lerp(Some((0, 0, Bit(true)))), Bit(false));
}

#[test]
fn index_set_replaces_one_value() {
    let mut c: Curve<f32> = Curve::new(&[0.0, 10.0, 5.0, 0.0]);
    c.index_set(2, 7.5);
    assert_eq!(c.index(1), 10.0);
    assert_eq!(c.index(2), 7.5);
    assert_eq!(c.len(), 4);
}
