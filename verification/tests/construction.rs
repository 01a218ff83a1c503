use coord::Coord;
use std::collections::HashSet;

#[test]
fn new_keeps_both_components() {
    let c = Coord::new(3, -8);
    assert_eq!(c.x, 3);
    assert_eq!(c.y, -8);
}

#[test]
fn from_pair_equals_new() {
    assert_eq!(Coord::from((4, -9)), Coord::new(4, -9));
    assert_eq!(Coord::from((0u8, 255u8)), Coord::new(0u8, 255u8));
    assert_eq!(Coord::from((0.0, -2.5)), Coord::new(0.0, -2.5));
    let c: Coord<i64> = (7, 11).into();
    assert_eq!(c, Coord::new(7, 11));
    assert_eq!(c.x, 7);
    assert_eq!(c.y, 11);
}

#[test]
fn default_is_the_origin() {
    assert_eq!(Coord::<i32>::default(), Coord::new(0, 0));
    assert_eq!(Coord::<u64>::default(), Coord::new(0, 0));
    assert_eq!(Coord::<f64>::default(), Coord::new(0.0, 0.0));
}

#[test]
fn equality_is_field_wise() {
    assert_eq!(Coord::new(1, 2), Coord::new(1, 2));
    assert_ne!(Coord::new(1, 2), Coord::new(2, 1));
    assert_ne!(Coord::new(1, 2), Coord::new(1, 3));
    assert_ne!(Coord::new(1, 2), Coord::new(0, 2));
}

#[test]
fn equal_coordinates_hash_alike() {
    let mut seen = HashSet::new();
    assert!(seen.insert(Coord::new(1, 2)));
    assert!(!seen.insert(Coord::new(1, 2)));
    assert!(seen.insert(Coord::new(2, 1)));
    assert!(seen.contains(&Coord::from((2, 1))));
    assert_eq!(seen.len(), 2);
}

#[test]
fn coordinates_are_copied_freely() {
    let a = Coord::new(5, 6);
    let b = a;
    let c = a.clone();
    assert_eq!(a, b);
    assert_eq!(a, c);
    assert_eq!(format!("{:?}", a), "Coord { x: 5, y: 6 }");
}
