use coord::Coord;

#[test]
fn neighbor() {
    let origo = Coord::new(0, 0);

    assert_eq!(
        [
            Coord::new(0, 1),
            Coord::new(1, 1),
            Coord::new(1, 0),
            Coord::new(1, -1),
            Coord::new(0, -1),
            Coord::new(-1, -1),
            Coord::new(-1, 0),
            Coord::new(-1, 1)
        ],
        origo.neighbors()
    );

    assert_eq!(
        [
            Coord::new(0, 1),
            Coord::new(1, 0),
            Coord::new(0, -1),
            Coord::new(-1, 0)
        ],
        origo.cardinal_neighbors()
    );
}

#[test]
fn each_step_moves_by_one() {
    let c = Coord::new(10i64, -20i64);
    assert_eq!(c.up(), Coord::new(10, -19));
    assert_eq!(c.up_right(), Coord::new(11, -19));
    assert_eq!(c.right(), Coord::new(11, -20));
    assert_eq!(c.down_right(), Coord::new(11, -21));
    assert_eq!(c.down(), Coord::new(10, -21));
    assert_eq!(c.down_left(), Coord::new(9, -21));
    assert_eq!(c.left(), Coord::new(9, -20));
    assert_eq!(c.up_left(), Coord::new(9, -19));
    assert_eq!(c, Coord::new(10, -20));
}

#[test]
fn steps_reach_the_limits_of_the_type() {
    let c = Coord::new(126i8, -127i8);
    assert_eq!(c.right(), Coord::new(127, -127));
    assert_eq!(c.down(), Coord::new(126, -128));
    assert_eq!(c.down_right(), Coord::new(127, -128));
    let u = Coord::new(1u8, 254u8);
    assert_eq!(u.up_left(), Coord::new(0, 255));
}

#[test]
fn neighbors_of_an_unsigned_coordinate() {
    let c = Coord::new(1u16, 1u16);
    assert_eq!(
        c.neighbors(),
        [
            Coord::new(1, 2),
            Coord::new(2, 2),
            Coord::new(2, 1),
            Coord::new(2, 0),
            Coord::new(1, 0),
            Coord::new(0, 0),
            Coord::new(0, 1),
            Coord::new(0, 2)
        ]
    );
    assert_eq!(
        c.cardinal_neighbors(),
        [
            Coord::new(1, 2),
            Coord::new(2, 1),
            Coord::new(1, 0),
            Coord::new(0, 1)
        ]
    );
}

fn chebyshev(a: Coord<i32>, b: Coord<i32>) -> i32 {
    (a.x - b.x).abs().max((a.y - b.y).abs())
}

fn manhattan(a: Coord<i32>, b: Coord<i32>) -> i32 {
    (a.x - b.x).abs() + (a.y - b.y).abs()
}

#[test]
fn neighbors_are_the_points_at_chebyshev_distance_one() {
    let c = Coord::new(5, -7);
    let around = c.neighbors();
    for (i, p) in around.iter().enumerate() {
        assert_eq!(chebyshev(c, *p), 1);
        for q in around.iter().skip(i + 1) {
            assert_ne!(p, q);
        }
    }
    for x in 2..=8 {
        for y in -10..=-4 {
            let p = Coord::new(x, y);
            assert_eq!(around.contains(&p), chebyshev(c, p) == 1);
        }
    }
}

#[test]
fn cardinal_neighbors_are_the_points_at_manhattan_distance_one() {
    let c = Coord::new(-3, 4);
    let around = c.cardinal_neighbors();
    for (i, p) in around.iter().enumerate() {
        assert_eq!(manhattan(c, *p), 1);
        for q in around.iter().skip(i + 1) {
            assert_ne!(p, q);
        }
    }
    for x in -6..=0 {
        for y in 1..=7 {
            let p = Coord::new(x, y);
            assert_eq!(around.contains(&p), manhattan(c, p) == 1);
        }
    }
}

#[test]
fn cardinal_neighbors_are_every_other_neighbor() {
    let c = Coord::new(40i128, 2i128);
    let all = c.neighbors();
    assert_eq!(c.cardinal_neighbors(), [all[0], all[2], all[4], all[6]]);
}
