use twobombs::coord::Coord;
use twobombs::text::decimal_string;

#[test]
fn subtraction_saturates_at_zero() {
    let origin = Coord { x: 0, y: 0 };
    assert_eq!(origin - Coord { x: 1, y: 0 }, Coord { x: 0, y: 0 });
    assert_eq!(Coord { x: 3, y: 1 } - Coord { x: 1, y: 5 }, Coord { x: 2, y: 0 });
}

#[test]
fn addition_saturates_at_the_maximum() {
    let far = Coord { x: usize::MAX, y: usize::MAX - 1 };
    assert_eq!(far + Coord { x: 1, y: 1 }, Coord { x: usize::MAX, y: usize::MAX });
    assert_eq!(far + Coord { x: 0, y: 7 }, Coord { x: usize::MAX, y: usize::MAX });
}

#[test]
fn addition_and_subtraction_are_componentwise() {
    assert_eq!(Coord { x: 2, y: 3 } + Coord { x: 4, y: 5 }, Coord { x: 6, y: 8 });
    assert_eq!(Coord { x: 6, y: 8 } - Coord { x: 4, y: 5 }, Coord { x: 2, y: 3 });
}

#[test]
fn a_pair_becomes_a_coordinate() {
    assert_eq!(Coord::from((3, 4)), Coord { x: 3, y: 4 });
}

#[test]
fn the_default_coordinate_is_the_origin() {
    assert_eq!(Coord::default(), Coord { x: 0, y: 0 });
}

#[test]
fn a_coordinate_reads_x_comma_y() {
    assert_eq!(Coord { x: 0, y: 0 }.to_string(), "0,0");
    assert_eq!(Coord { x: 12, y: 305 }.to_string(), "12,305");
}

#[test]
fn numbers_read_in_decimal() {
    assert_eq!(decimal_string(0), "0");
    assert_eq!(decimal_string(9), "9");
    assert_eq!(decimal_string(10), "10");
    assert_eq!(decimal_string(4096), "4096");
    assert_eq!(decimal_string(usize::MAX), format!("{}", usize::MAX));
}
