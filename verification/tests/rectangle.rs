use niko::point::Point;
use niko::rectangle::Rectangle;

#[test]
fn it_works() {
    let a = Rectangle::new(0, 0, 3, 3);
    let b = Rectangle::new(1, 1, 1, 1);

    assert!(a.overlaps_rectangle(&b));
    assert!(b.overlaps_rectangle(&a));

    assert!(a.contains_rectangle(&b));
    assert!(!b.contains_rectangle(&a));
}

#[test]
fn disjoint_rectangles_do_not_overlap() {
    let a = Rectangle::new(0, 0, 2, 2);
    let b = Rectangle::new(5, 5, 2, 2);
    assert!(!a.overlaps_rectangle(&b));
    assert!(!b.overlaps_rectangle(&a));
}

#[test]
fn contains_point_is_inclusive() {
    let a = Rectangle::new(-1, -1, 2, 2);
    assert!(a.contains_point(Point::new(0, 0)));
    assert!(a.contains_point(Point::new(-1, -1)));
    assert!(a.contains_point(Point::new(1, 1)));
    assert!(!a.contains_point(Point::new(2, 0)));
}

#[test]
fn inflate_moves_origin_and_grows() {
    let a = Rectangle::new(10, 20, 30, 40).inflate(2, 3);
    assert_eq!(a, Rectangle::new(8, 17, 32, 43));
}

#[test]
fn translate_moves_origin_only() {
    let a = Rectangle::new(10, 20, 30, 40).translate(-5, 7);
    assert_eq!(a, Rectangle::new(5, 27, 30, 40));
}

#[test]
fn union_covers_both() {
    let a = Rectangle::new(0, 0, 2, 2);
    let b = Rectangle::new(3, -1, 2, 2);
    assert_eq!(a.union(b), Rectangle::new(0, -1, 5, 3));
}
