use kiwi::vecmath::{Rectangle, V2};

#[test]
fn v2_add() {
    assert_eq!(V2::make(0, 0) + V2::make(0, 0), V2::make(0, 0));
    assert_eq!(V2::make(0, 10) + V2::make(0, 0), V2::make(0, 10));
    assert_eq!(V2::make(10, 0) + V2::make(0, 0), V2::make(10, 0));
    assert_eq!(V2::make(0, 10) + V2::make(10, 0), V2::make(10, 10));
    assert_eq!(V2::make(1, 2) + V2::make(4, 8), V2::make(5, 10));
}

#[test]
fn rect_sides() {
    let r = Rectangle {
        pos: V2::make(1, 2),
        size: V2::make(3, 4),
    };
    assert_eq!(r.top(), 2);
    assert_eq!(r.left(), 1);
    assert_eq!(r.bottom(), 5);
    assert_eq!(r.right(), 3);
    assert_eq!(r.bottom_right(), V2::make(3, 5));
    assert_eq!(r.bottom_left(), V2::make(1, 5));
    assert_eq!(r.top_right(), V2::make(3, 2));
}

#[test]
fn inside() {
    let r = Rectangle {
        pos: V2::make(1, 2),
        size: V2::make(3, 4),
    };
    assert_eq!(true, r.contains(V2::make(1, 2)));
    assert_eq!(false, r.contains(V2::make(0, 2)));
    assert_eq!(true, r.contains(r.bottom_right()));
    assert_eq!(false, r.contains(r.bottom_right() + V2::make(1, 0)));
    assert_eq!(false, r.contains(r.bottom_right() + V2::make(0, 1)));
}

#[test]
fn v2_sub_and_constructors() {
    assert_eq!(V2::make(5, 10) - V2::make(1, 2), V2::make(4, 8));
    assert_eq!(V2::new(), V2::make(0, 0));
    assert_eq!(V2::from((80, 24)), V2::make(80, 24));
}

#[test]
fn rect_grow_and_size() {
    let r = Rectangle { pos: V2::make(10, 20), size: V2::make(30, 40) };
    let g = r.grow(-5);
    assert_eq!(g.pos, V2::make(15, 25));
    assert_eq!(g.size, V2::make(20, 30));
    let h = r.grow(2);
    assert_eq!(h.pos, V2::make(8, 18));
    assert_eq!(h.size, V2::make(34, 44));
    assert_eq!(r.width(), 30);
    assert_eq!(r.height(), 40);
}

#[test]
fn normalize_flips_negative_sizes() {
    let r = Rectangle { pos: V2::make(5, 5), size: V2::make(-2, 0) };
    let n = r.normalized();
    assert_eq!(n.pos, V2::make(2, 4));
    assert_eq!(n.size, V2::make(4, 2));
    assert!(n.size.x > 0 && n.size.y > 0);
    let n2 = n.normalized();
    assert_eq!(n2.pos, n.pos);
    assert_eq!(n2.size, n.size);
}

#[test]
fn normalize_keeps_positive_rectangle() {
    let r = Rectangle { pos: V2::make(-3, 7), size: V2::make(2, 9) };
    let n = r.normalized();
    assert_eq!(n.pos, r.pos);
    assert_eq!(n.size, r.size);
}

#[test]
fn normalize_one_axis() {
    let r = Rectangle { pos: V2::make(4, 4), size: V2::make(3, -1) };
    let n = r.normalized();
    assert_eq!(n.pos, V2::make(4, 2));
    assert_eq!(n.size, V2::make(3, 3));
    assert!(n.contains(V2::make(4, 2)));
    assert!(n.contains(V2::make(6, 4)));
    assert!(!n.contains(V2::make(4, 5)));
}
