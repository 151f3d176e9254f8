//! Rectangles: overlap, minimum-penetration vectors, edges, rounding.

use search::geometry::{Point, Rectangle};
use search::hitbox::Hitbox;

fn rect(x1: i64, x2: i64, y1: i64, y2: i64) -> Rectangle {
    Rectangle::new(x1, x2, y1, y2)
}

#[test]
fn collides_is_symmetric() {
    let cases = [
        (rect(0, 100_000, 0, 100_000), rect(50_000, 150_000, 50_000, 150_000)),
        (rect(0, 100_000, 0, 100_000), rect(200_000, 300_000, 0, 100_000)),
        (rect(0, 100_000, 0, 100_000), rect(100_000, 200_000, 100_000, 200_000)),
        (rect(-50_000, 0, -50_000, 0), rect(0, 10_000, 0, 10_000)),
    ];
    for (a, b) in cases {
        assert_eq!(a.collides(&b), b.collides(&a));
    }
    assert!(rect(0, 100_000, 0, 100_000).collides(&rect(100_000, 200_000, 0, 100_000)));
    assert!(!rect(0, 100_000, 0, 100_000).collides(&rect(100_100, 200_000, 0, 100_000)));
}

#[test]
fn mpv_picks_minimal_axis_separation() {
    // a sits slightly over b's left edge: cheapest push is along x
    let a = rect(0, 100_000, 0, 100_000);
    let b = rect(90_000, 300_000, -200_000, 300_000);
    let mpv = a.get_mpv(&b);
    // candidates: east 100_000-90_000 = 10_000 is the smallest magnitude
    assert_eq!((mpv.x, mpv.y), (10_000, 0));
    let man = mpv.manhattan_len();
    let east = (a.x2 - b.x1).abs();
    let west = (a.x1 - b.x2).abs();
    let north = (a.y2 - b.y1).abs();
    let south = (a.y1 - b.y2).abs();
    assert_eq!(man, east.min(west).min(north.min(south)));
}

#[test]
fn mpv_vertical_case() {
    // a overlaps b from above: cheapest separation is along y
    let a = rect(-100_000, 100_000, -10_000, 200_000);
    let b = rect(-300_000, 300_000, -300_000, 0);
    let mpv = a.get_mpv(&b);
    // north: a.y2 - b.y1 = 500_000; south: a.y1 - b.y2 = -10_000
    assert_eq!((mpv.x, mpv.y), (0, -10_000));
}

#[test]
fn common_edges() {
    let a = rect(0, 100_000, 0, 100_000);
    assert!(a.has_common_edge(&rect(0, 100_000, 100_000, 200_000)));
    assert!(a.has_common_edge(&rect(100_000, 200_000, 0, 100_000)));
    assert!(!a.has_common_edge(&rect(10_000, 100_000, 100_000, 200_000)));
    assert!(!a.has_common_edge(&rect(200_000, 300_000, 200_000, 300_000)));
}

#[test]
fn construction_rounds_to_the_grid() {
    let r = rect(12_345, 99_949, -12_351, 50);
    assert_eq!((r.x1, r.x2, r.y1, r.y2), (12_300, 99_900, -12_400, 0));
    let off = r.offset(10_037, -25);
    assert_eq!((off.x1, off.x2), (22_300, 109_900));
    assert_eq!((off.y1, off.y2), (-12_400, 0));
    let ex = r.expand(10_000);
    assert_eq!((ex.x1, ex.x2, ex.y1, ex.y2), (2_300, 109_900, -22_400, 10_000));
    assert_eq!(r.rounded(), r);
}

#[test]
fn hitbox_delegates_to_rectangle() {
    let a = Hitbox::new(rect(0, 100_000, 0, 100_000));
    let b = Hitbox::new(rect(50_000, 150_000, 50_000, 150_000));
    assert!(a.collides(&b));
    assert_eq!(a.get_leftmost_point(), 0);
    assert_eq!(a.get_rightmost_point(), 100_000);
    assert_eq!(a.get_highest_point(), 100_000);
    assert_eq!(a.get_lowest_point(), 0);
    let mpv = a.get_mpv(&b);
    let p = Point::new(mpv.x, mpv.y);
    assert_eq!(p.manhattan_len(), 50_000);
    let mut c = a;
    c.update(rect(0, 10_000, 0, 10_000));
    assert_eq!(c.get_rightmost_point(), 10_000);
}
