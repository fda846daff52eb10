use einkvnc::dirty::push_to_dirty_rect_list;
use einkvnc::geom::{rotated_dims, Point, Rectangle};

fn r(x0: i32, y0: i32, x1: i32, y1: i32) -> Rectangle {
    Rectangle::new(x0, y0, x1, y1)
}

#[test]
fn rectangle_measures() {
    let a = r(10, 20, 50, 80);
    assert_eq!(a.min, Point { x: 10, y: 20 });
    assert_eq!(a.max, Point { x: 50, y: 80 });
    assert_eq!(a.width(), 40);
    assert_eq!(a.height(), 60);
    assert_eq!(r(5, 5, 5, 9).width(), 0);
    assert_eq!(r(9, 5, 5, 9).width(), 0);
    assert_eq!(r(i32::MIN, 0, i32::MAX, 0).width(), u32::MAX);
}

#[test]
fn rectangle_contains_is_inclusive() {
    let a = r(0, 0, 10, 10);
    assert!(a.contains(&a));
    assert!(a.contains(&r(0, 0, 5, 5)));
    assert!(a.contains(&r(5, 5, 10, 10)));
    assert!(!a.contains(&r(5, 5, 11, 10)));
    assert!(!a.contains(&r(-1, 0, 5, 5)));
    assert!(!r(0, 0, 5, 5).contains(&a));
}

#[test]
fn rectangle_extends_needs_equal_span() {
    let a = r(0, 0, 10, 10);
    // Shares an edge along x, same rows.
    assert!(r(10, 0, 20, 10).extends(&a));
    assert!(a.extends(&r(10, 0, 20, 10)));
    // Overlaps along x, same rows.
    assert!(r(5, 0, 20, 10).extends(&a));
    // Shares an edge along y, same columns.
    assert!(r(0, 10, 10, 30).extends(&a));
    // A gap of one column.
    assert!(!r(11, 0, 20, 10).extends(&a));
    // Rows differ.
    assert!(!r(10, 0, 20, 11).extends(&a));
    assert!(!r(10, 1, 20, 10).extends(&a));
    // Touches at a corner only.
    assert!(!r(10, 10, 20, 20).extends(&a));
}

#[test]
fn rectangle_absorb_gives_bounding_box() {
    let mut a = r(0, 0, 10, 10);
    a.absorb(&r(10, 0, 25, 10));
    assert_eq!(a, r(0, 0, 25, 10));
    let mut b = r(5, 5, 6, 6);
    b.absorb(&r(0, 7, 3, 9));
    assert_eq!(b, r(0, 5, 6, 9));
}

#[test]
fn absorb_appends_unrelated_rectangle() {
    let mut list = vec![r(0, 0, 10, 10)];
    push_to_dirty_rect_list(&mut list, r(50, 50, 60, 60));
    assert_eq!(list, vec![r(0, 0, 10, 10), r(50, 50, 60, 60)]);
    let mut empty: Vec<Rectangle> = Vec::new();
    push_to_dirty_rect_list(&mut empty, r(1, 2, 3, 4));
    assert_eq!(empty, vec![r(1, 2, 3, 4)]);
}

#[test]
fn absorb_twice_is_absorb_once() {
    let lists = vec![
        vec![],
        vec![r(0, 0, 10, 10)],
        vec![r(0, 0, 10, 10), r(20, 0, 30, 10)],
        vec![r(0, 0, 3, 3), r(100, 100, 200, 200), r(10, 0, 20, 10)],
    ];
    let rects = vec![
        r(0, 0, 5, 5),
        r(-5, -5, 50, 50),
        r(10, 0, 20, 10),
        r(300, 300, 310, 310),
        r(20, 0, 25, 10),
    ];
    for list in &lists {
        for rect in &rects {
            let mut once = list.clone();
            push_to_dirty_rect_list(&mut once, *rect);
            let mut twice = once.clone();
            push_to_dirty_rect_list(&mut twice, *rect);
            assert_eq!(once, twice);
        }
    }
}

#[test]
fn absorb_inside_tracked_changes_nothing() {
    let mut list = vec![r(100, 100, 110, 110), r(0, 0, 10, 10)];
    let before = list.clone();
    push_to_dirty_rect_list(&mut list, r(2, 2, 5, 5));
    assert_eq!(list, before);
    push_to_dirty_rect_list(&mut list, r(0, 0, 10, 10));
    assert_eq!(list, before);
}

#[test]
fn absorb_around_tracked_replaces_it() {
    let mut list = vec![r(100, 100, 110, 110), r(2, 2, 5, 5), r(200, 0, 210, 10)];
    push_to_dirty_rect_list(&mut list, r(0, 0, 10, 10));
    assert_eq!(list, vec![r(100, 100, 110, 110), r(0, 0, 10, 10), r(200, 0, 210, 10)]);
    assert_eq!(list.len(), 3);
}

#[test]
fn absorb_grows_tracked_rectangle_in_place() {
    let mut list = vec![r(100, 100, 110, 110), r(0, 0, 10, 10)];
    push_to_dirty_rect_list(&mut list, r(10, 0, 30, 10));
    assert_eq!(list, vec![r(100, 100, 110, 110), r(0, 0, 30, 10)]);
    push_to_dirty_rect_list(&mut list, r(0, 5, 30, 20));
    assert_eq!(list, vec![r(100, 100, 110, 110), r(0, 0, 30, 20)]);
}

#[test]
fn absorb_first_match_wins() {
    // The new rectangle lies inside the second entry, but it continues the
    // first one, which comes first and grows.
    let mut list = vec![r(-5, 0, 0, 5), r(0, 0, 10, 10)];
    push_to_dirty_rect_list(&mut list, r(0, 0, 5, 5));
    assert_eq!(list, vec![r(-5, 0, 5, 5), r(0, 0, 10, 10)]);
    // Only the first of two contained entries is replaced.
    let mut list = vec![r(1, 1, 2, 2), r(3, 3, 4, 4)];
    push_to_dirty_rect_list(&mut list, r(0, 0, 10, 10));
    assert_eq!(list, vec![r(0, 0, 10, 10), r(3, 3, 4, 4)]);
}

#[test]
fn absorb_does_not_merge_disjoint_rectangles() {
    let mut list = vec![r(0, 0, 10, 10)];
    push_to_dirty_rect_list(&mut list, r(12, 0, 20, 10));
    push_to_dirty_rect_list(&mut list, r(10, 10, 20, 20));
    push_to_dirty_rect_list(&mut list, r(0, 11, 10, 20));
    assert_eq!(
        list,
        vec![r(0, 0, 10, 10), r(12, 0, 20, 10), r(10, 10, 20, 20), r(0, 11, 10, 20)]
    );
}

#[test]
fn every_merged_rectangle_stays_covered() {
    let rects = vec![
        r(0, 0, 10, 10),
        r(10, 0, 20, 10),
        r(50, 50, 60, 60),
        r(0, 10, 20, 30),
        r(40, 40, 100, 100),
        r(5, 5, 6, 6),
        r(-3, 0, 0, 30),
    ];
    let mut list: Vec<Rectangle> = Vec::new();
    for (n, rect) in rects.iter().enumerate() {
        let before = list.clone();
        push_to_dirty_rect_list(&mut list, *rect);
        assert!(list.len() == before.len() || list.len() == before.len() + 1);
        for (i, old) in before.iter().enumerate() {
            assert!(list[i].contains(old));
        }
        for seen in &rects[..=n] {
            assert!(list.iter().any(|entry| entry.contains(seen)));
        }
    }
    assert_eq!(list, vec![r(-3, 0, 20, 30), r(40, 40, 100, 100)]);
}

#[test]
fn rotation_picks_which_side_is_the_width() {
    assert_eq!(rotated_dims((1072, 1448), 0), (1448, 1072));
    assert_eq!(rotated_dims((1072, 1448), 2), (1448, 1072));
    assert_eq!(rotated_dims((1072, 1448), 1), (1072, 1448));
    assert_eq!(rotated_dims((1448, 1072), 1), (1072, 1448));
    assert_eq!(rotated_dims((1448, 1072), 3), (1072, 1448));
    assert_eq!(rotated_dims((1448, 1072), 2), (1448, 1072));
    assert_eq!(rotated_dims((1448, 1072), -1), (1448, 1072));
    assert_eq!(rotated_dims((1072, 1448), -2), (1448, 1072));
    assert_eq!(rotated_dims((500, 500), 1), (500, 500));
}
