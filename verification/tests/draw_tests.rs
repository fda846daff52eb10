use einkvnc::dirty::push_to_dirty_rect_list;
use einkvnc::draw::{
    region_mode, Commit, Draw, UpdateMode, FAST_MONO_LIMIT, MAX_DIRTY_REFRESHES, QUIET_PERIOD_MS,
};
use einkvnc::geom::Rectangle;

fn r(x0: i32, y0: i32, x1: i32, y1: i32) -> Rectangle {
    Rectangle::new(x0, y0, x1, y1)
}

fn full(rect: Rectangle) -> Commit {
    Commit { rect, mode: UpdateMode::Full }
}

#[test]
fn constants() {
    assert_eq!(MAX_DIRTY_REFRESHES, 500);
    assert_eq!(FAST_MONO_LIMIT, 100);
    assert_eq!(QUIET_PERIOD_MS, 3000);
}

#[test]
fn small_region_selects_fast_mono() {
    assert_eq!(region_mode(&r(0, 0, 40, 40)), UpdateMode::FastMono);
    assert_eq!(region_mode(&r(0, 0, 150, 40)), UpdateMode::Partial);
    assert_eq!(region_mode(&r(0, 0, 40, 150)), UpdateMode::Partial);
    assert_eq!(region_mode(&r(10, 10, 109, 109)), UpdateMode::FastMono);
    assert_eq!(region_mode(&r(10, 10, 110, 109)), UpdateMode::Partial);
    assert_eq!(region_mode(&r(10, 10, 109, 110)), UpdateMode::Partial);
}

#[test]
fn new_scheduler_has_painted_nothing() {
    let draw = Draw::new(17);
    assert!(draw.dirty_rects.is_empty());
    assert!(draw.dirty_rects_since_refresh.is_empty());
    assert!(!draw.has_drawn_once);
    assert_eq!(draw.dirty_update_count, 0);
    assert_eq!(draw.time_at_last_draw, 17);
}

#[test]
fn first_update_of_whole_panel_is_full_then_partial() {
    let panel = r(0, 0, 800, 600);
    let mut draw = Draw::new(0);
    push_to_dirty_rect_list(&mut draw.dirty_rects, r(0, 0, 5, 5));
    assert_eq!(draw.update(panel), full(panel));
    assert!(draw.has_drawn_once);
    assert_eq!(draw.dirty_update_count, 0);
    assert!(draw.dirty_rects.is_empty());
    draw.dirty_update_count = 7;
    draw.dirty_rects_since_refresh.push(r(0, 0, 5, 5));
    assert_eq!(draw.update(panel), Commit { rect: panel, mode: UpdateMode::Partial });
    assert_eq!(draw.dirty_update_count, 7);
    assert!(draw.dirty_rects_since_refresh.is_empty());
}

#[test]
fn update_over_ceiling_is_full_and_resets_counter() {
    let panel = r(0, 0, 800, 600);
    let mut draw = Draw::new(0);
    draw.has_drawn_once = true;
    draw.dirty_update_count = 500;
    assert_eq!(draw.update(panel).mode, UpdateMode::Partial);
    assert_eq!(draw.dirty_update_count, 500);
    draw.dirty_update_count = 501;
    assert_eq!(draw.update(panel).mode, UpdateMode::Full);
    assert_eq!(draw.dirty_update_count, 0);
}

#[test]
fn refresh_resets_counter_to_zero() {
    let mut draw = Draw::new(0);
    draw.dirty_update_count = 123;
    draw.dirty_rects_since_refresh = vec![r(0, 0, 10, 10), r(50, 50, 300, 300)];
    draw.dirty_rects = vec![r(1, 1, 2, 2)];
    let commits = draw.refresh();
    assert_eq!(commits, vec![full(r(0, 0, 10, 10)), full(r(50, 50, 300, 300))]);
    assert_eq!(draw.dirty_update_count, 0);
    assert!(draw.dirty_rects_since_refresh.is_empty());
    assert_eq!(draw.dirty_rects, vec![r(1, 1, 2, 2)]);
}

#[test]
fn end_of_frame_draws_each_region_and_remembers_it() {
    let mut draw = Draw::new(0);
    push_to_dirty_rect_list(&mut draw.dirty_rects, r(0, 0, 40, 40));
    push_to_dirty_rect_list(&mut draw.dirty_rects, r(200, 0, 350, 40));
    let commits = draw.draw_end(900);
    assert_eq!(
        commits,
        vec![
            Commit { rect: r(0, 0, 40, 40), mode: UpdateMode::FastMono },
            Commit { rect: r(200, 0, 350, 40), mode: UpdateMode::Partial },
        ]
    );
    assert_eq!(draw.dirty_update_count, 1);
    assert!(draw.has_drawn_once);
    assert!(draw.dirty_rects.is_empty());
    assert_eq!(draw.dirty_rects_since_refresh, vec![r(0, 0, 40, 40), r(200, 0, 350, 40)]);
    assert_eq!(draw.time_at_last_draw, 900);
    // The next frame's region continues a remembered one, which grows.
    push_to_dirty_rect_list(&mut draw.dirty_rects, r(40, 0, 60, 40));
    draw.draw_end(950);
    assert_eq!(draw.dirty_rects_since_refresh, vec![r(0, 0, 60, 40), r(200, 0, 350, 40)]);
    assert_eq!(draw.dirty_update_count, 2);
}

#[test]
fn empty_frame_counts_but_paints_nothing() {
    let mut draw = Draw::new(3);
    let commits = draw.draw_end(10);
    assert!(commits.is_empty());
    assert!(!draw.has_drawn_once);
    assert_eq!(draw.dirty_update_count, 1);
    assert_eq!(draw.time_at_last_draw, 10);
}

#[test]
fn frame_after_the_ceiling_refreshes_in_full() {
    let mut draw = Draw::new(0);
    for tick in 0..500u64 {
        push_to_dirty_rect_list(&mut draw.dirty_rects, r(0, 0, 10, 10));
        let commits = draw.draw_end(tick);
        assert_eq!(commits, vec![Commit { rect: r(0, 0, 10, 10), mode: UpdateMode::FastMono }]);
        assert_eq!(draw.dirty_update_count as u64, tick + 1);
    }
    assert_eq!(draw.dirty_update_count, 500);
    push_to_dirty_rect_list(&mut draw.dirty_rects, r(500, 500, 510, 510));
    let commits = draw.draw_end(500);
    assert_eq!(commits, vec![full(r(0, 0, 10, 10))]);
    assert_eq!(draw.dirty_update_count, 0);
    assert!(draw.dirty_rects.is_empty());
    assert!(draw.dirty_rects_since_refresh.is_empty());
    assert_eq!(draw.time_at_last_draw, 499);
}

#[test]
fn counter_at_machine_limit_does_not_overflow() {
    let mut draw = Draw::new(0);
    draw.dirty_update_count = usize::MAX;
    draw.dirty_rects_since_refresh = vec![r(0, 0, 1, 1)];
    assert_eq!(draw.draw_end(1), vec![full(r(0, 0, 1, 1))]);
    assert_eq!(draw.dirty_update_count, 0);
}

#[test]
fn idle_panel_is_refreshed_after_quiet_period() {
    let mut draw = Draw::new(0);
    push_to_dirty_rect_list(&mut draw.dirty_rects, r(0, 0, 10, 10));
    draw.draw_end(1000);
    assert!(draw.idle_refresh(4000).is_empty());
    assert_eq!(draw.dirty_update_count, 1);
    assert!(draw.idle_refresh(999).is_empty());
    assert_eq!(draw.idle_refresh(4001), vec![full(r(0, 0, 10, 10))]);
    assert_eq!(draw.dirty_update_count, 0);
    assert!(draw.dirty_rects_since_refresh.is_empty());
    // Nothing is left to refresh.
    assert!(draw.idle_refresh(100_000).is_empty());
}
