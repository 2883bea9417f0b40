//! The gameplay scene's pointer and scrolling logic.

use hexcore::gameplay::{GamePlayState, PointerEvent, Scroll};
use hexcore::hex::Hex;
use hexcore::layout::{Layout, POINTY_TOP};
use hexcore::map::hexmap::HexMap;

fn scene() -> GamePlayState {
    let map = HexMap::new(4);
    let layout = Layout::new(POINTY_TOP, 10, 10, 0, 0);
    GamePlayState::new(map, layout)
}

#[test]
fn click_selects_the_cell_under_the_cursor() {
    let mut g = scene();
    g.on_input(PointerEvent::Moved(17, 0), 640, 480);
    assert_eq!((g.cursor_x, g.cursor_y), (17, 0));
    g.on_input(PointerEvent::LeftPressed, 640, 480);
    assert_eq!(g.cursor_region.cells().as_slice(), &[Hex::new(1, 0)]);
    // Releasing deselects everything.
    g.on_input(PointerEvent::LeftReleased, 640, 480);
    assert!(g.cursor_region.cells().is_empty());
}

#[test]
fn clicking_twice_keeps_one_cell() {
    let mut g = scene();
    g.on_input(PointerEvent::Moved(0, 0), 640, 480);
    g.on_input(PointerEvent::LeftPressed, 640, 480);
    g.on_input(PointerEvent::LeftPressed, 640, 480);
    assert_eq!(g.cursor_region.cells().len(), 1);
}

#[test]
fn pointer_at_edges_arms_scrolling() {
    let mut g = scene();
    g.on_input(PointerEvent::Moved(2, 240), 640, 480);
    assert_eq!(g.scroll_x, Scroll::Left);
    assert_eq!(g.scroll_y, Scroll::Idle);
    g.on_input(PointerEvent::Moved(638, 3), 640, 480);
    assert_eq!(g.scroll_x, Scroll::Right);
    assert_eq!(g.scroll_y, Scroll::Up);
    g.on_input(PointerEvent::Moved(320, 478), 640, 480);
    assert_eq!(g.scroll_x, Scroll::Idle);
    assert_eq!(g.scroll_y, Scroll::Down);
    // The very top row does not arm upward scrolling.
    g.on_input(PointerEvent::Moved(320, 0), 640, 480);
    assert_eq!(g.scroll_y, Scroll::Idle);
}

#[test]
fn scrolling_moves_the_view_origin() {
    let mut g = scene();
    g.on_input(PointerEvent::Moved(2, 240), 640, 480);
    // 100 px/s for 500 ms moves the view 50 px to the left.
    g.on_update(100, 500);
    assert_eq!(g.origin_x, -50);
    assert_eq!(g.origin_y, 0);
    // The cursor's world position follows on the next movement.
    g.on_input(PointerEvent::Moved(10, 10), 640, 480);
    assert_eq!((g.cursor_x, g.cursor_y), (-40, 10));
}

#[test]
fn scrolling_clamps_at_the_view_limit() {
    let mut g = scene();
    g.on_input(PointerEvent::Moved(2, 240), 640, 480);
    // Ten million pixels of scrolling stop at the view limit.
    g.on_update(100_000, 100_000);
    assert_eq!(g.origin_x, -8_388_608);
}

#[test]
fn idle_axes_do_not_scroll() {
    let mut g = scene();
    g.on_input(PointerEvent::Moved(320, 240), 640, 480);
    g.on_update(100, 1000);
    assert_eq!((g.origin_x, g.origin_y), (0, 0));
}
