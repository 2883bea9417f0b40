//! The plain components and shared definitions.

use hexcore::components::{InputReceiver, MainCamera, Renderable, TileMap};
use hexcore::def::Size;
use hexcore::input::{InputEvents, InputState};
use hexcore::screen::ScreenDimension;
use hexcore::states::PauseState;

#[test]
fn camera_holds_its_extent() {
    let c = MainCamera::new(800, 600);
    assert_eq!(c.size().w, 800);
    assert_eq!(c.size().h, 600);
}

#[test]
fn size_and_screen_dimension_convert() {
    let s = Size::new(640, 480);
    let d: ScreenDimension = s.into();
    assert_eq!((d.w, d.h), (640, 480));
    let back: Size = d.into();
    assert_eq!(back, s);
    let d2 = ScreenDimension::new(1, 2);
    assert_eq!((d2.w, d2.h), (1, 2));
}

#[test]
fn tile_map_test_constructor() {
    let m = TileMap::test(32, 24);
    assert!(m.tiles.is_empty());
    assert_eq!((m.size.w, m.size.h), (32, 24));
}

#[test]
fn renderable_defaults_to_opaque() {
    let r = Renderable::new("player".to_string(), 32, 48);
    assert_eq!(r.tid, "player");
    assert_eq!((r.size.w, r.size.h), (32, 48));
    assert_eq!(r.alpha, 255);
    let t = Renderable::new_with_alpha("logo".to_string(), 200, 200, 128);
    assert_eq!(t.alpha, 128);
}

#[test]
fn input_state_starts_clear() {
    let s = InputState::new();
    assert!(!s.up && !s.down && !s.left && !s.right);
    assert!(!s.zoomin && !s.zoomout && !s.lmb && !s.rmb);
    assert_eq!(s.cursor_pos, (-1, -1));
    assert_eq!(s.lmb_pos, (-1, -1));
    assert_eq!(s.rmb_pos, (-1, -1));
}

#[test]
fn input_events_start_empty() {
    let e = InputEvents::new();
    assert!(e.camera.is_empty());
    assert!(e.unit.is_empty());
}

#[test]
fn markers_construct() {
    let _ = InputReceiver;
    let _ = PauseState::new();
}
