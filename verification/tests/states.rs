//! The opening fade and the title prompt blink.

use hexcore::states::{OpeningState, TitleState};

#[test]
fn opening_fades_in_holds_and_fades_out() {
    let mut s = OpeningState::new(8000);
    // At the start the logo is invisible.
    assert_eq!(s.logo_alpha(), 0);
    // Halfway into the first quarter it is half faded in.
    assert!(!s.update(1000, false));
    assert_eq!(s.logo_alpha(), 127);
    // In the middle of the span it is fully opaque.
    assert!(!s.update(3000, false));
    assert_eq!(s.logo_alpha(), 255);
    // Halfway into the last quarter it is half faded out.
    assert!(!s.update(3000, false));
    assert_eq!(s.logo_alpha(), 127);
    // Once the span runs out the opening reports done.
    assert!(s.update(1500, false));
    assert_eq!(s.logo_alpha(), 0);
}

#[test]
fn opening_can_be_skipped() {
    let mut s = OpeningState::new(8000);
    assert!(s.update(16, true));
}

#[test]
fn very_short_opening_shows_the_logo() {
    let s = OpeningState::new(3);
    assert_eq!(s.logo_alpha(), 255);
}

#[test]
fn title_prompt_blinks_each_second() {
    let mut t = TitleState::new();
    assert!(t.show_prompt);
    t.on_update(600);
    assert!(t.show_prompt);
    assert_eq!(t.timer_ms, 600);
    t.on_update(600);
    assert!(!t.show_prompt);
    assert_eq!(t.timer_ms, 0);
    t.on_update(1001);
    assert!(t.show_prompt);
}
