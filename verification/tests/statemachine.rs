//! The pushdown state machine over the four game states.

use hexcore::statemachine::{StateMachine, StateTrans};

/// Builds the canonical table: opening, title, gameplay (preserved under
/// pause) and pause, with the transitions the game uses.
fn game_machine() -> (StateMachine, usize, usize, usize, usize) {
    let mut m = StateMachine::new();
    let opening = m.add_state(false);
    let title = m.add_state(false);
    let gameplay = m.add_state(true);
    let pause = m.add_state(false);
    m.add_trans(opening, title, StateTrans::Title);
    m.add_trans(title, gameplay, StateTrans::Gameplay);
    m.add_trans(gameplay, pause, StateTrans::Pause);
    m.add_trans(pause, gameplay, StateTrans::Resume);
    m.set_initial(opening);
    m.start();
    (m, opening, title, gameplay, pause)
}

#[test]
fn state_ids_are_stable() {
    let mut m = StateMachine::new();
    assert_eq!(m.add_state(false), 0);
    assert_eq!(m.add_state(true), 1);
    assert_eq!(m.add_state(false), 2);
}

#[test]
fn full_opening_to_resume_walk() {
    let (mut m, opening, title, gameplay, pause) = game_machine();
    assert_eq!(m.current_state_id(), opening);
    assert_eq!(m.ui_stack().as_slice(), &[opening]);

    assert!(m.feed(StateTrans::Title));
    assert_eq!(m.current_state_id(), title);
    assert_eq!(m.ui_stack().as_slice(), &[title]);

    assert!(m.feed(StateTrans::Gameplay));
    assert_eq!(m.current_state_id(), gameplay);
    assert_eq!(m.ui_stack().as_slice(), &[gameplay]);

    // Gameplay preserves: the pause overlay stacks on top of it.
    assert!(m.feed(StateTrans::Pause));
    assert_eq!(m.current_state_id(), pause);
    assert_eq!(m.ui_stack().as_slice(), &[gameplay, pause]);

    // Pause does not preserve: resuming pops it and gameplay stays alone.
    assert!(m.feed(StateTrans::Resume));
    assert_eq!(m.current_state_id(), gameplay);
    assert_eq!(m.ui_stack().as_slice(), &[gameplay]);
}

#[test]
fn unknown_symbol_is_a_no_op() {
    let (mut m, opening, _, _, _) = game_machine();
    // Opening has no entry for Resume.
    assert!(!m.feed(StateTrans::Resume));
    assert_eq!(m.current_state_id(), opening);
    assert_eq!(m.ui_stack().as_slice(), &[opening]);
    // Nor for Pause.
    assert!(!m.feed(StateTrans::Pause));
    assert_eq!(m.current_state_id(), opening);
    assert_eq!(m.ui_stack().as_slice(), &[opening]);
}

#[test]
fn stopped_machine_ignores_feeds() {
    let (mut m, opening, _, _, _) = game_machine();
    m.stop();
    assert!(!m.is_running());
    assert!(!m.feed(StateTrans::Title));
    assert_eq!(m.current_state_id(), opening);
    m.start();
    assert!(m.is_running());
    assert!(m.feed(StateTrans::Title));
}

#[test]
fn pause_resume_cycles_keep_the_stack_small() {
    let (mut m, _, _, gameplay, pause) = game_machine();
    m.feed(StateTrans::Title);
    m.feed(StateTrans::Gameplay);
    for _ in 0..5 {
        m.feed(StateTrans::Pause);
        assert_eq!(m.ui_stack().as_slice(), &[gameplay, pause]);
        m.feed(StateTrans::Resume);
        assert_eq!(m.ui_stack().as_slice(), &[gameplay]);
    }
}
