//! Input snapshot and event queues filled by the host's event pump.

use std::collections::VecDeque;
use vstd::prelude::*;

verus! {

/// The held-down and pointer state as of the last polled events.
#[derive(Debug, Clone, Copy)]
pub struct InputState {
    pub up: bool,
    pub down: bool,
    pub left: bool,
    pub right: bool,
    pub zoomin: bool,
    pub zoomout: bool,
    pub lmb: bool,
    pub rmb: bool,
    pub cursor_pos: (i32, i32),
    pub lmb_pos: (i32, i32),
    pub rmb_pos: (i32, i32),
}

impl InputState {
    /// The initial state: nothing held, pointer off-screen.
    pub fn new() -> (s: InputState)
        ensures
            !s.up && !s.down && !s.left && !s.right,
            !s.zoomin && !s.zoomout,
            !s.lmb && !s.rmb,
            s.cursor_pos == ((-1i32, -1i32)),
            s.lmb_pos == ((-1i32, -1i32)),
            s.rmb_pos == ((-1i32, -1i32)),
    {
        InputState {
            up: false,
            down: false,
            left: false,
            right: false,
            zoomin: false,
            zoomout: false,
            lmb: false,
            rmb: false,
            cursor_pos: (-1, -1),
            lmb_pos: (-1, -1),
            rmb_pos: (-1, -1),
        }
    }
}

/// A distilled input event handed to the interested systems.
#[derive(Debug, PartialEq, Eq, Clone, Copy, Structural)]
pub enum InputEvent {
    MouseLeftClicked(i32, i32),
    MouseRightClicked(i32, i32),
    PrintCameraInfo,
}

/// Per-consumer queues of distilled input events.
#[derive(Debug)]
pub struct InputEvents {
    pub camera: VecDeque<InputEvent>,
    pub unit: VecDeque<InputEvent>,
}

impl InputEvents {
    /// Empty queues, with a little room reserved.
    pub fn new() -> (e: InputEvents)
        ensures
            e.camera@ == Seq::<InputEvent>::empty(),
            e.unit@ == Seq::<InputEvent>::empty(),
    {
        InputEvents { camera: VecDeque::with_capacity(10), unit: VecDeque::with_capacity(10) }
    }
}

} // verus!
