use vstd::prelude::*;

verus! {

/// Whether a key or button went down or up.
#[derive(Clone, Copy, PartialEq, Eq, Structural, Debug)]
pub enum ElementState {
    Pressed,
    Released,
}

/// The keys the camera controller reacts to; every other key is `Other`.
#[derive(Clone, Copy, PartialEq, Eq, Structural, Debug)]
pub enum VirtualKeyCode {
    Space,
    LShift,
    W,
    Up,
    A,
    Left,
    S,
    Down,
    D,
    Right,
    Other,
}

#[derive(Clone, Copy, PartialEq, Eq, Structural, Debug)]
pub enum MouseButton {
    Left,
    Right,
    Middle,
    Other,
}

/// What a cursor movement does to the drag state.
#[derive(Clone, Copy, PartialEq, Eq, Structural, Debug)]
pub enum MouseTracking {
    /// A drag starts here: the cursor position becomes the drag origin, and
    /// the drag offset is measured from it.
    Begin,
    /// The drag goes on: the offset is measured from the drag origin.
    Drag,
    /// The button was released: the drag ends.
    Release,
    /// No drag is in progress.
    Idle,
}

/// One step of a camera update, applied in the order given.
#[derive(Clone, Copy, PartialEq, Eq, Structural, Debug)]
pub enum CameraMove {
    /// Move the eye toward the target, unless that would bring it within one
    /// step of the target.
    Forward,
    /// Move the eye away from the target.
    Backward,
    /// Shift eye and target together to the right.
    OrbitRight,
    /// Shift eye and target together to the left.
    OrbitLeft,
    /// Shift eye and target together down the up vector.
    Descend,
    /// Shift eye and target together up the up vector.
    Ascend,
    /// Swing the eye sideways by the horizontal drag offset.
    DragOrbit,
}

/// Input state of the orbit camera: which movement keys are held, whether
/// the right mouse button is held, and whether a drag is being tracked.
#[derive(Clone, Copy, PartialEq, Eq, Structural, Debug)]
pub struct CameraController {
    pub is_up_pressed: bool,
    pub is_modifier_shift_pressed: bool,
    pub is_forward_pressed: bool,
    pub is_backward_pressed: bool,
    pub is_left_pressed: bool,
    pub is_right_pressed: bool,
    pub is_mouse_right_pressed: bool,
    pub is_mouse_right_tracked: bool,
}

/// The controller after `key` changes to `state`, and whether the key is
/// one the controller handles.
pub open spec fn key_event(c: CameraController, state: ElementState, key: VirtualKeyCode) -> (
    CameraController,
    bool,
) {
    let p = state == ElementState::Pressed;
    match key {
        VirtualKeyCode::Space => (CameraController { is_up_pressed: p, ..c }, true),
        VirtualKeyCode::LShift => (CameraController { is_modifier_shift_pressed: p, ..c }, true),
        VirtualKeyCode::W | VirtualKeyCode::Up => (
            CameraController { is_forward_pressed: p, ..c },
            true,
        ),
        VirtualKeyCode::A | VirtualKeyCode::Left => (
            CameraController { is_left_pressed: p, ..c },
            true,
        ),
        VirtualKeyCode::S | VirtualKeyCode::Down => (
            CameraController { is_backward_pressed: p, ..c },
            true,
        ),
        VirtualKeyCode::D | VirtualKeyCode::Right => (
            CameraController { is_right_pressed: p, ..c },
            true,
        ),
        VirtualKeyCode::Other => (c, false),
    }
}

/// The steps of one camera update, in the order they apply.
pub open spec fn planned_moves(c: CameraController) -> Seq<CameraMove> {
    (if c.is_forward_pressed { seq![CameraMove::Forward] } else { seq![] }) + (
    if c.is_backward_pressed {
        seq![CameraMove::Backward]
    } else {
        seq![]
    }) + (if c.is_right_pressed { seq![CameraMove::OrbitRight] } else { seq![] }) + (
    if c.is_left_pressed {
        seq![CameraMove::OrbitLeft]
    } else {
        seq![]
    }) + (if c.is_up_pressed && c.is_modifier_shift_pressed {
        seq![CameraMove::Descend]
    } else {
        seq![]
    }) + (if c.is_up_pressed && !c.is_modifier_shift_pressed {
        seq![CameraMove::Ascend]
    } else {
        seq![]
    }) + (if c.is_mouse_right_tracked { seq![CameraMove::DragOrbit] } else { seq![] })
}

impl CameraController {
    /// A controller with nothing held and no drag in progress.
    pub fn new() -> (r: CameraController)
        ensures
            r == (CameraController {
                is_up_pressed: false,
                is_modifier_shift_pressed: false,
                is_forward_pressed: false,
                is_backward_pressed: false,
                is_left_pressed: false,
                is_right_pressed: false,
                is_mouse_right_pressed: false,
                is_mouse_right_tracked: false,
            }),
    {
        CameraController {
            is_up_pressed: false,
            is_modifier_shift_pressed: false,
            is_forward_pressed: false,
            is_backward_pressed: false,
            is_left_pressed: false,
            is_right_pressed: false,
            is_mouse_right_pressed: false,
            is_mouse_right_tracked: false,
        }
    }

    /// Records a key change: space raises or lowers, left shift modifies
    /// it, WASD and the arrow keys move. Returns whether the key was handled.
    pub fn process_events(&mut self, state: ElementState, virtual_keycode: VirtualKeyCode) -> (r:
        bool)
        ensures
            (*final(self), r) == key_event(*old(self), state, virtual_keycode),
    {
        let is_pressed = state == ElementState::Pressed;
        match virtual_keycode {
            VirtualKeyCode::Space => {
                self.is_up_pressed = is_pressed;
                true
            },
            VirtualKeyCode::LShift => {
                self.is_modifier_shift_pressed = is_pressed;
                true
            },
            VirtualKeyCode::W | VirtualKeyCode::Up => {
                self.is_forward_pressed = is_pressed;
                true
            },
            VirtualKeyCode::A | VirtualKeyCode::Left => {
                self.is_left_pressed = is_pressed;
                true
            },
            VirtualKeyCode::S | VirtualKeyCode::Down => {
                self.is_backward_pressed = is_pressed;
                true
            },
            VirtualKeyCode::D | VirtualKeyCode::Right => {
                self.is_right_pressed = is_pressed;
                true
            },
            VirtualKeyCode::Other => false,
        }
    }

    /// Records a mouse button change; only the right button matters.
    pub fn process_mouse_input(&mut self, state: ElementState, button: MouseButton)
        ensures
            *final(self) == (if button == MouseButton::Right {
                CameraController {
                    is_mouse_right_pressed: state == ElementState::Pressed,
                    ..*old(self)
                }
            } else {
                *old(self)
            }),
    {
        if button == MouseButton::Right {
            self.is_mouse_right_pressed = state == ElementState::Pressed;
        }
    }

    /// Advances the drag state on a cursor movement: a held right button
    /// starts tracking or keeps it going, a released one stops it.
    pub fn process_mouse_moved(&mut self) -> (r: MouseTracking)
        ensures
            r == (if old(self).is_mouse_right_pressed {
                if old(self).is_mouse_right_tracked {
                    MouseTracking::Drag
                } else {
                    MouseTracking::Begin
                }
            } else if old(self).is_mouse_right_tracked {
                MouseTracking::Release
            } else {
                MouseTracking::Idle
            }),
            *final(self) == (CameraController {
                is_mouse_right_tracked: old(self).is_mouse_right_pressed,
                ..*old(self)
            }),
    {
        if self.is_mouse_right_pressed && !self.is_mouse_right_tracked {
            self.is_mouse_right_tracked = true;
            MouseTracking::Begin
        } else if self.is_mouse_right_pressed {
            MouseTracking::Drag
        } else if self.is_mouse_right_tracked {
            self.is_mouse_right_tracked = false;
            MouseTracking::Release
        } else {
            MouseTracking::Idle
        }
    }

    /// The steps that this frame's camera update applies, in order: forward
    /// and back, sideways orbit, vertical shift (down with shift held, up
    /// without), then the drag orbit.
    pub fn update_camera(&self) -> (r: Vec<CameraMove>)
        ensures
            r@ == planned_moves(*self),
    {
        let mut moves: Vec<CameraMove> = Vec::new();
        if self.is_forward_pressed {
            moves.push(CameraMove::Forward);
        }
        if self.is_backward_pressed {
            moves.push(CameraMove::Backward);
        }
        if self.is_right_pressed {
            moves.push(CameraMove::OrbitRight);
        }
        if self.is_left_pressed {
            moves.push(CameraMove::OrbitLeft);
        }
        if self.is_modifier_shift_pressed && self.is_up_pressed {
            moves.push(CameraMove::Descend);
        }
        if !self.is_modifier_shift_pressed && self.is_up_pressed {
            moves.push(CameraMove::Ascend);
        }
        if self.is_mouse_right_tracked {
            moves.push(CameraMove::DragOrbit);
        }
        assert(moves@ =~= planned_moves(*self));
        moves
    }
}

} // verus!
