use scene_renderer::{
    CameraController, CameraMove, ElementState, MouseButton, MouseTracking, VirtualKeyCode,
};

#[test]
fn movement_keys_set_flags() {
    let mut c = CameraController::new();
    assert!(c.process_events(ElementState::Pressed, VirtualKeyCode::W));
    assert!(c.is_forward_pressed);
    assert!(c.process_events(ElementState::Pressed, VirtualKeyCode::Left));
    assert!(c.is_left_pressed);
    assert!(c.process_events(ElementState::Pressed, VirtualKeyCode::Space));
    assert!(c.is_up_pressed);
    assert!(c.process_events(ElementState::Pressed, VirtualKeyCode::LShift));
    assert!(c.is_modifier_shift_pressed);
    assert!(c.process_events(ElementState::Released, VirtualKeyCode::Up));
    assert!(!c.is_forward_pressed);
    assert!(c.process_events(ElementState::Pressed, VirtualKeyCode::S));
    assert!(c.is_backward_pressed);
    assert!(c.process_events(ElementState::Pressed, VirtualKeyCode::D));
    assert!(c.is_right_pressed);
}

#[test]
fn other_keys_are_not_handled() {
    let mut c = CameraController::new();
    assert!(!c.process_events(ElementState::Pressed, VirtualKeyCode::Other));
    assert_eq!(c, CameraController::new());
}

#[test]
fn right_drag_is_tracked() {
    let mut c = CameraController::new();
    assert_eq!(c.process_mouse_moved(), MouseTracking::Idle);
    c.process_mouse_input(ElementState::Pressed, MouseButton::Left);
    assert!(!c.is_mouse_right_pressed);
    c.process_mouse_input(ElementState::Pressed, MouseButton::Right);
    assert_eq!(c.process_mouse_moved(), MouseTracking::Begin);
    assert!(c.is_mouse_right_tracked);
    assert_eq!(c.process_mouse_moved(), MouseTracking::Drag);
    c.process_mouse_input(ElementState::Released, MouseButton::Right);
    assert_eq!(c.process_mouse_moved(), MouseTracking::Release);
    assert!(!c.is_mouse_right_tracked);
    assert_eq!(c.process_mouse_moved(), MouseTracking::Idle);
}

#[test]
fn update_orders_camera_moves() {
    let mut c = CameraController::new();
    assert!(c.update_camera().is_empty());
    c.process_events(ElementState::Pressed, VirtualKeyCode::Space);
    c.process_events(ElementState::Pressed, VirtualKeyCode::D);
    c.process_events(ElementState::Pressed, VirtualKeyCode::W);
    assert_eq!(
        c.update_camera(),
        vec![CameraMove::Forward, CameraMove::OrbitRight, CameraMove::Ascend]
    );
    c.process_events(ElementState::Pressed, VirtualKeyCode::LShift);
    c.process_mouse_input(ElementState::Pressed, MouseButton::Right);
    c.process_mouse_moved();
    assert_eq!(
        c.update_camera(),
        vec![CameraMove::Forward, CameraMove::OrbitRight, CameraMove::Descend, CameraMove::DragOrbit]
    );
}
