use cube_viewer::{key_for_scancode, MoveAxes, MoveKey, MovementKeys};

#[test]
fn scancodes_map_to_movement_keys() {
    assert_eq!(key_for_scancode(57), Some(MoveKey::Up));
    assert_eq!(key_for_scancode(42), Some(MoveKey::Down));
    assert_eq!(key_for_scancode(17), Some(MoveKey::Forward));
    assert_eq!(key_for_scancode(30), Some(MoveKey::Left));
    assert_eq!(key_for_scancode(31), Some(MoveKey::Backward));
    assert_eq!(key_for_scancode(32), Some(MoveKey::Right));
    assert_eq!(key_for_scancode(1), None);
    assert_eq!(key_for_scancode(0), None);
    assert_eq!(key_for_scancode(u32::MAX), None);
}

#[test]
fn movement_key_press_and_release_are_consumed() {
    let mut keys = MovementKeys::new();
    assert!(keys.process_key(17, true));
    assert!(keys.forward);
    assert!(keys.held(MoveKey::Forward));
    assert!(!keys.held(MoveKey::Backward));
    assert!(keys.process_key(17, false));
    assert_eq!(keys, MovementKeys::new());
}

#[test]
fn unknown_key_is_not_consumed() {
    let mut keys = MovementKeys::new();
    keys.set_key(MoveKey::Left, true);
    let before = keys;
    assert!(!keys.process_key(1, true));
    assert!(!keys.process_key(44, false));
    assert_eq!(keys, before);
}

#[test]
fn forward_key_moves_along_forward_axis() {
    let mut keys = MovementKeys::new();
    keys.process_key(17, true);
    assert_eq!(keys.movement(), Some(MoveAxes { forward: 1, right: 0, up: 0 }));
}

#[test]
fn each_key_gives_its_axis() {
    let cases = [
        (57u32, MoveAxes { forward: 0, right: 0, up: 1 }),
        (42, MoveAxes { forward: 0, right: 0, up: -1 }),
        (17, MoveAxes { forward: 1, right: 0, up: 0 }),
        (31, MoveAxes { forward: -1, right: 0, up: 0 }),
        (32, MoveAxes { forward: 0, right: 1, up: 0 }),
        (30, MoveAxes { forward: 0, right: -1, up: 0 }),
    ];
    for (code, axes) in cases {
        let mut keys = MovementKeys::new();
        keys.process_key(code, true);
        assert_eq!(keys.axes(), axes);
        assert_eq!(keys.movement(), Some(axes));
    }
}

#[test]
fn opposite_keys_cancel() {
    let mut keys = MovementKeys::new();
    keys.process_key(17, true);
    keys.process_key(31, true);
    assert_eq!(keys.axes(), MoveAxes { forward: 0, right: 0, up: 0 });
    assert_eq!(keys.movement(), None);
}

#[test]
fn all_six_keys_cancel() {
    let mut keys = MovementKeys::new();
    for code in [57u32, 42, 17, 30, 31, 32] {
        assert!(keys.process_key(code, true));
    }
    assert_eq!(keys.movement(), None);
}

#[test]
fn no_keys_no_movement() {
    assert_eq!(MovementKeys::new().movement(), None);
}

#[test]
fn diagonal_keeps_both_axes() {
    let mut keys = MovementKeys::new();
    keys.process_key(17, true);
    keys.process_key(30, true);
    keys.process_key(57, true);
    assert_eq!(keys.movement(), Some(MoveAxes { forward: 1, right: -1, up: 1 }));
}

#[test]
fn partly_cancelled_keys_keep_the_rest() {
    let mut keys = MovementKeys::new();
    keys.process_key(30, true);
    keys.process_key(32, true);
    keys.process_key(42, true);
    assert_eq!(keys.movement(), Some(MoveAxes { forward: 0, right: 0, up: -1 }));
}
