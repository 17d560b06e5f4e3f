use cube_viewer::{
    cube_indices, frame_passes, on_present_error, sky_indices, FrameAction, LoadPolicy, PassKind, PassPlan,
    PresentError, Viewport, CUBE_INDEX_COUNT, SKY_INDEX_COUNT,
};

#[test]
fn cube_indices_match_faces() {
    let expected: Vec<u16> = vec![
        0, 1, 2, 0, 2, 3,
        7, 6, 4, 6, 5, 4,
        8, 9, 10, 8, 10, 11,
        15, 14, 12, 14, 13, 12,
        16, 17, 18, 16, 18, 19,
        23, 22, 20, 22, 21, 20,
    ];
    assert_eq!(cube_indices(), expected);
    assert_eq!(cube_indices().len() as u32, CUBE_INDEX_COUNT);
}

#[test]
fn sky_indices_form_one_quad() {
    assert_eq!(sky_indices(), vec![0u16, 1, 2, 0, 2, 3]);
    assert_eq!(sky_indices().len() as u32, SKY_INDEX_COUNT);
}

#[test]
fn sky_pass_then_cube_pass() {
    let passes = frame_passes();
    assert_eq!(
        passes,
        vec![
            PassPlan { kind: PassKind::Sky, load: LoadPolicy::Clear, index_count: 6 },
            PassPlan { kind: PassKind::Cube, load: LoadPolicy::Load, index_count: 36 },
        ]
    );
}

#[test]
fn lost_or_outdated_surface_is_reconfigured_at_given_size() {
    let vp = Viewport::new(320, 200);
    assert_eq!(on_present_error(PresentError::Lost, vp), FrameAction::Reconfigure(Viewport { width: 320, height: 200 }));
    assert_eq!(on_present_error(PresentError::Outdated, vp), FrameAction::Reconfigure(Viewport { width: 320, height: 200 }));
    assert_eq!(on_present_error(PresentError::Timeout, vp), FrameAction::Skip);
    assert_eq!(on_present_error(PresentError::Lost, Viewport::new(320, 0)), FrameAction::Skip);
}

#[test]
fn viewport_center_and_drawable() {
    let vp = Viewport::new(1600, 900);
    assert_eq!(vp.center(), (800, 450));
    assert!(vp.drawable());
    assert!(!Viewport::new(0, 900).drawable());
    assert!(!Viewport::new(1600, 0).drawable());
}
