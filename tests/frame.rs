use scene_renderer::{recover, FrameAction, FrameCounter, SurfaceError};

#[test]
fn surface_errors_map_to_recoveries() {
    assert_eq!(recover(SurfaceError::Lost), FrameAction::Reconfigure);
    assert_eq!(recover(SurfaceError::Outdated), FrameAction::Reconfigure);
    assert_eq!(recover(SurfaceError::Timeout), FrameAction::Skip);
    assert_eq!(recover(SurfaceError::OutOfMemory), FrameAction::Exit);
}

#[test]
fn frame_counter_reports_when_time_advances() {
    let mut counter = FrameCounter::new(0);
    assert_eq!(counter.calculate_frames(0), None);
    assert_eq!(counter.calculate_frames(0), None);
    assert_eq!(counter.calculate_frames(1), Some(3));
    assert_eq!(counter.frame_count, 0);
    assert_eq!(counter.last_update, 1);
    assert_eq!(counter.calculate_frames(5), Some(1));
}
