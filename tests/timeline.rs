use video_controls::controls::{ControlsVisibility, SLEEP_DELAY_MS};
use video_controls::geometry::{div_floor, pointer_fraction, FRACTION_SCALE};
use video_controls::scrub::{media_time_at, nudge_target, PlaybackState};
use video_controls::zoom::{
    Cursor, DragState, ZoomTimeline, CURSOR_INSET, USABLE_WIDTH, ZOOM_END, ZOOM_MIDDLE, ZOOM_START,
};

#[test]
fn seek_then_read_back_gives_fraction_of_duration() {
    let mut p = PlaybackState::new();
    let t = p.seek_to(250_000, Some(8_000));
    assert_eq!(t, Some(2_000));
    assert_eq!(p.current_time_ms(), Some(2_000));
    let t = p.seek_to(333_333, Some(10_000));
    assert_eq!(t, Some(3_333));
    assert_eq!(p.current_time_ms(), Some(3_333));
    let t = p.seek_to(FRACTION_SCALE, Some(61_000));
    assert_eq!(t, Some(61_000));
}

#[test]
fn seek_without_duration_records_position_only() {
    let mut p = PlaybackState::new();
    assert_eq!(p.seek_to(400_000, None), None);
    assert_eq!(p.fraction, 400_000);
    assert_eq!(p.current_time_ms(), None);
    assert_eq!(p.remaining_fraction(), 600_000);
}

#[test]
fn seek_clamps_fraction_to_timeline() {
    let mut p = PlaybackState::new();
    assert_eq!(p.seek_to(-5, Some(1_000)), Some(0));
    assert_eq!(p.fraction, 0);
    assert_eq!(p.seek_to(FRACTION_SCALE + 7, Some(1_000)), Some(1_000));
    assert_eq!(p.fraction, FRACTION_SCALE);
}

#[test]
fn pointer_fraction_is_linear_and_unclamped() {
    assert_eq!(pointer_fraction(150, 100, 200), 250_000);
    assert_eq!(pointer_fraction(100, 100, 200), 0);
    assert_eq!(pointer_fraction(300, 100, 200), FRACTION_SCALE);
    assert_eq!(pointer_fraction(400, 100, 200), 1_500_000);
    assert_eq!(pointer_fraction(99, 100, 3), -333_334);
}

#[test]
fn div_floor_rounds_down() {
    assert_eq!(div_floor(7, 2), 3);
    assert_eq!(div_floor(-7, 2), -4);
    assert_eq!(div_floor(-6, 2), -3);
    assert_eq!(div_floor(0, 5), 0);
}

#[test]
fn media_time_and_sync() {
    assert_eq!(media_time_at(500_000, 9_001), 4_500);
    let mut p = PlaybackState::new();
    p.sync_time(2_500, 10_000);
    assert_eq!(p.fraction, 250_000);
    assert_eq!(p.duration_ms, Some(10_000));
    p.sync_time(20_000, 10_000);
    assert_eq!(p.fraction, FRACTION_SCALE);
    p.sync_time(5, 0);
    assert_eq!(p.fraction, FRACTION_SCALE);
}

#[test]
fn nudge_is_held_within_clip() {
    assert_eq!(nudge_target(10_000, 5_000, Some(60_000)), 15_000);
    assert_eq!(nudge_target(10_000, -30_000, Some(60_000)), 0);
    assert_eq!(nudge_target(50_000, 30_000, Some(60_000)), 60_000);
    assert_eq!(nudge_target(50_000, 30_000, None), 80_000);
}

#[test]
fn zoom_midpoint_after_dragging_cursors() {
    let mut z = ZoomTimeline::new();
    z.grab(Cursor::Left);
    z.pointer_move(20_000);
    z.pointer_up();
    z.grab(Cursor::Right);
    z.pointer_move(50_000);
    z.pointer_up();
    assert_eq!(z.window.left, 20_000);
    assert_eq!(z.window.right, 50_000);
    // window from 15/90 to 45/90 of the clip; its middle is 30/90
    assert_eq!(z.zoom_seek_fraction(ZOOM_MIDDLE as i32), 333_333);
    assert_eq!(z.zoom_seek_fraction(ZOOM_START as i32), 166_666);
    assert_eq!(z.zoom_seek_fraction(ZOOM_END as i32), 500_000);
}

#[test]
fn default_window_covers_most_of_the_clip() {
    let z = ZoomTimeline::new();
    assert_eq!(z.zoom_seek_fraction(ZOOM_START as i32), 0);
    assert_eq!(z.zoom_seek_fraction(ZOOM_MIDDLE as i32), 472_222);
    assert_eq!(z.zoom_seek_fraction(ZOOM_END as i32), 944_444);
}

#[test]
fn full_window_matches_primary_scrubber() {
    let mut z = ZoomTimeline::new();
    z.grab(Cursor::Right);
    z.pointer_move((CURSOR_INSET + USABLE_WIDTH) as i32);
    z.pointer_up();
    for x in [ZOOM_START, 20_000, ZOOM_MIDDLE, 61_234, ZOOM_END, 99_000] {
        let primary = pointer_fraction(x as i32, ZOOM_START as i32, (ZOOM_END - ZOOM_START) as i32);
        assert_eq!(z.zoom_seek_fraction(x as i32), primary);
    }
}

#[test]
fn left_drag_moves_left_cursor_only() {
    let mut z = ZoomTimeline::new();
    z.grab(Cursor::Left);
    assert_eq!(z.drag, DragState::DraggingLeft);
    for x in [10_000, 30_000, 2_000] {
        z.pointer_move(x);
        assert_eq!(z.window.left, x as i64);
        assert_eq!(z.window.right, 90_000);
    }
    z.pointer_leave();
    assert_eq!(z.drag, DragState::Idle);
    z.pointer_move(40_000);
    assert_eq!(z.window.left, 2_000);
    assert_eq!(z.window.right, 90_000);
}

#[test]
fn cursors_never_cross_or_leave_surface() {
    let mut z = ZoomTimeline::new();
    z.grab(Cursor::Left);
    z.pointer_move(95_000);
    assert_eq!(z.window.left, 89_999);
    z.pointer_move(-3);
    assert_eq!(z.window.left, 0);
    z.pointer_up();
    z.grab(Cursor::Right);
    z.pointer_move(-100);
    assert_eq!(z.window.right, 1);
    z.pointer_move(150_000);
    assert_eq!(z.window.right, 100_000);
}

#[test]
fn grab_while_dragging_keeps_held_cursor() {
    let mut z = ZoomTimeline::new();
    z.grab(Cursor::Right);
    z.grab(Cursor::Left);
    assert_eq!(z.drag, DragState::DraggingRight);
    z.pointer_move(70_000);
    assert_eq!(z.window.right, 70_000);
    assert_eq!(z.window.left, 5_000);
}

#[test]
fn controls_hide_after_idle_delay() {
    let mut c = ControlsVisibility::new(0);
    assert_eq!(c.opacity(), 0);
    assert_eq!(c.wake(0), SLEEP_DELAY_MS);
    assert_eq!(c.opacity(), 1);
    c.sleep_check(1_500);
    assert_eq!(c.opacity(), 0);
}

#[test]
fn later_wake_defers_hiding() {
    let mut c = ControlsVisibility::new(0);
    c.wake(0);
    c.wake(1_000);
    c.sleep_check(1_500);
    assert_eq!(c.opacity(), 1);
    c.sleep_check(2_500);
    assert_eq!(c.opacity(), 0);
}

#[test]
fn check_within_margin_keeps_controls() {
    let mut c = ControlsVisibility::new(0);
    c.wake(1_000);
    c.sleep_check(2_300);
    assert!(c.visible);
    c.sleep_check(2_301);
    assert!(!c.visible);
}

#[test]
fn extreme_inputs_stay_exact() {
    assert_eq!(
        pointer_fraction(i32::MAX, i32::MIN, 1),
        (u32::MAX as i64) * FRACTION_SCALE
    );
    assert_eq!(
        pointer_fraction(i32::MIN, i32::MAX, 1),
        -(u32::MAX as i64) * FRACTION_SCALE
    );
    assert_eq!(nudge_target(u64::MAX, i64::MAX, None), u64::MAX);
    assert_eq!(nudge_target(0, i64::MIN, None), 0);
    assert_eq!(media_time_at(FRACTION_SCALE, u64::MAX), u64::MAX);
    let z = ZoomTimeline::new();
    // (0 * 75_000 + 85_000 * (i32::MAX - 12_500)) * 10^6 / (90_000 * 75_000), rounded down
    let expected = div_floor(85_000i128 * (i32::MAX as i128 - 12_500) * 1_000_000, 6_750_000_000);
    assert_eq!(z.zoom_seek_fraction(i32::MAX) as i128, expected);
    assert_eq!(expected, 27_042_229_258);
}
