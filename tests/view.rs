use noisefield::cell::{Point, RenderMode};
use noisefield::view::{
    Command, Viewport, LIMIT, START_STEP, START_THRESHOLD, THRESHOLD_STEP, ZOOM_FLOOR, ZOOM_STEP,
};

#[test]
fn new_viewport_defaults() {
    let v = Viewport::new();
    assert_eq!(v.center, Point { x: 0, y: 0 });
    assert_eq!(v.focus, Point { x: 0, y: 0 });
    assert_eq!(v.step, 100_000);
    assert_eq!(v.threshold, 250_000);
    assert_eq!(v.mode, RenderMode::Ascii);
    assert!(v.running);
}

#[test]
fn pan_right_n_times_shifts_origin() {
    let start = Viewport::new();
    let mut v = start;
    let n: i64 = 7;
    for _ in 0..n {
        v.apply_command(Command::PanRight);
    }
    assert_eq!(v.center.x, n * START_STEP);
    let (o0, o1) = (start.world_origin(24, 80), v.world_origin(24, 80));
    assert_eq!(o1.x - o0.x, n * START_STEP);
    assert_eq!(o1.y, o0.y);
    assert_eq!(Viewport { center: start.center, ..v }, start);
}

#[test]
fn pans_move_one_step() {
    let mut v = Viewport::new();
    v.apply_command(Command::PanUp);
    assert_eq!(v.center, Point { x: 0, y: -START_STEP });
    v.apply_command(Command::PanLeft);
    assert_eq!(v.center, Point { x: -START_STEP, y: -START_STEP });
    v.apply_command(Command::PanDown);
    v.apply_command(Command::PanRight);
    assert_eq!(v.center, Point { x: 0, y: 0 });
}

#[test]
fn pan_stops_at_the_bound() {
    let mut v = Viewport::new();
    v.center = Point { x: LIMIT - 1, y: 0 };
    v.apply_command(Command::PanRight);
    assert_eq!(v.center, Point { x: LIMIT - 1, y: 0 });
}

#[test]
fn zoom_in_once() {
    let mut v = Viewport::new();
    v.apply_command(Command::ZoomIn);
    assert_eq!(v.step, START_STEP - ZOOM_STEP);
}

#[test]
fn zoom_in_repeatedly_stays_positive() {
    let mut v = Viewport::new();
    for _ in 0..1000 {
        v.apply_command(Command::ZoomIn);
        assert!(v.step > ZOOM_FLOOR - ZOOM_STEP);
    }
    assert_eq!(v.step, 10_000);
}

#[test]
fn zoom_in_holds_at_small_step() {
    let mut v = Viewport::new();
    v.step = 3;
    v.apply_command(Command::ZoomIn);
    assert_eq!(v.step, 3);
}

#[test]
fn zoom_out_grows_step() {
    let mut v = Viewport::new();
    v.apply_command(Command::ZoomOut);
    assert_eq!(v.step, START_STEP + ZOOM_STEP);
    v.step = LIMIT;
    v.apply_command(Command::ZoomOut);
    assert_eq!(v.step, LIMIT);
}

#[test]
fn threshold_moves_by_its_delta() {
    let mut v = Viewport::new();
    v.apply_command(Command::ThresholdUp);
    assert_eq!(v.threshold, START_THRESHOLD + THRESHOLD_STEP);
    v.apply_command(Command::ThresholdDown);
    v.apply_command(Command::ThresholdDown);
    assert_eq!(v.threshold, START_THRESHOLD - THRESHOLD_STEP);
}

#[test]
fn focus_moves_by_one_step() {
    let mut v = Viewport::new();
    v.apply_command(Command::FocusRight);
    v.apply_command(Command::FocusDown);
    assert_eq!(v.focus, Point { x: START_STEP, y: START_STEP });
    v.apply_command(Command::FocusLeft);
    v.apply_command(Command::FocusUp);
    assert_eq!(v.focus, Point { x: 0, y: 0 });
    assert_eq!(v.center, Point { x: 0, y: 0 });
}

#[test]
fn toggle_switches_tables() {
    let mut v = Viewport::new();
    v.apply_command(Command::ToggleMode);
    assert_eq!(v.mode, RenderMode::Unicode);
    v.apply_command(Command::ToggleMode);
    assert_eq!(v.mode, RenderMode::Ascii);
}

#[test]
fn quit_is_terminal() {
    let mut v = Viewport::new();
    v.apply_command(Command::Quit);
    assert!(!v.running);
    let stopped = v;
    v.apply_command(Command::PanRight);
    v.apply_command(Command::ZoomIn);
    v.apply_command(Command::ToggleMode);
    assert_eq!(v, stopped);
}

#[test]
fn nothing_changes_nothing() {
    let mut v = Viewport::new();
    v.apply_command(Command::Nothing);
    assert_eq!(v, Viewport::new());
}

#[test]
fn world_origin_is_half_the_screen_back() {
    let v = Viewport::new();
    assert_eq!(v.world_origin(10, 20), Point { x: -1_000_000, y: -500_000 });
    assert_eq!(v.world_origin(0, 0), Point { x: 0, y: 0 });
}

#[test]
fn cell_center_steps_from_origin() {
    let v = Viewport::new();
    assert_eq!(v.cell_center(10, 20, 0, 0), Point { x: -1_000_000, y: -500_000 });
    assert_eq!(v.cell_center(10, 20, 2, 3), Point { x: -700_000, y: -300_000 });
}
