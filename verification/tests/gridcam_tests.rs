use gridcam::camera::moved;
use gridcam::camera::turned;
use gridcam::camera::CameraState;
use gridcam::camera::InputSnapshot;
use gridcam::camera::Orientation;
use gridcam::camera::WorldBounds;
use gridcam::camera::PITCH_LIMIT;
use gridcam::grid::Axis;
use gridcam::grid::Grid;
use gridcam::grid::GridError;
use gridcam::grid::LineSpec;
use gridcam::landmark::tint_for;
use gridcam::landmark::Tint;
use gridcam::landmark::ACTION_RADIUS;
use gridcam::report::two_decimals;
use gridcam::report::ReportTimer;
use gridcam::units::Vec3;
use gridcam::units::SCALE;

fn no_keys() -> InputSnapshot {
    InputSnapshot {
        yaw_left: false,
        yaw_right: false,
        pitch_up: false,
        pitch_down: false,
        strafe_left: false,
        strafe_right: false,
        move_forward: false,
        move_back: false,
    }
}

fn demo_grid() -> Grid {
    Grid::new(100, 1000, 10, 10).unwrap()
}

fn level_orientation() -> Orientation {
    Orientation { yaw: 0, pitch: 0, roll: 0 }
}

fn axes_level() -> (Vec3, Vec3) {
    // Yaw zero, pitch flattened: right points along +x, forward along -z.
    (Vec3 { x: SCALE, y: 0, z: 0 }, Vec3 { x: 0, y: 0, z: -SCALE })
}

#[test]
fn grid_example_offsets_and_lengths() {
    let lines = demo_grid().lines();
    let x_offsets: Vec<i64> =
        lines.iter().filter(|l| l.axis == Axis::X).map(|l| l.x).collect();
    let z_offsets: Vec<i64> =
        lines.iter().filter(|l| l.axis == Axis::Z).map(|l| l.z).collect();
    assert!(x_offsets.contains(&0));
    assert!(x_offsets.contains(&50));
    assert!(x_offsets.contains(&-50));
    assert!(z_offsets.contains(&500));
    assert!(z_offsets.contains(&-500));
    for l in &lines {
        match l.axis {
            Axis::X => assert_eq!(l.length, 1001),
            Axis::Z => assert_eq!(l.length, 101),
        }
    }
    assert_eq!(x_offsets.len(), 11);
    assert_eq!(z_offsets.len(), 101);
}

#[test]
fn grid_lines_lie_on_their_axis() {
    for l in demo_grid().lines() {
        assert_eq!(l.y, 0);
        match l.axis {
            Axis::X => assert_eq!((l.z, l.length), (0, 1001)),
            Axis::Z => assert_eq!((l.x, l.length), (0, 101)),
        }
    }
}

#[test]
fn grid_offsets_symmetric_about_zero() {
    let lines = demo_grid().lines();
    let x_offsets: Vec<i64> =
        lines.iter().filter(|l| l.axis == Axis::X).map(|l| l.x).collect();
    for o in &x_offsets {
        assert!(x_offsets.contains(&-o));
    }
    let z_offsets: Vec<i64> =
        lines.iter().filter(|l| l.axis == Axis::Z).map(|l| l.z).collect();
    for o in &z_offsets {
        assert!(z_offsets.contains(&-o));
    }
}

#[test]
fn grid_generation_is_idempotent() {
    let g = demo_grid();
    let first: Vec<LineSpec> = g.lines();
    let second: Vec<LineSpec> = g.lines();
    assert_eq!(first, second);
}

#[test]
fn grid_rejects_bad_intervals() {
    assert_eq!(Grid::new(100, 100, 0, 10), Err(GridError::IntervalOutOfRange));
    assert_eq!(Grid::new(100, 100, 10, -3), Err(GridError::IntervalOutOfRange));
}

#[test]
fn grid_rejects_bad_sizes() {
    assert_eq!(Grid::new(-1, 100, 10, 10), Err(GridError::SizeOutOfRange));
    assert_eq!(Grid::new(100, -100, 10, 10), Err(GridError::SizeOutOfRange));
}

#[test]
fn pitch_never_exceeds_limit() {
    let mut o = level_orientation();
    let keys = InputSnapshot { pitch_up: true, ..no_keys() };
    for _ in 0..5 {
        o = turned(&o, &keys, SCALE);
        assert!(o.pitch <= PITCH_LIMIT);
    }
    assert_eq!(o.pitch, PITCH_LIMIT);
}

#[test]
fn pitch_never_drops_below_negative_limit() {
    let mut o = level_orientation();
    let keys = InputSnapshot { pitch_down: true, ..no_keys() };
    for _ in 0..5 {
        o = turned(&o, &keys, SCALE);
        assert!(o.pitch >= -PITCH_LIMIT);
    }
    assert_eq!(o.pitch, -PITCH_LIMIT);
}

#[test]
fn turning_is_frame_rate_independent() {
    let keys = InputSnapshot { yaw_left: true, pitch_up: true, ..no_keys() };
    let one_step = turned(&level_orientation(), &keys, SCALE);
    let mut many = level_orientation();
    for _ in 0..10 {
        many = turned(&many, &keys, SCALE / 10);
    }
    assert_eq!(one_step, many);
}

#[test]
fn opposing_rotation_keys_cancel() {
    let keys = InputSnapshot {
        yaw_left: true,
        yaw_right: true,
        pitch_up: true,
        pitch_down: true,
        ..no_keys()
    };
    let o = Orientation { yaw: 7, pitch: 11, roll: 13 };
    assert_eq!(turned(&o, &keys, SCALE), o);
}

#[test]
fn roll_passes_through_unchanged() {
    let keys = InputSnapshot { yaw_left: true, ..no_keys() };
    let o = Orientation { yaw: 0, pitch: 0, roll: 123_456 };
    assert_eq!(turned(&o, &keys, SCALE).roll, 123_456);
}

#[test]
fn forward_walk_moves_one_unit() {
    // Camera at (0, 20, 0), yaw zero, move-forward held for one
    // second: the flattened forward (0, 0, -1) takes it to (0, 20, -1).
    let (right, forward) = axes_level();
    let bounds = WorldBounds::from_grid(&demo_grid());
    let keys = InputSnapshot { move_forward: true, ..no_keys() };
    let p = Vec3 { x: 0, y: 20 * SCALE, z: 0 };
    let q = moved(&p, &keys, SCALE, &right, &forward, &bounds);
    assert_eq!(q, Vec3 { x: 0, y: 20 * SCALE, z: -SCALE });
}

#[test]
fn position_converges_to_bound_and_stays() {
    let (right, forward) = axes_level();
    let bounds = WorldBounds::from_grid(&demo_grid());
    assert_eq!(bounds.half_x, 50 * SCALE);
    let keys = InputSnapshot { strafe_right: true, ..no_keys() };
    let mut p = Vec3 { x: 44 * SCALE + 1, y: 20 * SCALE, z: 0 };
    for _ in 0..20 {
        p = moved(&p, &keys, SCALE, &right, &forward, &bounds);
        assert!(p.x <= bounds.half_x);
    }
    assert_eq!(p.x, bounds.half_x);
}

#[test]
fn position_converges_along_z() {
    let (right, forward) = axes_level();
    let bounds = WorldBounds::from_grid(&demo_grid());
    let keys = InputSnapshot { move_back: true, ..no_keys() };
    let mut p = Vec3 { x: 0, y: 20 * SCALE, z: 497 * SCALE };
    for _ in 0..8 {
        p = moved(&p, &keys, SCALE, &right, &forward, &bounds);
        assert!(p.z <= bounds.half_z);
    }
    assert_eq!(p.z, bounds.half_z);
}

#[test]
fn altitude_never_changes() {
    let (right, forward) = axes_level();
    let bounds = WorldBounds::from_grid(&demo_grid());
    let p = Vec3 { x: 3 * SCALE, y: 20 * SCALE, z: -2 * SCALE };
    for bits in 0..16u32 {
        let keys = InputSnapshot {
            strafe_left: bits & 1 != 0,
            strafe_right: bits & 2 != 0,
            move_forward: bits & 4 != 0,
            move_back: bits & 8 != 0,
            ..no_keys()
        };
        let q = moved(&p, &keys, SCALE, &right, &forward, &bounds);
        assert_eq!(q.y, p.y);
    }
}

#[test]
fn opposing_movement_keys_cancel() {
    let (right, forward) = axes_level();
    let bounds = WorldBounds::from_grid(&demo_grid());
    let keys = InputSnapshot {
        strafe_left: true,
        strafe_right: true,
        move_forward: true,
        move_back: true,
        ..no_keys()
    };
    let p = Vec3 { x: 3 * SCALE, y: 20 * SCALE, z: -2 * SCALE };
    assert_eq!(moved(&p, &keys, SCALE, &right, &forward, &bounds), p);
}

#[test]
fn pitched_camera_still_walks_level() {
    // A forward vector with a vertical component: flattening ignores
    // it, so only x and z move and the pace along z is unchanged.
    let bounds = WorldBounds::from_grid(&demo_grid());
    let keys = InputSnapshot { move_forward: true, ..no_keys() };
    let right = Vec3 { x: SCALE, y: 0, z: 0 };
    let tilted_forward = Vec3 { x: 0, y: -700_000, z: -700_000 };
    let p = Vec3 { x: 0, y: 20 * SCALE, z: 0 };
    let q = moved(&p, &keys, SCALE, &right, &tilted_forward, &bounds);
    assert_eq!(q, Vec3 { x: 0, y: 20 * SCALE, z: -700_000 });
}

#[test]
fn camera_state_update_writes_both_parts() {
    let (right, forward) = axes_level();
    let bounds = WorldBounds::from_grid(&demo_grid());
    let mut cam = CameraState::new(Vec3 { x: 0, y: 20 * SCALE, z: 0 }, 0, 0, 0);
    let keys = InputSnapshot { move_forward: true, pitch_up: true, ..no_keys() };
    cam.update(&keys, SCALE / 2, &right, &forward, &bounds);
    assert_eq!(cam.orientation.pitch, SCALE / 2);
    assert_eq!(cam.position, Vec3 { x: 0, y: 20 * SCALE, z: -SCALE / 2 });
}

#[test]
fn camera_state_new_clamps_pitch() {
    let cam = CameraState::new(Vec3 { x: 0, y: 0, z: 0 }, 5, 99 * SCALE, -7);
    assert_eq!(cam.orientation.pitch, PITCH_LIMIT);
    assert_eq!(cam.orientation.yaw, 5);
    assert_eq!(cam.orientation.roll, -7);
}

#[test]
fn landmark_highlights_inside_radius() {
    let landmark = gridcam::landmark::landmark_position();
    let near = Vec3 { x: 0, y: 20 * SCALE, z: 10 * SCALE };
    assert_eq!(tint_for(&near, &landmark, ACTION_RADIUS), Tint::Highlighted);
}

#[test]
fn landmark_normal_outside_radius() {
    let landmark = gridcam::landmark::landmark_position();
    let far = Vec3 { x: 40 * SCALE, y: 20 * SCALE, z: 0 };
    assert_eq!(tint_for(&far, &landmark, ACTION_RADIUS), Tint::Normal);
    // Exactly on the radius is not highlighted: the test is strict.
    let edge = Vec3 { x: 0, y: 10 * SCALE, z: 30 * SCALE };
    assert_eq!(tint_for(&edge, &landmark, ACTION_RADIUS), Tint::Normal);
}

#[test]
fn tint_colours() {
    assert_eq!(Tint::Highlighted.rgb(), (255, 0, 0));
    assert_eq!(Tint::Normal.rgb(), (0, 0, 255));
}

#[test]
fn report_timer_fires_each_tenth_second() {
    let mut t = ReportTimer::new();
    assert!(!t.tick(60_000));
    assert!(t.tick(60_000));
    assert_eq!(t.elapsed, 20_000);
    assert!(t.tick(380_000));
    assert_eq!(t.elapsed, 0);
}

#[test]
fn two_decimals_rounds_half_away_from_zero() {
    let d = two_decimals(12_345_678);
    assert!(!d.negative);
    assert_eq!((d.whole, d.hundredths), (12, 35));
    let e = two_decimals(-1_994_999);
    assert!(e.negative);
    assert_eq!((e.whole, e.hundredths), (1, 99));
    let f = two_decimals(-1_995_000);
    assert_eq!((f.negative, f.whole, f.hundredths), (true, 2, 0));
    let z = two_decimals(0);
    assert_eq!((z.negative, z.whole, z.hundredths), (false, 0, 0));
}
