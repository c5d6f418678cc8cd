use sampo::capture::{CalibrationState, MeasurementState, SnappedGeometry};
use sampo::history::History;
use sampo::measure::Point2D;

fn point(x: f32, y: f32) -> Point2D {
    Point2D { x_bits: x.to_bits(), y_bits: y.to_bits() }
}

fn distance(a: Point2D, b: Point2D) -> f32 {
    let dx = f32::from_bits(b.x_bits) - f32::from_bits(a.x_bits);
    let dy = f32::from_bits(b.y_bits) - f32::from_bits(a.y_bits);
    (dx * dx + dy * dy).sqrt()
}

/// Two clicks commit a line measurement and return the machine to idle.
#[test]
fn test_line_capture_flow() {
    let mut state = MeasurementState::new();
    let mut history = History::new();
    assert!(state.first_point().is_none());

    let start = point(100.0, 100.0);
    let end = point(200.0, 150.0);

    assert!(state.on_click(start).is_none(), "the first click only records the start");
    assert_eq!(state.first_point(), Some(start));

    let pending = state.on_click(end);
    assert_eq!(pending, Some(start), "the second click hands the start back for snapping");

    let d = distance(start, end);
    state.commit(
        &mut history,
        SnappedGeometry::Line { end, distance_px_bits: d.to_bits() },
    );
    assert!(state.first_point().is_none(), "committing returns the machine to idle");

    let (measurements, rects, _) = history.rebuild_state();
    assert_eq!(measurements.len(), 1);
    assert_eq!(rects.len(), 0);
    assert_eq!(measurements[0].start, start);
    assert_eq!(measurements[0].end, end);
    assert!((f32::from_bits(measurements[0].distance_px_bits) - 111.80).abs() < 0.01);
}

/// Committing rectangle geometry emits a rectangle record whose first corner
/// is the stored start point, with the corners kept in click order.
#[test]
fn test_rectangle_capture_flow() {
    let mut state = MeasurementState::new();
    let mut history = History::new();

    let corner1 = point(200.0, 150.0);
    let corner2 = point(100.0, 100.0);
    assert!(state.on_click(corner1).is_none());
    assert_eq!(state.on_click(corner2), Some(corner1));

    let width = (100.0_f32 - 200.0).abs();
    let height = (100.0_f32 - 150.0).abs();
    state.commit(
        &mut history,
        SnappedGeometry::Rectangle {
            corner2,
            width_px_bits: width.to_bits(),
            height_px_bits: height.to_bits(),
            area_px_bits: (width * height).to_bits(),
        },
    );

    let (measurements, rects, _) = history.rebuild_state();
    assert_eq!(measurements.len(), 0);
    assert_eq!(rects.len(), 1);
    assert_eq!(rects[0].corner1, corner1, "corners stay in click order");
    assert_eq!(rects[0].corner2, corner2);
    assert_eq!(f32::from_bits(rects[0].width_px_bits), 100.0);
    assert_eq!(f32::from_bits(rects[0].height_px_bits), 50.0);
    assert_eq!(f32::from_bits(rects[0].area_px_bits), 5000.0);
}

/// Cancelling discards the recorded start point without emitting anything.
#[test]
fn test_measurement_cancel() {
    let mut state = MeasurementState::new();
    state.on_click(point(100.0, 100.0));
    assert!(state.first_point().is_some());
    state.cancel();
    assert!(state.first_point().is_none());
    assert!(state.on_click(point(5.0, 5.0)).is_none(), "the next click starts afresh");
}

/// The calibration machine walks idle -> first point -> waiting, ignores
/// clicks while waiting, rejects an invalid submission without losing the
/// selection, and commits a valid one.
#[test]
fn test_calibration_capture_flow() {
    let mut state = CalibrationState::new();
    let mut history = History::new();

    let start = point(100.0, 100.0);
    let end = point(200.0, 100.0);

    assert!(state.on_click(start).is_none());
    assert_eq!(state.first_point(), Some(start));
    assert_eq!(state.on_click(end), Some(start));

    let d = distance(start, end);
    state.complete_selection(end, d.to_bits());
    assert_eq!(state.pending_distance(), Some(d.to_bits()));
    assert!(state.first_point().is_none());

    assert!(
        state.on_click(point(1.0, 2.0)).is_none(),
        "clicks are ignored while waiting for input"
    );
    assert_eq!(state.pending_distance(), Some(d.to_bits()));

    // The entered text "0" is not a positive distance: the caller passes None
    // and the machine stays put so the user can retry.
    assert!(!state.submit(&mut history, None, "mm".to_string()));
    assert_eq!(state.pending_distance(), Some(d.to_bits()));
    let (_, _, cal) = history.rebuild_state();
    assert!(cal.is_none(), "a rejected submission emits nothing");

    // The entered text "50" parses: pixels per unit = 100 px / 50 mm = 2.
    let pixels_per_unit = d / 50.0;
    assert!(state.submit(&mut history, Some(pixels_per_unit.to_bits()), "mm".to_string()));
    assert_eq!(state.pending_distance(), None, "a valid submission returns to idle");

    let (_, _, cal) = history.rebuild_state();
    let cal = cal.expect("calibration should be set");
    assert_eq!(f32::from_bits(cal.pixels_per_unit_bits), 2.0);
    assert_eq!(cal.unit_name, "mm");
}

/// Submitting anywhere but the waiting state fails and emits nothing.
#[test]
fn test_calibration_submit_requires_waiting() {
    let mut state = CalibrationState::new();
    let mut history = History::new();
    assert!(!state.submit(&mut history, Some(2.0_f32.to_bits()), "mm".to_string()));
    state.on_click(point(0.0, 0.0));
    assert!(!state.submit(&mut history, Some(2.0_f32.to_bits()), "mm".to_string()));
    let (_, _, cal) = history.rebuild_state();
    assert!(cal.is_none());
    assert_eq!(state.first_point(), Some(point(0.0, 0.0)), "the selection is untouched");
}

/// Toggling calibration mode off cancels any in-progress selection.
#[test]
fn test_calibration_cancel() {
    let mut state = CalibrationState::new();
    state.on_click(point(100.0, 100.0));
    state.cancel();
    assert!(state.first_point().is_none());

    state.on_click(point(100.0, 100.0));
    state.on_click(point(200.0, 100.0));
    state.complete_selection(point(200.0, 100.0), 100.0_f32.to_bits());
    state.cancel();
    assert_eq!(state.pending_distance(), None);
}
