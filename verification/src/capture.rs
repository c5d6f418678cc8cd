use vstd::prelude::*;

use crate::action::ActionModel;
use crate::history::{push_m, History};
use crate::measure::{CalibrationModel, Measurement, Point2D, RectangleMeasurement};

verus! {

/// The measurement capture state machine: `Idle` until a first click records
/// the start point, then one more click commits a measurement and returns the
/// machine to `Idle`.
#[derive(Clone, Copy, PartialEq, Eq, Structural, Debug)]
pub enum MeasurementState {
    Idle,
    FirstPointSelected(Point2D),
}

/// Which kind of measurement a click commits.
#[derive(Clone, Copy, PartialEq, Eq, Structural, Debug)]
pub enum MeasurementMode {
    Line,
    Rectangle,
}

/// The snapped geometry of a finished two-click capture, computed by the
/// caller from the stored start point, the raw second click, and the active
/// snap settings: either a line's adjusted endpoint with its pixel distance,
/// or a rectangle's adjusted opposite corner with its pixel dimensions.
#[derive(Clone, Copy, PartialEq, Eq, Structural, Debug)]
pub enum SnappedGeometry {
    Line { end: Point2D, distance_px_bits: u32 },
    Rectangle { corner2: Point2D, width_px_bits: u32, height_px_bits: u32, area_px_bits: u32 },
}

/// The log entry that committing `geometry` from `start` emits: a line
/// measurement from `start`, or a rectangle measurement with `start` as its
/// first corner.
pub open spec fn committed_action(start: Point2D, geometry: SnappedGeometry) -> ActionModel {
    match geometry {
        SnappedGeometry::Line { end, distance_px_bits } => ActionModel::AddLine(
            Measurement { start, end, distance_px_bits },
        ),
        SnappedGeometry::Rectangle { corner2, width_px_bits, height_px_bits, area_px_bits } => {
            ActionModel::AddRect(
                RectangleMeasurement {
                    corner1: start,
                    corner2,
                    width_px_bits,
                    height_px_bits,
                    area_px_bits,
                },
            )
        },
    }
}

impl MeasurementState {
    /// A fresh machine, waiting for the first click.
    pub fn new() -> (s: MeasurementState)
        ensures
            s == MeasurementState::Idle,
    {
        MeasurementState::Idle
    }

    /// The stored start point, if a first click has been recorded.
    pub fn first_point(&self) -> (r: Option<Point2D>)
        ensures
            r == (match *self {
                MeasurementState::Idle => None::<Point2D>,
                MeasurementState::FirstPointSelected(start) => Some(start),
            }),
    {
        match self {
            MeasurementState::Idle => None,
            MeasurementState::FirstPointSelected(start) => Some(*start),
        }
    }

    /// A click at image point `p`. From `Idle` it records `p` as the start
    /// point and emits nothing. With a start point already recorded it leaves
    /// the machine unchanged and returns that start point: the caller snaps
    /// the second click against it and then calls [`Self::commit`].
    pub fn on_click(&mut self, p: Point2D) -> (r: Option<Point2D>)
        ensures
            match *old(self) {
                MeasurementState::Idle => *final(self) == MeasurementState::FirstPointSelected(p)
                    && r is None,
                MeasurementState::FirstPointSelected(start) => *final(self) == *old(self) && r
                    == Some(start),
            },
    {
        match self {
            MeasurementState::Idle => {
                *self = MeasurementState::FirstPointSelected(p);
                None
            },
            MeasurementState::FirstPointSelected(start) => Some(*start),
        }
    }

    /// The second click of a capture: appends the measurement built from the
    /// stored start point and the snapped geometry to the history, and
    /// returns to `Idle` unconditionally.
    pub fn commit(&mut self, history: &mut History, geometry: SnappedGeometry)
        requires
            *old(self) is FirstPointSelected,
            old(history).wf(),
        ensures
            *final(self) == MeasurementState::Idle,
            final(history).wf(),
            final(history)@ == push_m(old(history)@, committed_action((*old(self))->0, geometry)),
    {
        let start = match self {
            MeasurementState::FirstPointSelected(start) => *start,
            MeasurementState::Idle => {
                unreached()
            },
        };
        match geometry {
            SnappedGeometry::Line { end, distance_px_bits } => {
                history.push_action(
                    crate::action::Action::AddLine(Measurement::new(start, end, distance_px_bits)),
                );
            },
            SnappedGeometry::Rectangle { corner2, width_px_bits, height_px_bits, area_px_bits } => {
                history.push_action(
                    crate::action::Action::AddRect(
                        RectangleMeasurement::new(
                            start,
                            corner2,
                            width_px_bits,
                            height_px_bits,
                            area_px_bits,
                        ),
                    ),
                );
            },
        }
        *self = MeasurementState::Idle;
    }

    /// An external cancel request: discards any recorded start point.
    pub fn cancel(&mut self)
        ensures
            *final(self) == MeasurementState::Idle,
    {
        *self = MeasurementState::Idle;
    }
}

/// The calibration capture state machine: two clicks select a reference
/// segment, whose snapped endpoints and pixel distance are then held in
/// `WaitingForInput` until the user submits the segment's real-world length,
/// or cancels.
#[derive(Clone, Copy, PartialEq, Eq, Structural, Debug)]
pub enum CalibrationState {
    Idle,
    FirstPointSelected(Point2D),
    WaitingForInput { start: Point2D, end: Point2D, distance_px_bits: u32 },
}

impl CalibrationState {
    /// A fresh machine, waiting for the first click.
    pub fn new() -> (s: CalibrationState)
        ensures
            s == CalibrationState::Idle,
    {
        CalibrationState::Idle
    }

    /// The stored start point, if exactly a first click has been recorded.
    pub fn first_point(&self) -> (r: Option<Point2D>)
        ensures
            r == (match *self {
                CalibrationState::FirstPointSelected(start) => Some(start),
                _ => None::<Point2D>,
            }),
    {
        match self {
            CalibrationState::FirstPointSelected(start) => Some(*start),
            _ => None,
        }
    }

    /// The measured pixel distance of the selected segment, once the machine
    /// is waiting for the real-world length.
    pub fn pending_distance(&self) -> (r: Option<u32>)
        ensures
            r == (match *self {
                CalibrationState::WaitingForInput { distance_px_bits, .. } => Some(
                    distance_px_bits,
                ),
                _ => None::<u32>,
            }),
    {
        match self {
            CalibrationState::WaitingForInput { distance_px_bits, .. } => Some(*distance_px_bits),
            _ => None,
        }
    }

    /// A click at image point `p`. From `Idle` it records `p` as the start
    /// point. With a start point recorded it leaves the machine unchanged and
    /// returns that start point: the caller snaps the second click against it
    /// and then calls [`Self::complete_selection`]. While waiting for input,
    /// clicks are ignored.
    pub fn on_click(&mut self, p: Point2D) -> (r: Option<Point2D>)
        ensures
            match *old(self) {
                CalibrationState::Idle => *final(self) == CalibrationState::FirstPointSelected(p)
                    && r is None,
                CalibrationState::FirstPointSelected(start) => *final(self) == *old(self) && r
                    == Some(start),
                CalibrationState::WaitingForInput { .. } => *final(self) == *old(self)
                    && r is None,
            },
    {
        match self {
            CalibrationState::Idle => {
                *self = CalibrationState::FirstPointSelected(p);
                None
            },
            CalibrationState::FirstPointSelected(start) => Some(*start),
            CalibrationState::WaitingForInput { .. } => None,
        }
    }

    /// The second click of a capture: records the snapped endpoint and the
    /// measured pixel distance, and waits for the real-world length.
    pub fn complete_selection(&mut self, end: Point2D, distance_px_bits: u32)
        requires
            *old(self) is FirstPointSelected,
        ensures
            *final(self) == (CalibrationState::WaitingForInput {
                start: (*old(self))->0,
                end,
                distance_px_bits,
            }),
    {
        let start = match self {
            CalibrationState::FirstPointSelected(start) => *start,
            _ => unreached(),
        };
        *self = CalibrationState::WaitingForInput { start, end, distance_px_bits };
    }

    /// Submission of the real-world length. The caller parses the entered
    /// text and divides the measured pixel distance by it; `pixels_per_unit_bits`
    /// is that scale, or `None` when the text did not parse as a positive
    /// finite number. A valid submission while waiting appends a calibration
    /// entry to the history, returns the machine to `Idle`, and reports
    /// success; anything else changes nothing and reports failure, so the
    /// user may retry.
    pub fn submit(
        &mut self,
        history: &mut History,
        pixels_per_unit_bits: Option<u32>,
        unit_name: String,
    ) -> (r: bool)
        requires
            old(history).wf(),
        ensures
            final(history).wf(),
            r == (*old(self) is WaitingForInput && pixels_per_unit_bits is Some),
            r ==> *final(self) == CalibrationState::Idle && final(history)@ == push_m(
                old(history)@,
                ActionModel::SetCalibration(
                    Some(
                        CalibrationModel {
                            pixels_per_unit_bits: pixels_per_unit_bits->0,
                            unit_name: unit_name@,
                        },
                    ),
                ),
            ),
            !r ==> *final(self) == *old(self) && final(history)@ == old(history)@,
    {
        match self {
            CalibrationState::WaitingForInput { .. } => {
                match pixels_per_unit_bits {
                    Some(bits) => {
                        history.push_action(
                            crate::action::Action::SetCalibration(
                                Some(
                                    crate::measure::Calibration {
                                        pixels_per_unit_bits: bits,
                                        unit_name,
                                    },
                                ),
                            ),
                        );
                        *self = CalibrationState::Idle;
                        true
                    },
                    None => false,
                }
            },
            _ => false,
        }
    }

    /// An external cancel request, such as toggling calibration mode off:
    /// discards any in-progress selection without emitting anything.
    pub fn cancel(&mut self)
        ensures
            *final(self) == CalibrationState::Idle,
    {
        *self = CalibrationState::Idle;
    }
}

} // verus!
