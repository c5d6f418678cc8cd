use vstd::prelude::*;

verus! {

/// An image-space coordinate: a point in the pixel grid of the loaded raster
/// image, independent of on-screen zoom and scroll. Each component holds the
/// IEEE 754 bit pattern of the single-precision value computed by the user
/// interface; the core carries coordinates through unchanged and never does
/// arithmetic on them.
#[derive(Clone, Copy, PartialEq, Eq, Structural, Debug)]
pub struct Point2D {
    pub x_bits: u32,
    pub y_bits: u32,
}

/// A committed line measurement: two endpoints and the Euclidean distance
/// between them in pixels. The distance is derived once, at creation, from
/// the endpoints, and is cached here; it is never recomputed from the stored
/// endpoints.
#[derive(Clone, Copy, PartialEq, Eq, Structural, Debug)]
pub struct Measurement {
    pub start: Point2D,
    pub end: Point2D,
    pub distance_px_bits: u32,
}

impl Measurement {
    /// Builds a line measurement record. `distance_px_bits` is the pixel
    /// distance between `start` and `end`, derived by the caller at creation
    /// time and cached in the record.
    pub fn new(start: Point2D, end: Point2D, distance_px_bits: u32) -> (m: Measurement)
        ensures
            m == (Measurement { start, end, distance_px_bits }),
    {
        Measurement { start, end, distance_px_bits }
    }

    /// The first clicked endpoint.
    pub fn start_pos(&self) -> (p: Point2D)
        ensures
            p == self.start,
    {
        self.start
    }

    /// The second clicked endpoint.
    pub fn end_pos(&self) -> (p: Point2D)
        ensures
            p == self.end,
    {
        self.end
    }
}

/// A committed rectangle measurement: two diagonally opposite corners, in the
/// order they were clicked (not necessarily min/max ordered), and the width,
/// height and area in pixels derived from them once, at creation.
#[derive(Clone, Copy, PartialEq, Eq, Structural, Debug)]
pub struct RectangleMeasurement {
    pub corner1: Point2D,
    pub corner2: Point2D,
    pub width_px_bits: u32,
    pub height_px_bits: u32,
    pub area_px_bits: u32,
}

impl RectangleMeasurement {
    /// Builds a rectangle measurement record. The width, height and area are
    /// derived by the caller at creation time from the two corners
    /// (`width = |x2 - x1|`, `height = |y2 - y1|`, `area = width * height`)
    /// and cached in the record.
    pub fn new(
        corner1: Point2D,
        corner2: Point2D,
        width_px_bits: u32,
        height_px_bits: u32,
        area_px_bits: u32,
    ) -> (r: RectangleMeasurement)
        ensures
            r == (RectangleMeasurement {
                corner1,
                corner2,
                width_px_bits,
                height_px_bits,
                area_px_bits,
            }),
    {
        RectangleMeasurement { corner1, corner2, width_px_bits, height_px_bits, area_px_bits }
    }
}

/// A pixels-to-real-world scale: how many pixels one real-world unit spans,
/// together with the unit's label. The scale is only ever constructed from a
/// positive real distance entered by the user; the guard sits at the single
/// construction site, in the calibration capture flow.
#[derive(Clone, Debug, PartialEq, Eq)]
pub struct Calibration {
    /// IEEE 754 bit pattern of the single-precision pixels-per-unit scale.
    pub pixels_per_unit_bits: u32,
    pub unit_name: String,
}

/// The mathematical value of a [`Calibration`]: the scale's bit pattern and
/// the unit label as a sequence of characters.
#[verifier::ext_equal]
pub struct CalibrationModel {
    pub pixels_per_unit_bits: u32,
    pub unit_name: Seq<char>,
}

impl View for Calibration {
    type V = CalibrationModel;

    open spec fn view(&self) -> CalibrationModel {
        CalibrationModel {
            pixels_per_unit_bits: self.pixels_per_unit_bits,
            unit_name: self.unit_name@,
        }
    }
}

/// The mathematical value of an optional calibration.
pub open spec fn opt_calibration_view(c: Option<Calibration>) -> Option<CalibrationModel> {
    match c {
        Some(cal) => Some(cal@),
        None => None,
    }
}

} // verus!
