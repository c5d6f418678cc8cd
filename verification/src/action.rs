use vstd::prelude::*;

use crate::measure::{
    opt_calibration_view, Calibration, CalibrationModel, Measurement, RectangleMeasurement,
};

verus! {

/// One mutating operation, recorded in the history log. Entries are immutable
/// once appended. The removal variants address positions in the lists as they
/// stand *at replay time*, not stable identifiers; an index that is out of
/// range when replayed is silently skipped.
#[derive(Debug)]
pub enum Action {
    AddLine(Measurement),
    AddRect(RectangleMeasurement),
    RemoveLine(usize),
    RemoveRect(usize),
    SetCalibration(Option<Calibration>),
}

/// The mathematical value of an [`Action`].
pub enum ActionModel {
    AddLine(Measurement),
    AddRect(RectangleMeasurement),
    RemoveLine(usize),
    RemoveRect(usize),
    SetCalibration(Option<CalibrationModel>),
}

impl View for Action {
    type V = ActionModel;

    open spec fn view(&self) -> ActionModel {
        match *self {
            Action::AddLine(m) => ActionModel::AddLine(m),
            Action::AddRect(r) => ActionModel::AddRect(r),
            Action::RemoveLine(i) => ActionModel::RemoveLine(i),
            Action::RemoveRect(i) => ActionModel::RemoveRect(i),
            Action::SetCalibration(c) => ActionModel::SetCalibration(opt_calibration_view(c)),
        }
    }
}

} // verus!
