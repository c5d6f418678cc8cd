use vstd::prelude::*;

use crate::action::ActionModel;
use crate::measure::{CalibrationModel, Measurement, RectangleMeasurement};

verus! {

/// The state derived from a history log prefix: the ordered line measurement
/// list, the ordered rectangle measurement list, and the active calibration.
/// It is a pure function of the replayed log prefix, always rebuilt wholesale
/// and never mutated in place.
#[verifier::ext_equal]
pub struct DerivedState {
    pub lines: Seq<Measurement>,
    pub rects: Seq<RectangleMeasurement>,
    pub calibration: Option<CalibrationModel>,
}

/// The derived state of an empty log: no measurements, no calibration.
pub open spec fn empty_derived_state() -> DerivedState {
    DerivedState { lines: Seq::empty(), rects: Seq::empty(), calibration: None }
}

/// How one log entry transforms the derived state:
/// - an addition appends to the matching list;
/// - a removal deletes the element at the recorded index, or does nothing if
///   the index is out of range at this point of the replay (a stale index);
/// - a calibration entry replaces the active calibration wholesale.
pub open spec fn apply_action(s: DerivedState, a: ActionModel) -> DerivedState {
    match a {
        ActionModel::AddLine(m) => DerivedState { lines: s.lines.push(m), ..s },
        ActionModel::AddRect(r) => DerivedState { rects: s.rects.push(r), ..s },
        ActionModel::RemoveLine(i) => if i < s.lines.len() {
            DerivedState { lines: s.lines.remove(i as int), ..s }
        } else {
            s
        },
        ActionModel::RemoveRect(i) => if i < s.rects.len() {
            DerivedState { rects: s.rects.remove(i as int), ..s }
        } else {
            s
        },
        ActionModel::SetCalibration(c) => DerivedState { calibration: c, ..s },
    }
}

/// Folds a sequence of log entries, in order, over the empty derived state.
pub open spec fn replay(actions: Seq<ActionModel>) -> DerivedState
    decreases actions.len(),
{
    if actions.len() == 0 {
        empty_derived_state()
    } else {
        apply_action(replay(actions.drop_last()), actions.last())
    }
}

/// Replaying one more entry applies it to the replay of the entries before it.
pub proof fn lemma_replay_push(actions: Seq<ActionModel>, a: ActionModel)
    ensures
        replay(actions.push(a)) == apply_action(replay(actions), a),
{
    assert(actions.push(a).drop_last() =~= actions);
    assert(actions.push(a).last() == a);
}

/// Extending a replayed prefix of `actions` by one entry applies that entry.
pub proof fn lemma_replay_take_step(actions: Seq<ActionModel>, i: int)
    requires
        0 <= i < actions.len(),
    ensures
        replay(actions.take(i + 1)) == apply_action(replay(actions.take(i)), actions[i]),
{
    assert(actions.take(i + 1).drop_last() =~= actions.take(i));
    assert(actions.take(i + 1).last() == actions[i]);
}

} // verus!
