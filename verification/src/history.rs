use vstd::prelude::*;

use crate::action::{Action, ActionModel};
use crate::derived::{lemma_replay_take_step, replay};
use crate::measure::{
    opt_calibration_view, Calibration, CalibrationModel, Measurement, RectangleMeasurement,
};

verus! {

/// The mathematical value of a [`History`]: the recorded log entries and the
/// cursor that splits them into the applied prefix and the redo tail.
#[verifier::ext_equal]
pub struct HistoryModel {
    pub actions: Seq<ActionModel>,
    pub cursor: nat,
}

/// A well-formed history keeps its cursor inside the log: `0 <= cursor <=
/// actions.len()`. Every history the library hands out satisfies this.
pub open spec fn wf_m(h: HistoryModel) -> bool {
    h.cursor <= h.actions.len()
}

/// The applied prefix of the log: the entries before the cursor. Entries at
/// or after the cursor are undone and available for redo.
pub open spec fn applied_m(h: HistoryModel) -> Seq<ActionModel> {
    h.actions.take(h.cursor as int)
}

/// Whether an undo can move the cursor back.
pub open spec fn can_undo_m(h: HistoryModel) -> bool {
    h.cursor > 0
}

/// Whether a redo can move the cursor forward.
pub open spec fn can_redo_m(h: HistoryModel) -> bool {
    h.cursor < h.actions.len()
}

/// Pushing discards the redo tail, appends the new entry, and leaves the
/// cursor at the end of the log.
pub open spec fn push_m(h: HistoryModel, a: ActionModel) -> HistoryModel {
    HistoryModel { actions: h.actions.take(h.cursor as int).push(a), cursor: h.cursor + 1 }
}

/// Undo moves the cursor back one entry; at the start of the log it does
/// nothing. The entries themselves never change.
pub open spec fn undo_m(h: HistoryModel) -> HistoryModel {
    if can_undo_m(h) {
        HistoryModel { actions: h.actions, cursor: (h.cursor - 1) as nat }
    } else {
        h
    }
}

/// Redo moves the cursor forward one entry; at the end of the log it does
/// nothing. The entries themselves never change.
pub open spec fn redo_m(h: HistoryModel) -> HistoryModel {
    if can_redo_m(h) {
        HistoryModel { actions: h.actions, cursor: h.cursor + 1 }
    } else {
        h
    }
}

/// A fresh log, optionally seeded with a single calibration entry.
pub open spec fn reset_m(cal: Option<CalibrationModel>) -> HistoryModel {
    match cal {
        Some(c) => HistoryModel {
            actions: seq![ActionModel::SetCalibration(Some(c))],
            cursor: 1,
        },
        None => HistoryModel { actions: Seq::empty(), cursor: 0 },
    }
}

/// An append-only, cursor-addressed log of mutating actions. All mutation of
/// the recorded state goes through [`History::push_action`],
/// [`History::undo`], [`History::redo`] and
/// [`History::reset_with_calibration`]; undo and redo only move the cursor
/// and never delete or resurrect entries, except through the truncation that
/// a push after an undo performs.
pub struct History {
    actions: Vec<Action>,
    cursor: usize,
}

impl View for History {
    type V = HistoryModel;

    closed spec fn view(&self) -> HistoryModel {
        HistoryModel {
            actions: self.actions@.map_values(|a: Action| a@),
            cursor: self.cursor as nat,
        }
    }
}

impl History {
    /// The documented log invariant, `0 <= cursor <= actions.len()`, holds of
    /// every history this library hands out: constructors establish it and
    /// every method preserves it.
    pub open spec fn wf(&self) -> bool {
        wf_m(self@)
    }

    /// An empty history: no entries, cursor at the start.
    pub fn new() -> (h: History)
        ensures
            h.wf(),
            h@ == (HistoryModel { actions: Seq::<ActionModel>::empty(), cursor: 0 as nat }),
    {
        let h = History { actions: Vec::new(), cursor: 0 };
        proof {
            assert(h@.actions =~= Seq::<ActionModel>::empty());
        }
        h
    }

    /// Appends a new entry. If there is a redo tail (the cursor is not at the
    /// end of the log), it is truncated away first and permanently discarded;
    /// then the entry is appended and the cursor set to the end of the log.
    /// A new edit therefore always leaves nothing to redo.
    pub fn push_action(&mut self, action: Action)
        requires
            old(self).wf(),
        ensures
            final(self).wf(),
            final(self)@ == push_m(old(self)@, action@),
            !can_redo_m(final(self)@),
    {
        if self.cursor < self.actions.len() {
            self.actions.truncate(self.cursor);
        }
        self.actions.push(action);
        self.cursor = self.actions.len();
        proof {
            let m = old(self)@.actions;
            let c = old(self)@.cursor as int;
            assert(self@.actions =~= m.take(c).push(action@));
        }
    }

    /// Whether there is an applied entry to undo.
    pub fn can_undo(&self) -> (r: bool)
        ensures
            r == can_undo_m(self@),
    {
        self.cursor > 0
    }

    /// Whether there is an undone entry to redo.
    pub fn can_redo(&self) -> (r: bool)
        ensures
            r == can_redo_m(self@),
    {
        self.cursor < self.actions.len()
    }

    /// Moves the cursor back one entry and reports success, or reports
    /// failure at the start of the log without changing anything.
    pub fn undo(&mut self) -> (r: bool)
        requires
            old(self).wf(),
        ensures
            final(self).wf(),
            final(self)@ == undo_m(old(self)@),
            r == can_undo_m(old(self)@),
    {
        if self.cursor > 0 {
            self.cursor = self.cursor - 1;
            true
        } else {
            false
        }
    }

    /// Moves the cursor forward one entry and reports success, or reports
    /// failure at the end of the log without changing anything.
    pub fn redo(&mut self) -> (r: bool)
        requires
            old(self).wf(),
        ensures
            final(self).wf(),
            final(self)@ == redo_m(old(self)@),
            r == can_redo_m(old(self)@),
    {
        if self.cursor < self.actions.len() {
            self.cursor = self.cursor + 1;
            true
        } else {
            false
        }
    }

    /// Clears the log. If a calibration is given, the fresh log is seeded
    /// with a single entry that sets it, so that clearing the measurements
    /// keeps the calibration.
    pub fn reset_with_calibration(&mut self, calibration: Option<Calibration>)
        ensures
            final(self).wf(),
            final(self)@ == reset_m(opt_calibration_view(calibration)),
    {
        self.cursor = 0;
        self.actions.clear();
        match calibration {
            Some(cal) => {
                self.actions.push(Action::SetCalibration(Some(cal)));
                self.cursor = self.actions.len();
                proof {
                    assert(self@.actions =~= reset_m(opt_calibration_view(calibration)).actions);
                }
            },
            None => {
                proof {
                    assert(self@.actions =~= Seq::<ActionModel>::empty());
                }
            },
        }
    }

    /// Rebuilds the derived state by folding the applied prefix of the log,
    /// in order, over empty accumulators: the ordered line measurements, the
    /// ordered rectangle measurements, and the active calibration. The result
    /// is a pure function of the applied prefix.
    pub fn rebuild_state(&self) -> (r: (Vec<Measurement>, Vec<RectangleMeasurement>, Option<
        Calibration,
    >))
        requires
            self.wf(),
        ensures
            r.0@ == replay(applied_m(self@)).lines,
            r.1@ == replay(applied_m(self@)).rects,
            opt_calibration_view(r.2) == replay(applied_m(self@)).calibration,
    {
        let mut measurements: Vec<Measurement> = Vec::new();
        let mut rectangle_measurements: Vec<RectangleMeasurement> = Vec::new();
        let mut calibration: Option<Calibration> = None;
        let ghost log = self@.actions;

        let mut i: usize = 0;
        while i < self.cursor
            invariant
                i <= self.cursor,
                wf_m(self@),
                log == self@.actions,
                measurements@ == replay(log.take(i as int)).lines,
                rectangle_measurements@ == replay(log.take(i as int)).rects,
                opt_calibration_view(calibration) == replay(log.take(i as int)).calibration,
            decreases self.cursor - i,
        {
            proof {
                lemma_replay_take_step(log, i as int);
            }
            match &self.actions[i] {
                Action::AddLine(m) => {
                    measurements.push(*m);
                },
                Action::AddRect(r) => {
                    rectangle_measurements.push(*r);
                },
                Action::RemoveLine(index) => {
                    if *index < measurements.len() {
                        measurements.remove(*index);
                    }
                },
                Action::RemoveRect(index) => {
                    if *index < rectangle_measurements.len() {
                        rectangle_measurements.remove(*index);
                    }
                },
                Action::SetCalibration(cal) => {
                    calibration = match cal {
                        Some(c) => Some(
                            Calibration {
                                pixels_per_unit_bits: c.pixels_per_unit_bits,
                                unit_name: c.unit_name.clone(),
                            },
                        ),
                        None => None,
                    };
                },
            }
            i = i + 1;
        }
        proof {
            assert(log.take(self@.cursor as int) == applied_m(self@));
        }
        (measurements, rectangle_measurements, calibration)
    }
}

/// Applying `undo` `k` times in a row.
pub open spec fn undo_k(h: HistoryModel, k: nat) -> HistoryModel
    decreases k,
{
    if k == 0 {
        h
    } else {
        undo_k(undo_m(h), (k - 1) as nat)
    }
}

/// Applying `redo` `k` times in a row.
pub open spec fn redo_k(h: HistoryModel, k: nat) -> HistoryModel
    decreases k,
{
    if k == 0 {
        h
    } else {
        redo_m(redo_k(h, (k - 1) as nat))
    }
}

/// A new edit always clears the redo tail: immediately after any push,
/// nothing can be redone.
pub proof fn lemma_push_clears_redo(h: HistoryModel, a: ActionModel)
    requires
        wf_m(h),
    ensures
        !can_redo_m(push_m(h, a)),
{
    assert(h.actions.take(h.cursor as int).len() == h.cursor);
}

/// Rebuilding is deterministic and path-independent: any two histories whose
/// applied prefixes agree — in particular, two with the same log entries and
/// the same cursor, however many undos and redos led there — replay to
/// identical derived state.
pub proof fn lemma_rebuild_path_independent(h1: HistoryModel, h2: HistoryModel)
    requires
        applied_m(h1) == applied_m(h2),
    ensures
        replay(applied_m(h1)) == replay(applied_m(h2)),
{
}

/// Round trip: `k` undos followed by `k` redos restore the history exactly —
/// and with it the derived state — provided no more is undone than was
/// applied.
pub proof fn lemma_undo_redo_round_trip(h: HistoryModel, k: nat)
    requires
        wf_m(h),
        k <= h.cursor,
    ensures
        redo_k(undo_k(h, k), k) == h,
        replay(applied_m(redo_k(undo_k(h, k), k))) == replay(applied_m(h)),
    decreases k,
{
    if k > 0 {
        let u1 = undo_m(h);
        lemma_undo_redo_round_trip(u1, (k - 1) as nat);
        assert(redo_m(u1) == h);
    }
}

} // verus!
