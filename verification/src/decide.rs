use vstd::prelude::*;

use crate::fix::{GeoFix, PersistedFix};

verus! {

/// Movement threshold in 1e-7 degree units: 0.0001 degrees, about 11 meters
/// on the ground. Applied independently to the latitude and longitude deltas.
pub const MOVEMENT_THRESHOLD_E7: i64 = 1000;

/// The outcome of one wake cycle's movement decision.
#[derive(Clone, Copy, Debug, PartialEq, Eq, Structural)]
pub enum Decision {
    /// No fix was acquired this cycle: go straight back to sleep.
    ImmediateSleep,
    /// No trusted previous record: the current fix becomes the baseline.
    NoPreviousData,
    /// Both deltas are within the threshold: the baseline is kept.
    Stationary,
    /// A delta exceeds the threshold: the current fix becomes the baseline
    /// and the reporting collaborator is owed an invocation.
    Moved,
}

pub open spec fn abs_val(x: int) -> int {
    if x < 0 {
        -x
    } else {
        x
    }
}

/// Whether the fix `c` counts as having moved away from the baseline `p`:
/// either coordinate delta strictly exceeds the threshold.
pub open spec fn spec_moved(c: GeoFix, p: PersistedFix) -> bool {
    ||| abs_val(c.lat_e7 - p.lat_e7) > MOVEMENT_THRESHOLD_E7
    ||| abs_val(c.lon_e7 - p.lon_e7) > MOVEMENT_THRESHOLD_E7
}

/// The decision rule over an optional current fix and the persisted baseline.
pub open spec fn spec_decide(current: Option<GeoFix>, previous: PersistedFix) -> Decision {
    match current {
        None => Decision::ImmediateSleep,
        Some(c) => if !previous.valid {
            Decision::NoPreviousData
        } else if spec_moved(c, previous) {
            Decision::Moved
        } else {
            Decision::Stationary
        },
    }
}

/// Whether a decision obliges the store to be overwritten with the current
/// fix: only a new baseline (no previous data) or confirmed movement does.
pub open spec fn spec_saves(d: Decision) -> bool {
    d == Decision::NoPreviousData || d == Decision::Moved
}

/// The movement decision engine: pure, no state touched.
pub fn decide(current: Option<GeoFix>, previous: PersistedFix) -> (d: Decision)
    ensures
        d == spec_decide(current, previous),
{
    match current {
        None => Decision::ImmediateSleep,
        Some(c) => {
            if !previous.valid {
                Decision::NoPreviousData
            } else {
                let dlat: i64 = c.lat_e7 as i64 - previous.lat_e7 as i64;
                let dlon: i64 = c.lon_e7 as i64 - previous.lon_e7 as i64;
                let alat: i64 = if dlat < 0 { -dlat } else { dlat };
                let alon: i64 = if dlon < 0 { -dlon } else { dlon };
                if alat > MOVEMENT_THRESHOLD_E7 || alon > MOVEMENT_THRESHOLD_E7 {
                    Decision::Moved
                } else {
                    Decision::Stationary
                }
            }
        },
    }
}

/// Law: for every previous record that is not valid and every acquired fix,
/// the decision is NoPreviousData.
pub proof fn lemma_decide_no_previous(c: GeoFix, p: PersistedFix)
    requires
        !p.valid,
    ensures
        spec_decide(Some(c), p) == Decision::NoPreviousData,
{
}

/// Law: for every valid previous record and every acquired fix, the decision
/// is Moved exactly when a coordinate delta strictly exceeds the threshold,
/// and Stationary exactly otherwise.
pub proof fn lemma_decide_threshold(c: GeoFix, p: PersistedFix)
    requires
        p.valid,
    ensures
        (spec_decide(Some(c), p) == Decision::Moved) <==> spec_moved(c, p),
        (spec_decide(Some(c), p) == Decision::Stationary) <==> !spec_moved(c, p),
{
}

} // verus!
