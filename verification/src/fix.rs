use vstd::prelude::*;

verus! {

/// A latitude/longitude reading for one wake cycle, in fixed-point units of
/// 1e-7 degrees (so 37.0000 degrees is 370_000_000). This keeps every
/// coordinate the GPS can deliver, and every delta of two coordinates, exact
/// in integer arithmetic.
#[derive(Clone, Copy, Debug, PartialEq, Eq, Structural)]
pub struct GeoFix {
    pub lat_e7: i32,
    pub lon_e7: i32,
}

/// The record persisted across deep sleep: the last fix considered settled,
/// plus a flag saying whether the record may be trusted at all.
#[derive(Clone, Copy, Debug, PartialEq, Eq, Structural)]
pub struct PersistedFix {
    pub lat_e7: i32,
    pub lon_e7: i32,
    pub valid: bool,
}

impl PersistedFix {
    /// The defined cold-start value: no previous data, no payload.
    pub open spec fn spec_invalid() -> PersistedFix {
        PersistedFix { lat_e7: 0, lon_e7: 0, valid: false }
    }

    /// The record that persisting the fix `f` produces.
    pub open spec fn spec_from_fix(f: GeoFix) -> PersistedFix {
        PersistedFix { lat_e7: f.lat_e7, lon_e7: f.lon_e7, valid: true }
    }

    pub fn invalid() -> (r: PersistedFix)
        ensures
            r == PersistedFix::spec_invalid(),
    {
        PersistedFix { lat_e7: 0, lon_e7: 0, valid: false }
    }
}

} // verus!
