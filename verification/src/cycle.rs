use vstd::prelude::*;

use crate::decide::{decide, spec_decide, spec_saves, Decision};
use crate::fix::{GeoFix, PersistedFix};
use crate::pin_hold::{PinHoldController, PinHoldState, PinOp};
use crate::sleep_store::DeepSleepStore;

verus! {

/// The fixed sleep interval armed on the wake timer, in seconds; policy
/// data, never mutated at runtime.
pub const SLEEP_DURATION_SECS: u64 = 10;

/// The duration for the wake timer in the unit its hardware call takes.
pub fn sleep_duration_micros() -> (us: u64)
    ensures
        us == SLEEP_DURATION_SECS * 1_000_000,
{
    SLEEP_DURATION_SECS * 1_000_000
}

/// Where in the wake-to-sleep sequence a cycle stands. The steps are
/// strictly ordered; each method of the orchestrator takes exactly one.
#[derive(Clone, Copy, Debug, PartialEq, Eq, Structural)]
pub enum CyclePhase {
    /// Just woken: pins still latched from the previous cycle.
    Start,
    /// Both pin holds released.
    HoldsReleased,
    /// The persisted baseline read - strictly before fix acquisition.
    BaselineLoaded,
    /// The movement decision made and the store updated where owed.
    Decided,
    /// Pins driven low and latched again; only arming the timer and the
    /// sleep call itself remain.
    ReadyForSleep,
}

/// Composes the store, the two pin-hold controllers and the decision engine
/// into the wake-to-sleep sequence. The collaborators outside this crate -
/// the GPS link, the reporting uplink, the hardware pin and timer calls -
/// are driven by the caller between the steps: the orchestrator decides,
/// the caller performs.
pub struct SleepCycleOrchestrator {
    store: DeepSleepStore,
    vext_pin: PinHoldController,
    adc_ctrl_pin: PinHoldController,
    baseline: PersistedFix,
    phase: CyclePhase,
}

impl SleepCycleOrchestrator {
    /// The store is intact, each pin's history is legal, and the pins stand
    /// where the phase says they must: latched outside the working span of
    /// the cycle, released within it.
    pub closed spec fn wf(self) -> bool {
        &&& self.store.wf()
        &&& self.vext_pin.wf()
        &&& self.adc_ctrl_pin.wf()
        &&& match self.phase {
            CyclePhase::Start => {
                &&& self.vext_pin.spec_state() == PinHoldState::Held
                &&& self.adc_ctrl_pin.spec_state() == PinHoldState::Held
                &&& self.vext_pin.spec_ops() == Seq::<PinOp>::empty()
                &&& self.adc_ctrl_pin.spec_ops() == Seq::<PinOp>::empty()
            },
            CyclePhase::HoldsReleased | CyclePhase::BaselineLoaded | CyclePhase::Decided => {
                &&& self.vext_pin.spec_state() == PinHoldState::Disabled
                &&& self.adc_ctrl_pin.spec_state() == PinHoldState::Disabled
            },
            CyclePhase::ReadyForSleep => {
                &&& self.vext_pin.spec_state() == PinHoldState::Held
                &&& self.adc_ctrl_pin.spec_state() == PinHoldState::Held
            },
        }
    }

    pub closed spec fn spec_store(self) -> DeepSleepStore {
        self.store
    }

    pub closed spec fn spec_phase(self) -> CyclePhase {
        self.phase
    }

    /// The baseline snapshot taken when the store was read this cycle.
    pub closed spec fn spec_baseline(self) -> PersistedFix {
        self.baseline
    }

    pub closed spec fn spec_vext_pin(self) -> PinHoldController {
        self.vext_pin
    }

    pub closed spec fn spec_adc_ctrl_pin(self) -> PinHoldController {
        self.adc_ctrl_pin
    }

    /// Begins a cycle over the given store image, with both pins latched
    /// from the previous cycle and nothing done yet.
    pub fn new(store: DeepSleepStore) -> (o: SleepCycleOrchestrator)
        requires
            store.wf(),
        ensures
            o.wf(),
            o.spec_phase() == CyclePhase::Start,
            o.spec_store() == store,
    {
        SleepCycleOrchestrator {
            store,
            vext_pin: PinHoldController::new(),
            adc_ctrl_pin: PinHoldController::new(),
            baseline: PersistedFix::invalid(),
            phase: CyclePhase::Start,
        }
    }

    pub fn phase(&self) -> (p: CyclePhase)
        ensures
            p == self.spec_phase(),
    {
        self.phase
    }

    /// First step on wake: release the hold latch of both controlled pins,
    /// so their levels can be driven later in the cycle. The caller makes
    /// the matching hold-release hardware call for each pin.
    pub fn release_holds(&mut self)
        requires
            old(self).wf(),
            old(self).spec_phase() == CyclePhase::Start,
        ensures
            final(self).wf(),
            final(self).spec_phase() == CyclePhase::HoldsReleased,
            final(self).spec_store() == old(self).spec_store(),
            final(self).spec_vext_pin().spec_ops() =~= seq![PinOp::DisableHold],
            final(self).spec_adc_ctrl_pin().spec_ops() =~= seq![PinOp::DisableHold],
    {
        self.vext_pin.disable_hold();
        self.adc_ctrl_pin.disable_hold();
        self.phase = CyclePhase::HoldsReleased;
    }

    /// Second step: read the persisted record once, before fix acquisition
    /// begins, so the decision compares against an immutable snapshot of
    /// the previous cycle's outcome.
    pub fn load_baseline(&mut self) -> (p: PersistedFix)
        requires
            old(self).wf(),
            old(self).spec_phase() == CyclePhase::HoldsReleased,
        ensures
            final(self).wf(),
            final(self).spec_phase() == CyclePhase::BaselineLoaded,
            final(self).spec_store() == old(self).spec_store(),
            p == old(self).spec_store().spec_load(),
            final(self).spec_baseline() == p,
            final(self).spec_vext_pin() == old(self).spec_vext_pin(),
            final(self).spec_adc_ctrl_pin() == old(self).spec_adc_ctrl_pin(),
    {
        let p = self.store.load();
        self.baseline = p;
        self.phase = CyclePhase::BaselineLoaded;
        p
    }

    /// Decision step, fed the optional fix the GPS collaborator returned.
    /// With no fix the cycle proceeds straight towards sleep, the engine
    /// untouched and nothing saved. Otherwise the engine compares the fix
    /// against the baseline; on NoPreviousData or Moved the fix is saved as
    /// the new baseline, on Stationary the store is left alone. A Moved
    /// result tells the caller that the reporting collaborator is owed an
    /// invocation with this fix.
    pub fn process_fix(&mut self, current: Option<GeoFix>) -> (d: Decision)
        requires
            old(self).wf(),
            old(self).spec_phase() == CyclePhase::BaselineLoaded,
        ensures
            final(self).wf(),
            final(self).spec_phase() == CyclePhase::Decided,
            d == spec_decide(current, old(self).spec_baseline()),
            spec_saves(d) ==> current is Some && final(self).spec_store().spec_load()
                == PersistedFix::spec_from_fix(current.unwrap()),
            !spec_saves(d) ==> final(self).spec_store() == old(self).spec_store(),
            final(self).spec_baseline() == old(self).spec_baseline(),
            final(self).spec_vext_pin() == old(self).spec_vext_pin(),
            final(self).spec_adc_ctrl_pin() == old(self).spec_adc_ctrl_pin(),
    {
        match current {
            None => {
                self.phase = CyclePhase::Decided;
                Decision::ImmediateSleep
            },
            Some(c) => {
                let d = decide(Some(c), self.baseline);
                if d == Decision::NoPreviousData || d == Decision::Moved {
                    self.store.save(c);
                }
                self.phase = CyclePhase::Decided;
                d
            },
        }
    }

    /// Final step before the sleep call: drive both controlled pins low and
    /// re-engage their hold latches, so the levels persist through the
    /// power-down. Each pin ends latched having seen exactly the release,
    /// the level write and the hold-enable, in that order. The caller makes
    /// the matching level and hold hardware calls, then arms the timer and
    /// issues the sleep call; nothing may touch the pins in between.
    pub fn prepare_for_sleep(&mut self)
        requires
            old(self).wf(),
            old(self).spec_phase() == CyclePhase::Decided,
        ensures
            final(self).wf(),
            final(self).spec_phase() == CyclePhase::ReadyForSleep,
            final(self).spec_store() == old(self).spec_store(),
            final(self).spec_vext_pin().spec_state() == PinHoldState::Held,
            final(self).spec_adc_ctrl_pin().spec_state() == PinHoldState::Held,
            final(self).spec_vext_pin().spec_ops() =~= old(self).spec_vext_pin().spec_ops().push(
                PinOp::DriveLow,
            ).push(PinOp::EnableHold),
            final(self).spec_adc_ctrl_pin().spec_ops() =~= old(
                self,
            ).spec_adc_ctrl_pin().spec_ops().push(PinOp::DriveLow).push(PinOp::EnableHold),
    {
        self.vext_pin.drive_low();
        self.adc_ctrl_pin.drive_low();
        self.vext_pin.enable_hold();
        self.adc_ctrl_pin.enable_hold();
        self.phase = CyclePhase::ReadyForSleep;
    }

    /// A copy of the store's region bytes, for the caller to write back to
    /// the hardware retained memory before the sleep call.
    pub fn region_snapshot(&self) -> (r: Vec<u8>)
        ensures
            r@ == self.spec_store().region_bytes(),
    {
        self.store.raw_bytes()
    }
}

} // verus!
