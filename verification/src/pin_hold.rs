use vstd::prelude::*;

verus! {

/// The latch status of one controlled pin over a wake cycle.
#[derive(Clone, Copy, Debug, PartialEq, Eq, Structural)]
pub enum PinHoldState {
    /// The hardware hold latch is engaged: the output level is frozen and
    /// level writes have no observable effect.
    Held,
    /// The latch is released; the level may now be driven.
    Disabled,
    /// The level has been driven low for the upcoming sleep period.
    Driven,
}

/// One operation on a controlled pin.
#[derive(Clone, Copy, Debug, PartialEq, Eq, Structural)]
pub enum PinOp {
    DisableHold,
    DriveLow,
    EnableHold,
}

/// The per-pin transition rule: releasing the hold must come first, then the
/// level write, then re-engaging the hold - exactly once each per cycle.
/// Any other order is rejected.
pub open spec fn spec_pin_step(s: PinHoldState, op: PinOp) -> Option<PinHoldState> {
    match (s, op) {
        (PinHoldState::Held, PinOp::DisableHold) => Some(PinHoldState::Disabled),
        (PinHoldState::Disabled, PinOp::DriveLow) => Some(PinHoldState::Driven),
        (PinHoldState::Driven, PinOp::EnableHold) => Some(PinHoldState::Held),
        _ => None,
    }
}

/// Runs a sequence of operations from `s`; `None` as soon as one is illegal.
pub open spec fn spec_pin_run(s: PinHoldState, ops: Seq<PinOp>) -> Option<PinHoldState>
    decreases ops.len(),
{
    if ops.len() == 0 {
        Some(s)
    } else {
        match spec_pin_run(s, ops.drop_last()) {
            Some(s2) => spec_pin_step(s2, ops.last()),
            None => None,
        }
    }
}

/// In a legal run from the held state, the state reached pins down the last
/// operation: each state is only ever entered by its one incoming operation.
proof fn lemma_pin_run_last(ops: Seq<PinOp>, st: PinHoldState)
    requires
        spec_pin_run(PinHoldState::Held, ops) == Some(st),
    ensures
        st == PinHoldState::Disabled ==> ops.len() > 0 && ops.last() == PinOp::DisableHold,
        st == PinHoldState::Driven ==> ops.len() > 0 && ops.last() == PinOp::DriveLow,
        st == PinHoldState::Held && ops.len() > 0 ==> ops.last() == PinOp::EnableHold,
{
}

/// Law: in every sequence of operations the controller admits from the held
/// state, a hold-disable immediately precedes every level write, a level
/// write immediately precedes every hold-enable, and if the pin has returned
/// to the held state - the condition for its level to survive sleep - the
/// final operation on it was the hold-enable.
pub proof fn lemma_pin_sequence(ops: Seq<PinOp>)
    requires
        spec_pin_run(PinHoldState::Held, ops) is Some,
    ensures
        forall|i: int|
            0 <= i < ops.len() && #[trigger] ops[i] == PinOp::DriveLow ==> 0 < i && ops[i - 1]
                == PinOp::DisableHold,
        forall|i: int|
            0 <= i < ops.len() && #[trigger] ops[i] == PinOp::EnableHold ==> 0 < i && ops[i - 1]
                == PinOp::DriveLow,
        spec_pin_run(PinHoldState::Held, ops) == Some(PinHoldState::Held) && ops.len() > 0
            ==> ops.last() == PinOp::EnableHold,
{
    assert forall|i: int|
        0 <= i < ops.len() && #[trigger] ops[i] == PinOp::DriveLow implies 0 < i && ops[i - 1]
        == PinOp::DisableHold by {
        lemma_pin_precedence(ops, i);
    }
    assert forall|i: int|
        0 <= i < ops.len() && #[trigger] ops[i] == PinOp::EnableHold implies 0 < i && ops[i - 1]
        == PinOp::DriveLow by {
        lemma_pin_precedence(ops, i);
    }
    if spec_pin_run(PinHoldState::Held, ops) == Some(PinHoldState::Held) && ops.len() > 0 {
        lemma_pin_run_last(ops, PinHoldState::Held);
    }
}

/// The ordering fact at one position of a legal run: the operation before a
/// level write is the hold-disable, and the one before a hold-enable is the
/// level write.
proof fn lemma_pin_precedence(ops: Seq<PinOp>, i: int)
    requires
        spec_pin_run(PinHoldState::Held, ops) is Some,
        0 <= i < ops.len(),
    ensures
        ops[i] == PinOp::DriveLow ==> 0 < i && ops[i - 1] == PinOp::DisableHold,
        ops[i] == PinOp::EnableHold ==> 0 < i && ops[i - 1] == PinOp::DriveLow,
    decreases ops.len(),
{
    let t = ops.drop_last();
    let s2 = spec_pin_run(PinHoldState::Held, t).unwrap();
    if i == ops.len() - 1 {
        if ops[i] == PinOp::DriveLow || ops[i] == PinOp::EnableHold {
            lemma_pin_run_last(t, s2);
            assert(t.last() == ops[i - 1]);
        }
    } else {
        lemma_pin_precedence(t, i);
        assert(t[i] == ops[i]);
        if 0 < i {
            assert(t[i - 1] == ops[i - 1]);
        }
    }
}

/// The controller for one controlled pin. It tracks the latch status and,
/// as ghost state, the full history of operations issued this cycle, so the
/// ordering discipline is part of its contract. The hardware calls
/// themselves (hold release, level write, hold engage) are made by the
/// caller beside each method.
pub struct PinHoldController {
    state: PinHoldState,
    ops: Ghost<Seq<PinOp>>,
}

impl PinHoldController {
    /// The recorded history is a legal run ending in the current state.
    pub closed spec fn wf(self) -> bool {
        spec_pin_run(PinHoldState::Held, self.ops@) == Some(self.state)
    }

    /// The current latch status.
    pub closed spec fn spec_state(self) -> PinHoldState {
        self.state
    }

    /// The operations issued on this pin since the cycle began.
    pub closed spec fn spec_ops(self) -> Seq<PinOp> {
        self.ops@
    }

    /// A pin as the wake finds it: latched from the previous cycle, with no
    /// operation issued yet.
    pub fn new() -> (c: PinHoldController)
        ensures
            c.wf(),
            c.spec_state() == PinHoldState::Held,
            c.spec_ops() == Seq::<PinOp>::empty(),
    {
        PinHoldController { state: PinHoldState::Held, ops: Ghost(Seq::empty()) }
    }

    pub fn current_state(&self) -> (s: PinHoldState)
        ensures
            s == self.spec_state(),
    {
        self.state
    }

    /// Releases the hold latch; must be the first operation of the cycle.
    /// Until it is called, level writes would have no effect, so the
    /// controller refuses them.
    pub fn disable_hold(&mut self)
        requires
            old(self).wf(),
            old(self).spec_state() == PinHoldState::Held,
        ensures
            final(self).wf(),
            final(self).spec_state() == PinHoldState::Disabled,
            final(self).spec_ops() == old(self).spec_ops().push(PinOp::DisableHold),
    {
        proof {
            assert(self.ops@.push(PinOp::DisableHold).drop_last() =~= self.ops@);
        }
        self.state = PinHoldState::Disabled;
        self.ops = Ghost(self.ops@.push(PinOp::DisableHold));
    }

    /// Drives the output level low, to de-power the attached peripheral
    /// through the sleep period. Only legal once the hold is released.
    pub fn drive_low(&mut self)
        requires
            old(self).wf(),
            old(self).spec_state() == PinHoldState::Disabled,
        ensures
            final(self).wf(),
            final(self).spec_state() == PinHoldState::Driven,
            final(self).spec_ops() == old(self).spec_ops().push(PinOp::DriveLow),
    {
        proof {
            assert(self.ops@.push(PinOp::DriveLow).drop_last() =~= self.ops@);
        }
        self.state = PinHoldState::Driven;
        self.ops = Ghost(self.ops@.push(PinOp::DriveLow));
    }

    /// Re-engages the hold latch over the driven level; must be the last
    /// operation on the pin before the sleep call, or the pin's state
    /// through sleep is undefined.
    pub fn enable_hold(&mut self)
        requires
            old(self).wf(),
            old(self).spec_state() == PinHoldState::Driven,
        ensures
            final(self).wf(),
            final(self).spec_state() == PinHoldState::Held,
            final(self).spec_ops() == old(self).spec_ops().push(PinOp::EnableHold),
    {
        proof {
            assert(self.ops@.push(PinOp::EnableHold).drop_last() =~= self.ops@);
        }
        self.state = PinHoldState::Held;
        self.ops = Ghost(self.ops@.push(PinOp::EnableHold));
    }
}

} // verus!
