use vstd::prelude::*;
use crate::level::{accepts_spec, Edge, EdgeKind, Level};

verus! {

/// The five ways of waiting on a pin.
#[derive(Clone, Copy, Debug, PartialEq, Eq, Structural)]
pub enum WaitOp {
    Low,
    High,
    RisingEdge,
    FallingEdge,
    AnyEdge,
}

/// Where a single wait call stands.
#[derive(Clone, Copy, Debug, PartialEq, Eq, Structural)]
pub enum Phase {
    /// Created, level not yet looked at, nothing armed.
    Idle,
    /// An interrupt was asked for; no matching edge yet.
    Armed,
    /// A matching edge was delivered; the waiting task has not resumed.
    Fired,
    /// The call has produced its result.
    Returned,
}

/// Why a wait call failed.
#[derive(Clone, Copy, Debug, PartialEq, Eq, Structural)]
pub enum WaitError {
    /// The interrupt could not be armed.
    RegistrationFailed,
    /// The interrupt source went away before a matching edge came.
    ChannelClosed,
}

/// What the task driving a wait call must do next.
#[derive(Clone, Copy, Debug, PartialEq, Eq)]
pub enum Action {
    /// Finish the call with this result.
    Return(Result<(), WaitError>),
    /// Register a one-shot interrupt for this kind of edge, then report the
    /// outcome through `registered`.
    Arm(EdgeKind),
    /// Suspend until woken, then report through `wake` or `close`.
    Suspend,
}

/// Whether the level alone already satisfies `op`.
pub open spec fn fast_path_spec(op: WaitOp, level: Level) -> bool {
    match op {
        WaitOp::Low => level == Level::Low,
        WaitOp::High => level == Level::High,
        _ => false,
    }
}

/// The kind of edge that `op` arms an interrupt for when it has to wait.
pub open spec fn armed_kind_spec(op: WaitOp) -> EdgeKind {
    match op {
        WaitOp::Low => EdgeKind::Falling,
        WaitOp::FallingEdge => EdgeKind::Falling,
        WaitOp::High => EdgeKind::Rising,
        WaitOp::RisingEdge => EdgeKind::Rising,
        WaitOp::AnyEdge => EdgeKind::Either,
    }
}

impl WaitOp {
    /// Whether a pin at `level` satisfies this wait without any interrupt.
    pub fn fast_path(&self, level: Level) -> (r: bool)
        ensures
            r == fast_path_spec(*self, level),
    {
        match self {
            WaitOp::Low => level.is_low(),
            WaitOp::High => level.is_high(),
            _ => false,
        }
    }

    /// The edge kind to arm when this wait has to suspend.
    pub fn armed_kind(&self) -> (r: EdgeKind)
        ensures
            r == armed_kind_spec(*self),
    {
        match self {
            WaitOp::Low => EdgeKind::Falling,
            WaitOp::FallingEdge => EdgeKind::Falling,
            WaitOp::High => EdgeKind::Rising,
            WaitOp::RisingEdge => EdgeKind::Rising,
            WaitOp::AnyEdge => EdgeKind::Either,
        }
    }
}

/// One wait call: a single-use completion shared between the waiting task and
/// the interrupt callback.
#[derive(Clone, Copy, Debug, PartialEq, Eq)]
pub struct PendingWait {
    pub op: WaitOp,
    pub phase: Phase,
    /// The interrupt registration has reported success.
    pub confirmed: bool,
    /// Interrupt registrations asked for by this call.
    pub registrations: u64,
    /// Completions observed by this call.
    pub completions: u64,
    /// The call's result, once it has returned.
    pub outcome: Option<Result<(), WaitError>>,
}

/// A fresh wait call for `op`.
pub open spec fn fresh_spec(op: WaitOp) -> PendingWait {
    PendingWait {
        op,
        phase: Phase::Idle,
        confirmed: false,
        registrations: 0,
        completions: 0,
        outcome: None,
    }
}

/// The wait call after the callback has delivered `edges`, in order.
pub open spec fn deliver_all(w: PendingWait, edges: Seq<Edge>) -> PendingWait
    decreases edges.len(),
{
    if edges.len() == 0 {
        w
    } else {
        deliver_all(w.deliver_spec(edges[0]).0, edges.drop_first())
    }
}

/// How many of the deliveries of `edges`, in order, completed the wait.
pub open spec fn fires(w: PendingWait, edges: Seq<Edge>) -> nat
    decreases edges.len(),
{
    if edges.len() == 0 {
        0
    } else {
        (if w.deliver_spec(edges[0]).1 {
            1nat
        } else {
            0nat
        }) + fires(w.deliver_spec(edges[0]).0, edges.drop_first())
    }
}

impl PendingWait {
    pub open spec fn wf(self) -> bool {
        &&& self.registrations <= 1
        &&& self.completions <= self.registrations
        &&& (self.phase == Phase::Idle ==> self.registrations == 0 && !self.confirmed)
        &&& (self.phase == Phase::Armed ==> self.registrations == 1 && self.completions == 0)
        &&& (self.phase == Phase::Fired ==> self.registrations == 1 && self.completions == 1)
        &&& (self.phase == Phase::Returned <==> self.outcome is Some)
    }

    pub open spec fn finished(self, res: Result<(), WaitError>) -> PendingWait {
        PendingWait { phase: Phase::Returned, outcome: Some(res), ..self }
    }

    /// Looking at the level when the call begins.
    pub open spec fn start_spec(self, level: Level) -> (PendingWait, Action) {
        if fast_path_spec(self.op, level) {
            (self.finished(Ok(())), Action::Return(Ok(())))
        } else {
            (
                PendingWait { phase: Phase::Armed, registrations: 1, ..self },
                Action::Arm(armed_kind_spec(self.op)),
            )
        }
    }

    /// An edge delivered by the interrupt callback; the flag says whether this
    /// delivery completed the wait.
    pub open spec fn deliver_spec(self, edge: Edge) -> (PendingWait, bool) {
        if self.phase == Phase::Armed && accepts_spec(armed_kind_spec(self.op), edge) {
            (PendingWait { phase: Phase::Fired, completions: 1, ..self }, true)
        } else {
            (self, false)
        }
    }

    /// The outcome of the interrupt registration.
    pub open spec fn registered_spec(self, ok: bool) -> (PendingWait, Action) {
        if !ok {
            (
                self.finished(Err(WaitError::RegistrationFailed)),
                Action::Return(Err(WaitError::RegistrationFailed)),
            )
        } else if self.phase == Phase::Fired {
            (PendingWait { confirmed: true, ..self }.finished(Ok(())), Action::Return(Ok(())))
        } else {
            (PendingWait { confirmed: true, ..self }, Action::Suspend)
        }
    }

    /// The suspended task was woken.
    pub open spec fn wake_spec(self) -> (PendingWait, Action) {
        if self.phase == Phase::Fired {
            (self.finished(Ok(())), Action::Return(Ok(())))
        } else {
            (self, Action::Suspend)
        }
    }

    /// The interrupt source was dropped.
    pub open spec fn close_spec(self) -> (PendingWait, Action) {
        if self.phase == Phase::Fired {
            (self.finished(Ok(())), Action::Return(Ok(())))
        } else {
            (
                self.finished(Err(WaitError::ChannelClosed)),
                Action::Return(Err(WaitError::ChannelClosed)),
            )
        }
    }

    /// Whether the task may be suspended on the completion: armed and
    /// registered, not yet returned.
    pub open spec fn waiting(self) -> bool {
        self.confirmed && (self.phase == Phase::Armed || self.phase == Phase::Fired)
    }

    pub fn new(op: WaitOp) -> (r: PendingWait)
        ensures
            r == fresh_spec(op),
            r.wf(),
    {
        PendingWait {
            op,
            phase: Phase::Idle,
            confirmed: false,
            registrations: 0,
            completions: 0,
            outcome: None,
        }
    }

    fn finish(&mut self, res: Result<(), WaitError>) -> (r: Action)
        ensures
            *final(self) == old(self).finished(res),
            r == Action::Return(res),
    {
        self.phase = Phase::Returned;
        self.outcome = Some(res);
        Action::Return(res)
    }

    /// Begins the call on a pin at `level`: returns at once where the level
    /// already satisfies the wait, else asks for an interrupt to be armed.
    pub fn start(&mut self, level: Level) -> (r: Action)
        requires
            old(self).wf(),
            old(self).phase == Phase::Idle,
        ensures
            (*final(self), r) == old(self).start_spec(level),
            final(self).wf(),
    {
        if self.op.fast_path(level) {
            self.finish(Ok(()))
        } else {
            self.phase = Phase::Armed;
            self.registrations = 1;
            Action::Arm(self.op.armed_kind())
        }
    }

    /// Called from the interrupt callback for each delivered edge. Returns
    /// `true` for the one delivery that completes the wait; every other
    /// delivery, before or after it, leaves the call as it is.
    pub fn deliver(&mut self, edge: Edge) -> (r: bool)
        requires
            old(self).wf(),
        ensures
            (*final(self), r) == old(self).deliver_spec(edge),
            final(self).wf(),
    {
        if self.phase == Phase::Armed && self.op.armed_kind().accepts(edge) {
            self.phase = Phase::Fired;
            self.completions = self.completions + 1;
            true
        } else {
            false
        }
    }

    /// Reports whether the interrupt registration succeeded. A failure ends
    /// the call with `RegistrationFailed`; an edge that came during the
    /// registration ends it with success, without suspending.
    pub fn registered(&mut self, ok: bool) -> (r: Action)
        requires
            old(self).wf(),
            old(self).phase == Phase::Armed || old(self).phase == Phase::Fired,
            !old(self).confirmed,
        ensures
            (*final(self), r) == old(self).registered_spec(ok),
            final(self).wf(),
    {
        if !ok {
            self.finish(Err(WaitError::RegistrationFailed))
        } else if self.phase == Phase::Fired {
            self.confirmed = true;
            self.finish(Ok(()))
        } else {
            self.confirmed = true;
            Action::Suspend
        }
    }

    /// The suspended task was woken: it returns once a matching edge has come
    /// and suspends again otherwise.
    pub fn wake(&mut self) -> (r: Action)
        requires
            old(self).wf(),
            old(self).waiting(),
        ensures
            (*final(self), r) == old(self).wake_spec(),
            final(self).wf(),
    {
        if self.phase == Phase::Fired {
            self.finish(Ok(()))
        } else {
            Action::Suspend
        }
    }

    /// The interrupt source went away while the task was suspended: the call
    /// ends with `ChannelClosed` unless a matching edge had already come.
    pub fn close(&mut self) -> (r: Action)
        requires
            old(self).wf(),
            old(self).waiting(),
        ensures
            (*final(self), r) == old(self).close_spec(),
            final(self).wf(),
    {
        if self.phase == Phase::Fired {
            self.finish(Ok(()))
        } else {
            self.finish(Err(WaitError::ChannelClosed))
        }
    }
}

} // verus!
