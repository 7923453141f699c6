//! The replaceable endpoint slot of the Iroh provider. The runtime closes
//! an idle endpoint and binds it again later under the same identity; each
//! close or rebind moves the endpoint generation, so work that captured an
//! older endpoint can be refused. The route generation moves with it, and a
//! closed endpoint's route is stale until a rebind. A terminated slot never
//! binds again.
use vstd::prelude::*;
use crate::iroh_config::IrohIdentityError;

verus! {

/// What the slot knows of its endpoint.
#[derive(Clone, Copy, Debug, PartialEq, Eq, Structural)]
pub struct EndpointSlotState {
    /// An endpoint is bound.
    pub active: bool,
    /// The slot was terminated.
    pub terminated: bool,
    /// Moves whenever the endpoint is closed or bound again.
    pub generation: u64,
    /// Moves whenever the advertised address may have changed.
    pub route_generation: u64,
    /// The advertised address must not be handed out.
    pub route_stale: bool,
}

/// What waiting for the current endpoint comes to.
#[derive(Clone, Copy, Debug, PartialEq, Eq, Structural)]
pub enum WaitStep {
    /// An endpoint is bound: use it.
    Ready,
    /// The slot was terminated: there will be none.
    Gone,
    /// Wait for the next activation or termination.
    Wait,
}

/// The slot after closing its endpoint, if one is bound.
pub open spec fn after_deactivate(s: EndpointSlotState) -> EndpointSlotState {
    if s.active {
        EndpointSlotState {
            active: false,
            terminated: s.terminated,
            generation: s.generation.wrapping_add(1),
            route_generation: s.route_generation.wrapping_add(1),
            route_stale: true,
        }
    } else {
        s
    }
}

/// The slot after termination.
pub open spec fn after_terminate(s: EndpointSlotState) -> EndpointSlotState {
    after_deactivate(EndpointSlotState { terminated: true, ..s })
}

/// Whether an activation binds (`Some(true)`), finds an endpoint bound
/// (`Some(false)`) or is refused (`None`).
pub open spec fn activation_of(s: EndpointSlotState) -> Option<bool> {
    if s.terminated {
        None
    } else {
        Some(!s.active)
    }
}

/// What a waiter for the current endpoint does in `s`.
pub open spec fn wait_step_of(s: EndpointSlotState) -> WaitStep {
    if s.active {
        WaitStep::Ready
    } else if s.terminated {
        WaitStep::Gone
    } else {
        WaitStep::Wait
    }
}

impl EndpointSlotState {
    /// A slot holding a freshly bound endpoint.
    pub fn new() -> (r: Self)
        ensures
            r.active,
            !r.terminated,
            r.generation == 0,
            r.route_generation == 0,
            !r.route_stale,
    {
        EndpointSlotState { active: true, terminated: false, generation: 0, route_generation: 0, route_stale: false }
    }

    /// Whether the current address may be advertised.
    pub fn route_is_fresh(&self) -> (r: bool)
        ensures
            r == !self.route_stale,
    {
        !self.route_stale
    }

    /// Closes the endpoint, if one is bound: its route becomes stale and
    /// both generations move. Says whether an endpoint was closed.
    pub fn deactivate(&mut self) -> (closed: bool)
        ensures
            closed == old(self).active,
            *final(self) == after_deactivate(*old(self)),
    {
        if !self.active {
            return false;
        }
        self.active = false;
        self.route_stale = true;
        self.generation = self.generation.wrapping_add(1);
        self.route_generation = self.route_generation.wrapping_add(1);
        true
    }

    /// Terminates the slot and closes its endpoint; says whether an endpoint
    /// was closed.
    pub fn terminate(&mut self) -> (closed: bool)
        ensures
            closed == old(self).active,
            *final(self) == after_terminate(*old(self)),
    {
        self.terminated = true;
        self.deactivate()
    }

    /// Before an activation: `Ok(true)` when an endpoint must be bound,
    /// `Ok(false)` when one already is, an error once terminated.
    pub fn activation(&self) -> (r: Result<bool, IrohIdentityError>)
        ensures
            match r {
                Err(e) => activation_of(*self) is None && (e matches IrohIdentityError::Bind(m) && m@
                    == "endpoint slot is terminated"@),
                Ok(bind) => activation_of(*self) == Some(bind),
            },
    {
        if self.terminated {
            return Err(IrohIdentityError::Bind("endpoint slot is terminated".to_owned()));
        }
        Ok(!self.active)
    }

    /// A new endpoint was bound: its route is fresh and both generations
    /// move.
    pub fn activated(&mut self)
        requires
            !old(self).terminated,
            !old(self).active,
        ensures
            final(self).active,
            !final(self).terminated,
            !final(self).route_stale,
            final(self).generation == old(self).generation.wrapping_add(1),
            final(self).route_generation == old(self).route_generation.wrapping_add(1),
    {
        self.active = true;
        self.route_stale = false;
        self.generation = self.generation.wrapping_add(1);
        self.route_generation = self.route_generation.wrapping_add(1);
    }

    /// What a waiter for the current endpoint does now.
    pub fn wait_step(&self) -> (r: WaitStep)
        ensures
            r == wait_step_of(*self),
    {
        if self.active {
            WaitStep::Ready
        } else if self.terminated {
            WaitStep::Gone
        } else {
            WaitStep::Wait
        }
    }
}

/// Law: termination is final. A terminated slot stays terminated and
/// without an endpoint through any later close or termination, refuses
/// every activation, and tells waiters that no endpoint will come.
pub proof fn terminated_slot_never_binds(s: EndpointSlotState)
    requires
        s.terminated,
    ensures
        after_deactivate(s).terminated,
        after_terminate(s).terminated,
        !after_terminate(s).active,
        activation_of(s) is None,
        activation_of(after_deactivate(s)) is None,
        wait_step_of(after_deactivate(s)) == WaitStep::Gone,
{
}

/// Law: every close of a bound endpoint and every rebind moves the
/// endpoint generation, so work that captured an endpoint can tell it has
/// been replaced; a close leaves the route stale.
pub proof fn replacing_the_endpoint_moves_the_generation(s: EndpointSlotState)
    requires
        s.active,
    ensures
        after_deactivate(s).generation != s.generation,
        after_deactivate(s).route_stale,
        !after_deactivate(s).active,
{
}

} // verus!
