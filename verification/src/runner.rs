//! The two small state machines that drive the run phase: what the
//! vCPU worker does with each exit, and what the host event loop does
//! with each readiness token.
//!
//! The loops themselves block in host-kernel calls (the vCPU run
//! operation, the readiness poll), so the front end runs them; each
//! iteration hands the observed event to these functions and performs
//! the returned action.

use vstd::prelude::*;

verus! {

/// A vCPU exit, as the worker classifies it.
#[derive(Clone, Copy, Debug, PartialEq, Eq, Structural)]
pub enum VcpuEvent {
    /// The guest executed `in`: a port read waits for data.
    IoIn,
    /// The guest executed `out`: a port write carries data.
    IoOut,
    /// A read of unmapped MMIO space.
    MmioRead,
    /// A write of unmapped MMIO space.
    MmioWrite,
    /// The guest halted.
    Hlt,
    /// The guest requested shutdown.
    Shutdown,
    /// Any other exit kind.
    Unsupported,
    /// The run operation itself failed.
    RunError,
}

/// What the worker does after an exit.
#[derive(Clone, Copy, Debug, PartialEq, Eq, Structural)]
pub enum VcpuAction {
    /// Route a read through the port-I/O bus, then resume the guest.
    BusRead,
    /// Route a write through the port-I/O bus, then resume the guest.
    BusWrite,
    /// Log the event and resume the guest.
    LogAndContinue,
    /// Leave the loop and fire the exit signal.
    Stop,
}

/// The worker's action for each exit kind.
pub open spec fn spec_vcpu_action(event: VcpuEvent) -> VcpuAction {
    match event {
        VcpuEvent::IoIn => VcpuAction::BusRead,
        VcpuEvent::IoOut => VcpuAction::BusWrite,
        VcpuEvent::MmioRead => VcpuAction::LogAndContinue,
        VcpuEvent::MmioWrite => VcpuAction::LogAndContinue,
        VcpuEvent::Hlt => VcpuAction::Stop,
        VcpuEvent::Shutdown => VcpuAction::Stop,
        VcpuEvent::Unsupported => VcpuAction::Stop,
        VcpuEvent::RunError => VcpuAction::Stop,
    }
}

/// Decides the worker's next step: port I/O is routed to the bus, MMIO
/// is logged and the guest resumed, and a halt, a shutdown, an
/// unsupported exit or a run error ends the loop.
pub fn handle_vcpu_exit(event: &VcpuEvent) -> (a: VcpuAction)
    ensures
        a == spec_vcpu_action(*event),
{
    match event {
        VcpuEvent::IoIn => VcpuAction::BusRead,
        VcpuEvent::IoOut => VcpuAction::BusWrite,
        VcpuEvent::MmioRead => VcpuAction::LogAndContinue,
        VcpuEvent::MmioWrite => VcpuAction::LogAndContinue,
        VcpuEvent::Hlt => VcpuAction::Stop,
        VcpuEvent::Shutdown => VcpuAction::Stop,
        VcpuEvent::Unsupported => VcpuAction::Stop,
        VcpuEvent::RunError => VcpuAction::Stop,
    }
}

/// The poll token of the vCPU exit signal.
pub const TOKEN_VCPU_EXIT: u32 = 0;

/// The poll token of host stdin readability.
pub const TOKEN_STDIN: u32 = 1;

/// What the host event loop does with a readable token.
#[derive(Clone, Copy, Debug, PartialEq, Eq, Structural)]
pub enum HostAction {
    /// The vCPU stopped: leave the loop and return success.
    Finish,
    /// Stdin is readable: read up to its buffer and feed the serial
    /// port's RX queue.
    FeedSerial,
}

/// Decides the host event loop's step for a readiness token: the exit
/// signal ends the loop, stdin feeds the console, and no other token
/// is ever registered.
pub fn handle_host_token(token: u32) -> (a: Option<HostAction>)
    ensures
        token == TOKEN_VCPU_EXIT ==> a == Some(HostAction::Finish),
        token == TOKEN_STDIN ==> a == Some(HostAction::FeedSerial),
        token != TOKEN_VCPU_EXIT && token != TOKEN_STDIN ==> a is None,
{
    if token == TOKEN_VCPU_EXIT {
        Some(HostAction::Finish)
    } else if token == TOKEN_STDIN {
        Some(HostAction::FeedSerial)
    } else {
        None
    }
}

} // verus!
