//! The service's dealings with the Windows service control manager: how it
//! answers control requests, the exit code it reports, and when it runs from
//! the command line instead.

use vstd::prelude::*;

verus! {

/// The system error for a process that the service control manager did not start.
pub const SERVICE_CONTROLLER_CONNECT_FAILED: i32 = 1063;

/// A control request the system sends the running service.
#[derive(Clone, Copy, PartialEq, Eq, Structural, Debug)]
pub enum ServiceControlEvent {
    Stop,
    Interrogate,
    /// Any other control request.
    Other,
}

/// The service's answer to a control request.
#[derive(Clone, Copy, PartialEq, Eq, Structural, Debug)]
pub enum ControlAnswer {
    NoError,
    NotImplemented,
}

/// Answers a control request, and says whether the service is to shut
/// down: a stop is accepted and shuts the service down, an interrogation is
/// accepted, any other request is not implemented.
pub fn handle_control(event: ServiceControlEvent) -> (r: (ControlAnswer, bool))
    ensures
        r.1 == (event == ServiceControlEvent::Stop),
        r.0 == (if event == ServiceControlEvent::Other { ControlAnswer::NotImplemented } else { ControlAnswer::NoError }),
{
    match event {
        ServiceControlEvent::Stop => (ControlAnswer::NoError, true),
        ServiceControlEvent::Interrogate => (ControlAnswer::NoError, false),
        ServiceControlEvent::Other => (ControlAnswer::NotImplemented, false),
    }
}

/// The exit code the stopped service reports: 0 when it ran to its end, 1
/// when it failed.
pub fn service_exit_code(succeeded: bool) -> (c: u32)
    ensures
        c == (if succeeded { 0u32 } else { 1u32 }),
{
    if succeeded {
        0
    } else {
        1
    }
}

/// Whether the service dispatcher failed because the process was not started
/// by the service control manager, in which case the service runs from the
/// command line.
pub fn runs_outside_service_framework(raw_os_error: i32) -> (b: bool)
    ensures
        b == (raw_os_error == SERVICE_CONTROLLER_CONNECT_FAILED),
{
    raw_os_error == SERVICE_CONTROLLER_CONNECT_FAILED
}

} // verus!
