//! Trusted boundary to the kernel eventfd objects the device signals with:
//! the activation event, the queue kick events, and the interrupt line.

use vstd::prelude::*;
use vmm_sys_util::eventfd::EventFd;

verus! {

#[verifier::external_type_specification]
#[verifier::external_body]
pub struct ExEventFd(EventFd);

#[verifier::external_type_specification]
#[verifier::external_body]
pub struct ExIoError(std::io::Error);

/// Relies on vmm_sys_util::eventfd::EventFd::new, called with
/// libc::EFD_NONBLOCK: creates a fresh nonblocking eventfd or reports the
/// kernel's refusal. Nothing is promised of the outcome.
#[verifier::external_body]
pub(crate) fn eventfd_new() -> (r: Result<EventFd, std::io::Error>) {
    EventFd::new(libc::EFD_NONBLOCK)
}

/// Relies on vmm_sys_util::eventfd::EventFd::write: adds `v` to the eventfd's
/// counter. Nothing is promised of the outcome.
#[verifier::external_body]
pub(crate) fn eventfd_write(ev: &EventFd, v: u64) -> (r: Result<(), std::io::Error>) {
    ev.write(v)
}

/// Relies on vmm_sys_util::eventfd::EventFd::read: drains and returns the
/// eventfd's counter. Nothing is promised of the outcome.
#[verifier::external_body]
pub(crate) fn eventfd_read(ev: &EventFd) -> (r: Result<u64, std::io::Error>) {
    ev.read()
}

} // verus!
