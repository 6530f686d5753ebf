//! Provisioning of a TAP-style virtual network interface.
//!
//! The library contains the decision logic of the provisioning sequence:
//! validating the requested interface name, building the fixed-width
//! control request (name buffer and mode flags), deriving the numeric
//! ioctl request code from the kernel's bit-layout rules, and the state
//! machine that orders the operating-system steps and maps each failure
//! to an error. The operating-system calls themselves (opening the
//! control device node, issuing the ioctls, opening the control socket)
//! are performed by an unverified driver that follows the state machine.

pub mod provision;
pub mod request;
