//! The provisioning sequence: name validation, the error taxonomy, and the
//! state machine ordering the operating-system steps of interface creation.
//!
//! A provisioner is created by [`Provisioner::begin`], which validates the
//! requested name and builds the control request; no operating-system step
//! is reachable before validation has passed. The unverified driver then
//! repeatedly asks [`Provisioner::next_action`] what to do, performs the
//! step, and reports the outcome to [`Provisioner::advance`], which either
//! moves to the next state or maps the failure to its error.

use vstd::prelude::*;

use crate::request::{placed_name, InterfaceRequest, IFF_NO_PI, IFF_TAP, IFF_TUN_EXCL, IFF_UP,
    IFNAMSIZ};

verus! {

/// Why a provisioning attempt failed. Every failure is terminal: nothing
/// is retried, and no partial result is handed back.
#[derive(Debug, Clone, Copy, PartialEq, Eq, Structural)]
pub enum VirtualInterfaceError {
    /// Opening the control device node failed; carries the operating
    /// system's error code.
    IoError(i32),
    /// A control call returned the failure sentinel: the creation or the
    /// activation step was rejected by the operating system.
    IoctlError,
    /// The requested name does not fit the name field with its
    /// terminating zero byte reserved.
    DeviceNameTooLong,
    /// The requested name holds an embedded zero byte; carries the index
    /// of the first one.
    DeviceNameContainsNulByte(usize),
    /// Opening the control socket for the activation step failed.
    SocketError,
}

/// The requested name is too long for the name field once the
/// terminating zero byte is reserved.
pub open spec fn name_too_long(name: Seq<u8>) -> bool {
    name.len() >= IFNAMSIZ - 1
}

/// The requested name holds a zero byte somewhere.
pub open spec fn has_nul_byte(name: Seq<u8>) -> bool {
    exists|i: int| 0 <= i < name.len() && name[i] == 0u8
}

/// A name the provisioner accepts: short enough and free of zero bytes.
pub open spec fn valid_name(name: Seq<u8>) -> bool {
    !name_too_long(name) && !has_nul_byte(name)
}

/// Check the requested name, length first: a name too long is rejected as
/// [`VirtualInterfaceError::DeviceNameTooLong`] even if it also holds a
/// zero byte, and an embedded zero byte is reported at its first index.
pub fn validate_name(name: &[u8]) -> (r: Result<(), VirtualInterfaceError>)
    ensures
        r is Ok <==> valid_name(name@),
        name_too_long(name@) ==> r == Err::<(), VirtualInterfaceError>(
            VirtualInterfaceError::DeviceNameTooLong,
        ),
        !name_too_long(name@) && has_nul_byte(name@) ==> (r matches Err(
            VirtualInterfaceError::DeviceNameContainsNulByte(i),
        ) && 0 <= i < name@.len() && name@[i as int] == 0u8 && (forall|j: int|
            0 <= j < i ==> name@[j] != 0u8)),
{
    if name.len() >= IFNAMSIZ - 1 {
        return Err(VirtualInterfaceError::DeviceNameTooLong);
    }
    let mut i: usize = 0;
    while i < name.len()
        invariant
            i <= name@.len(),
            !name_too_long(name@),
            forall|j: int| 0 <= j < i ==> name@[j] != 0u8,
        decreases name@.len() - i,
    {
        if name[i] == 0u8 {
            return Err(VirtualInterfaceError::DeviceNameContainsNulByte(i));
        }
        i = i + 1;
    }
    Ok(())
}

/// Where a provisioning attempt stands. The states follow the creation
/// sequence in order; any state can fall to a failure, which
/// [`Provisioner::advance`] reports as an error instead of a state.
#[derive(Debug, Clone, Copy, PartialEq, Eq, Structural)]
pub enum ProvisionState {
    /// The name passed validation; the control device node is not yet open.
    Validated,
    /// The control device node is open.
    DeviceOpened,
    /// The creation control call succeeded: the interface exists.
    Configured,
    /// The control socket for activation is open and the request now
    /// carries the administrative-up flag.
    ActivationRequested,
    /// The sequence is complete; the open device handle is the interface.
    Ready,
}

/// The one step the driver must perform next.
#[derive(Debug, Clone, Copy, PartialEq, Eq, Structural)]
pub enum ProvisionAction {
    /// Open the control device node for reading and writing.
    OpenControlDevice,
    /// Issue the "set TUN/TAP interface flags" control call with the
    /// request against the open device handle.
    IssueCreateRequest,
    /// Open a datagram control socket in the IPv4 address family.
    OpenControlSocket,
    /// Issue the "set interface administrative flags" control call with
    /// the request against the control socket.
    IssueActivateRequest,
    /// Nothing is left to do: wrap the device handle and return it.
    Complete,
}

/// How a performed step went: success, or failure with the operating
/// system's error code (meaningful only for opening the device node).
#[derive(Debug, Clone, Copy, PartialEq, Eq, Structural)]
pub enum StepOutcome {
    Success,
    Failure(i32),
}

/// The step a provisioner in `state` asks for. Activation is an
/// explicitly toggled part of the sequence: without it the sequence is
/// complete once the interface is configured.
pub open spec fn spec_next_action(state: ProvisionState, activate: bool) -> ProvisionAction {
    match state {
        ProvisionState::Validated => ProvisionAction::OpenControlDevice,
        ProvisionState::DeviceOpened => ProvisionAction::IssueCreateRequest,
        ProvisionState::Configured => if activate {
            ProvisionAction::OpenControlSocket
        } else {
            ProvisionAction::Complete
        },
        ProvisionState::ActivationRequested => ProvisionAction::IssueActivateRequest,
        ProvisionState::Ready => ProvisionAction::Complete,
    }
}

/// The state a provisioner in `state` reaches when its pending step
/// succeeds.
pub open spec fn spec_next_state(state: ProvisionState, activate: bool) -> ProvisionState {
    match state {
        ProvisionState::Validated => ProvisionState::DeviceOpened,
        ProvisionState::DeviceOpened => ProvisionState::Configured,
        ProvisionState::Configured => if activate {
            ProvisionState::ActivationRequested
        } else {
            ProvisionState::Ready
        },
        ProvisionState::ActivationRequested => ProvisionState::Ready,
        ProvisionState::Ready => ProvisionState::Ready,
    }
}

/// The error a provisioner in `state` reports when its pending step
/// fails: an open of the device node wraps the operating system's code,
/// an open of the control socket is a socket error, and a rejected
/// control call is an ioctl error.
pub open spec fn spec_failure_error(state: ProvisionState, code: i32) -> VirtualInterfaceError {
    match state {
        ProvisionState::Validated => VirtualInterfaceError::IoError(code),
        ProvisionState::DeviceOpened => VirtualInterfaceError::IoctlError,
        ProvisionState::Configured => VirtualInterfaceError::SocketError,
        ProvisionState::ActivationRequested => VirtualInterfaceError::IoctlError,
        ProvisionState::Ready => VirtualInterfaceError::IoctlError,
    }
}

/// One provisioning attempt: the control request being configured, the
/// position in the sequence, and whether the activation steps are part
/// of it.
pub struct Provisioner {
    request: InterfaceRequest,
    state: ProvisionState,
    activate: bool,
}

impl Provisioner {
    /// The request buffer is well-formed.
    pub closed spec fn wf(&self) -> bool {
        self.request.wf()
    }

    /// Where the attempt stands.
    pub closed spec fn spec_state(&self) -> ProvisionState {
        self.state
    }

    /// Whether the attempt includes the activation steps.
    pub closed spec fn spec_activate(&self) -> bool {
        self.activate
    }

    /// The control request as it currently stands.
    pub closed spec fn spec_request(&self) -> InterfaceRequest {
        self.request
    }

    /// Start a provisioning attempt: validate `name` (length first, then
    /// embedded zero bytes) and, if it is valid, build the control
    /// request with the name placed in the buffer and the mode flags set
    /// to TAP mode, no extra packet-info header, exclusive create. No
    /// operating-system step is requested before this succeeds.
    pub fn begin(name: &[u8], activate: bool) -> (r: Result<Provisioner, VirtualInterfaceError>)
        ensures
            r is Ok <==> valid_name(name@),
            name_too_long(name@) ==> r == Err::<Provisioner, VirtualInterfaceError>(
                VirtualInterfaceError::DeviceNameTooLong,
            ),
            !name_too_long(name@) && has_nul_byte(name@) ==> (r matches Err(
                VirtualInterfaceError::DeviceNameContainsNulByte(i),
            ) && 0 <= i < name@.len() && name@[i as int] == 0u8 && (forall|j: int|
                0 <= j < i ==> name@[j] != 0u8)),
            r matches Ok(p) ==> p.wf() && p.spec_state() == ProvisionState::Validated
                && p.spec_activate() == activate && p.spec_request().name_seq() == placed_name(
                name@,
            ) && p.spec_request().flags() == (IFF_TAP | IFF_NO_PI | IFF_TUN_EXCL),
    {
        match validate_name(name) {
            Err(e) => Err(e),
            Ok(()) => {
                let mut request = InterfaceRequest::zeroed();
                request.place_name(name);
                request.set_mode_flags(IFF_TAP | IFF_NO_PI | IFF_TUN_EXCL);
                Ok(Provisioner { request, state: ProvisionState::Validated, activate })
            },
        }
    }

    /// The step the driver must perform next.
    pub fn next_action(&self) -> (a: ProvisionAction)
        ensures
            a == spec_next_action(self.spec_state(), self.spec_activate()),
    {
        match self.state {
            ProvisionState::Validated => ProvisionAction::OpenControlDevice,
            ProvisionState::DeviceOpened => ProvisionAction::IssueCreateRequest,
            ProvisionState::Configured => if self.activate {
                ProvisionAction::OpenControlSocket
            } else {
                ProvisionAction::Complete
            },
            ProvisionState::ActivationRequested => ProvisionAction::IssueActivateRequest,
            ProvisionState::Ready => ProvisionAction::Complete,
        }
    }

    /// Record the outcome of the pending step. On success the attempt
    /// moves one state forward; when the control socket has just been
    /// opened, the request's flags are overwritten with the
    /// administrative-up selector for the activation call. On failure
    /// the state is unchanged and the step's error is returned. The name
    /// buffer is never touched after `begin`.
    pub fn advance(&mut self, outcome: StepOutcome) -> (r: Result<(), VirtualInterfaceError>)
        requires
            old(self).wf(),
            old(self).spec_state() != ProvisionState::Ready,
            outcome is Failure ==> spec_next_action(old(self).spec_state(), old(self).spec_activate())
                != ProvisionAction::Complete,
        ensures
            final(self).wf(),
            final(self).spec_activate() == old(self).spec_activate(),
            final(self).spec_request().name_seq() == old(self).spec_request().name_seq(),
            match outcome {
                StepOutcome::Success => r is Ok && final(self).spec_state() == spec_next_state(
                    old(self).spec_state(),
                    old(self).spec_activate(),
                ),
                StepOutcome::Failure(code) => r == Err::<(), VirtualInterfaceError>(
                    spec_failure_error(old(self).spec_state(), code),
                ) && final(self).spec_state() == old(self).spec_state(),
            },
            (outcome is Success && old(self).spec_state() == ProvisionState::Configured && old(
                self,
            ).spec_activate()) ==> final(self).spec_request().flags() == IFF_UP,
            !(outcome is Success && old(self).spec_state() == ProvisionState::Configured && old(
                self,
            ).spec_activate()) ==> final(self).spec_request().flags() == old(
                self,
            ).spec_request().flags(),
    {
        match outcome {
            StepOutcome::Success => {
                match self.state {
                    ProvisionState::Validated => {
                        self.state = ProvisionState::DeviceOpened;
                    },
                    ProvisionState::DeviceOpened => {
                        self.state = ProvisionState::Configured;
                    },
                    ProvisionState::Configured => {
                        if self.activate {
                            self.request.set_mode_flags(IFF_UP);
                            self.state = ProvisionState::ActivationRequested;
                        } else {
                            self.state = ProvisionState::Ready;
                        }
                    },
                    ProvisionState::ActivationRequested => {
                        self.state = ProvisionState::Ready;
                    },
                    ProvisionState::Ready => {},
                }
                Ok(())
            },
            StepOutcome::Failure(code) => {
                match self.state {
                    ProvisionState::Validated => Err(VirtualInterfaceError::IoError(code)),
                    ProvisionState::DeviceOpened => Err(VirtualInterfaceError::IoctlError),
                    ProvisionState::Configured => Err(VirtualInterfaceError::SocketError),
                    ProvisionState::ActivationRequested => Err(VirtualInterfaceError::IoctlError),
                    ProvisionState::Ready => Err(VirtualInterfaceError::IoctlError),
                }
            },
        }
    }

    /// The control request, for marshalling into the operating system's
    /// structure before a control call.
    pub fn request(&self) -> (r: &InterfaceRequest)
        ensures
            r == self.spec_request(),
    {
        &self.request
    }
}

} // verus!
