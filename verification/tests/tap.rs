use virtual_interface::provision::{
    validate_name, ProvisionAction, Provisioner, StepOutcome,
    VirtualInterfaceError,
};
use virtual_interface::request::{
    ioctl_request_code, tunsetiff_request_code, InterfaceRequest, IFF_NO_PI, IFF_TAP,
    IFF_TUN_EXCL, IFF_UP, IFNAMSIZ, SIOCSIFFLAGS,
};

#[test]
fn interface_long_name() {
    match Provisioner::begin("abcdefghijklomnpqrstuv".as_bytes(), true) {
        Err(VirtualInterfaceError::DeviceNameTooLong) => return,
        _ => panic!("device name shouldn't be more than 20 chars"),
    };
}

#[test]
fn interface_name_contains_zero_byte() {
    match Provisioner::begin("dev\0ds0".as_bytes(), true) {
        Err(VirtualInterfaceError::DeviceNameContainsNulByte(_)) => return,
        _ => panic!("device name shouldn't contain zero byte"),
    };
}

#[test]
fn nul_byte_reported_at_first_index() {
    match validate_name("dev\0ds\0".as_bytes()) {
        Err(VirtualInterfaceError::DeviceNameContainsNulByte(i)) => assert_eq!(i, 3),
        other => panic!("expected a nul-byte rejection, got {:?}", other),
    }
}

#[test]
fn length_is_checked_before_nul_bytes() {
    let name = "aaaaaaaaaaaaaaaaaaa\0a";
    match validate_name(name.as_bytes()) {
        Err(VirtualInterfaceError::DeviceNameTooLong) => {}
        other => panic!("expected the length rejection first, got {:?}", other),
    }
}

#[test]
fn name_length_boundary() {
    let longest_accepted = "aaaaaaaaaaaaaa"; // IFNAMSIZ - 2 bytes
    assert!(validate_name(longest_accepted.as_bytes()).is_ok());
    let shortest_rejected = "aaaaaaaaaaaaaaa"; // IFNAMSIZ - 1 bytes
    match validate_name(shortest_rejected.as_bytes()) {
        Err(VirtualInterfaceError::DeviceNameTooLong) => {}
        other => panic!("expected DeviceNameTooLong, got {:?}", other),
    }
}

#[test]
fn empty_name_is_accepted_by_validation() {
    assert!(validate_name(&[]).is_ok());
}

#[test]
fn tunsetiff_code_matches_kernel_constant() {
    assert_eq!(tunsetiff_request_code(), 0x400454CA);
}

#[test]
fn request_code_formula_exact_values() {
    // write-direction, type tag 'T', sequence 202, one 4-byte native integer
    assert_eq!(ioctl_request_code(1, 0x54, 202, 4), 0x400454CA);
    // no direction bit, no carried structure
    assert_eq!(ioctl_request_code(0, 0x54, 201, 0), 0x54C9);
}

#[test]
fn siocsifflags_is_the_kernel_constant() {
    assert_eq!(SIOCSIFFLAGS, 0x8914);
}

#[test]
fn mode_flags_or_is_order_independent() {
    let expected = IFF_TAP | IFF_NO_PI | IFF_TUN_EXCL;
    assert_eq!(expected, 0x9002);
    assert_eq!(IFF_TAP | IFF_TUN_EXCL | IFF_NO_PI, expected);
    assert_eq!(IFF_NO_PI | IFF_TAP | IFF_TUN_EXCL, expected);
    assert_eq!(IFF_NO_PI | IFF_TUN_EXCL | IFF_TAP, expected);
    assert_eq!(IFF_TUN_EXCL | IFF_TAP | IFF_NO_PI, expected);
    assert_eq!(IFF_TUN_EXCL | IFF_NO_PI | IFF_TAP, expected);
}

#[test]
fn zeroed_request_is_all_zero() {
    let r = InterfaceRequest::zeroed();
    let bytes = r.name_bytes();
    assert_eq!(bytes.len(), IFNAMSIZ);
    for &b in bytes.iter() {
        assert_eq!(b, 0);
    }
    assert_eq!(r.mode_flags(), 0);
}

#[test]
fn placed_name_is_terminated_and_zero_filled() {
    let mut r = InterfaceRequest::zeroed();
    r.place_name("dev0".as_bytes());
    let bytes = r.name_bytes();
    assert_eq!(&bytes[..4], "dev0".as_bytes());
    for i in 4..IFNAMSIZ {
        assert_eq!(bytes[i], 0);
    }
}

#[test]
fn placed_name_of_field_width_minus_one_bytes() {
    let name = "abcdefghijklmno"; // IFNAMSIZ - 1 ASCII bytes
    assert_eq!(name.len(), IFNAMSIZ - 1);
    let mut r = InterfaceRequest::zeroed();
    r.place_name(name.as_bytes());
    let bytes = r.name_bytes();
    assert_eq!(&bytes[..IFNAMSIZ - 1], name.as_bytes());
    assert_eq!(bytes[IFNAMSIZ - 1], 0);
}

#[test]
fn placement_overwrites_a_longer_earlier_name() {
    let mut r = InterfaceRequest::zeroed();
    r.place_name("abcdefghijkl".as_bytes());
    r.place_name("tap1".as_bytes());
    let bytes = r.name_bytes();
    assert_eq!(&bytes[..4], "tap1".as_bytes());
    for i in 4..IFNAMSIZ {
        assert_eq!(bytes[i], 0);
    }
}

#[test]
fn begin_builds_the_creation_request() {
    let p = Provisioner::begin("dev0".as_bytes(), true).unwrap();
    let request = p.request();
    assert_eq!(request.mode_flags(), IFF_TAP | IFF_NO_PI | IFF_TUN_EXCL);
    let bytes = request.name_bytes();
    assert_eq!(&bytes[..4], "dev0".as_bytes());
    for i in 4..IFNAMSIZ {
        assert_eq!(bytes[i], 0);
    }
}

#[test]
fn activated_sequence_runs_in_order() {
    let mut p = Provisioner::begin("dev0".as_bytes(), true).unwrap();
    assert_eq!(p.next_action(), ProvisionAction::OpenControlDevice);
    assert!(p.advance(StepOutcome::Success).is_ok());
    assert_eq!(p.next_action(), ProvisionAction::IssueCreateRequest);
    assert!(p.advance(StepOutcome::Success).is_ok());
    assert_eq!(p.next_action(), ProvisionAction::OpenControlSocket);
    assert!(p.advance(StepOutcome::Success).is_ok());
    // the request now asks for administrative up, with the name untouched
    assert_eq!(p.request().mode_flags(), IFF_UP);
    assert_eq!(&p.request().name_bytes()[..4], "dev0".as_bytes());
    assert_eq!(p.next_action(), ProvisionAction::IssueActivateRequest);
    assert!(p.advance(StepOutcome::Success).is_ok());
    assert_eq!(p.next_action(), ProvisionAction::Complete);
}

#[test]
fn plain_sequence_skips_activation() {
    let mut p = Provisioner::begin("dev0".as_bytes(), false).unwrap();
    assert!(p.advance(StepOutcome::Success).is_ok());
    assert!(p.advance(StepOutcome::Success).is_ok());
    // configured and not activating: nothing is left to do
    assert_eq!(p.next_action(), ProvisionAction::Complete);
    assert_eq!(p.request().mode_flags(), IFF_TAP | IFF_NO_PI | IFF_TUN_EXCL);
}

#[test]
fn open_failure_wraps_the_os_code() {
    let mut p = Provisioner::begin("dev0".as_bytes(), true).unwrap();
    assert_eq!(p.next_action(), ProvisionAction::OpenControlDevice);
    match p.advance(StepOutcome::Failure(13)) {
        Err(VirtualInterfaceError::IoError(code)) => assert_eq!(code, 13),
        other => panic!("expected IoError, got {:?}", other),
    }
}

#[test]
fn rejected_creation_call_is_an_ioctl_error() {
    // what a name collision under exclusive create comes back as: the
    // creation control call fails, and the attempt reports IoctlError
    let mut p = Provisioner::begin("dev0".as_bytes(), true).unwrap();
    assert!(p.advance(StepOutcome::Success).is_ok());
    assert_eq!(p.next_action(), ProvisionAction::IssueCreateRequest);
    match p.advance(StepOutcome::Failure(-1)) {
        Err(VirtualInterfaceError::IoctlError) => {}
        other => panic!("expected IoctlError, got {:?}", other),
    }
}

#[test]
fn socket_failure_is_a_socket_error() {
    let mut p = Provisioner::begin("dev0".as_bytes(), true).unwrap();
    assert!(p.advance(StepOutcome::Success).is_ok());
    assert!(p.advance(StepOutcome::Success).is_ok());
    assert_eq!(p.next_action(), ProvisionAction::OpenControlSocket);
    match p.advance(StepOutcome::Failure(-1)) {
        Err(VirtualInterfaceError::SocketError) => {}
        other => panic!("expected SocketError, got {:?}", other),
    }
}

#[test]
fn rejected_activation_call_is_an_ioctl_error() {
    let mut p = Provisioner::begin("dev0".as_bytes(), true).unwrap();
    assert!(p.advance(StepOutcome::Success).is_ok());
    assert!(p.advance(StepOutcome::Success).is_ok());
    assert!(p.advance(StepOutcome::Success).is_ok());
    assert_eq!(p.next_action(), ProvisionAction::IssueActivateRequest);
    match p.advance(StepOutcome::Failure(-1)) {
        Err(VirtualInterfaceError::IoctlError) => {}
        other => panic!("expected IoctlError, got {:?}", other),
    }
}

#[test]
fn failure_leaves_the_state_in_place() {
    let mut p = Provisioner::begin("dev0".as_bytes(), true).unwrap();
    assert!(p.advance(StepOutcome::Success).is_ok());
    assert_eq!(p.next_action(), ProvisionAction::IssueCreateRequest);
    assert!(p.advance(StepOutcome::Failure(-1)).is_err());
    // the pending step is unchanged after the failure was reported
    assert_eq!(p.next_action(), ProvisionAction::IssueCreateRequest);
}
