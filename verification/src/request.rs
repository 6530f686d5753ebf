//! The fixed-width control request handed to the kernel, and the numeric
//! constants that parameterise it: the name-field width, the mode-flag
//! selectors, and the ioctl request codes.

use vstd::prelude::*;

verus! {

/// Width in bytes of the kernel's interface-name field, including the
/// terminating zero byte.
pub const IFNAMSIZ: usize = 16;

/// Mode selector: create a TAP device (whole Ethernet frames).
pub const IFF_TAP: u16 = 0x0002;

/// Mode selector: no extra per-packet metadata header.
pub const IFF_NO_PI: u16 = 0x1000;

/// Mode selector: fail if an interface of the requested name already exists.
pub const IFF_TUN_EXCL: u16 = 0x8000;

/// Administrative-state selector: interface up.
pub const IFF_UP: u16 = 0x0001;

/// Request code for "set interface administrative flags" on a control
/// socket; a kernel-defined constant, not derived by the layout formula
/// below.
pub const SIOCSIFFLAGS: u32 = 0x8914;

/// Bits of the sequence-number field of an ioctl request code.
pub const IOC_NRBITS: u32 = 8;

/// Bits of the subsystem type tag of an ioctl request code.
pub const IOC_TYPEBITS: u32 = 8;

/// Bits of the carried-structure-size field of an ioctl request code.
pub const IOC_SIZEBITS: u32 = 14;

/// Shift of the sequence-number field.
pub const IOC_NRSHIFT: u32 = 0;

/// Shift of the subsystem type tag.
pub const IOC_TYPESHIFT: u32 = IOC_NRSHIFT + IOC_NRBITS;

/// Shift of the carried-structure-size field.
pub const IOC_SIZESHIFT: u32 = IOC_TYPESHIFT + IOC_TYPEBITS;

/// Shift of the direction field.
pub const IOC_DIRSHIFT: u32 = IOC_SIZESHIFT + IOC_SIZEBITS;

/// Direction value for a write-direction request.
pub const IOC_WRITE: u32 = 1;

/// Subsystem type tag of the TUN/TAP driver: the ASCII code of `'T'`.
pub const TUN_TYPE_TAG: u32 = 0x54;

/// Sequence number of the "set TUN/TAP interface flags" request.
pub const TUNSETIFF_SEQ: u32 = 202;

/// Size in bytes of the platform's native integer, the structure size
/// carried by the "set TUN/TAP interface flags" request.
pub const NATIVE_INT_SIZE: u32 = 4;

/// The kernel's bit-layout rule for an ioctl request code: direction,
/// type tag, sequence number and carried-structure size, each shifted
/// into its field.
pub open spec fn spec_request_code(dir: u32, type_tag: u32, nr: u32, size: u32) -> u32 {
    (dir << IOC_DIRSHIFT) | (type_tag << IOC_TYPESHIFT) | (nr << IOC_NRSHIFT) | (
    size << IOC_SIZESHIFT)
}

/// Compose an ioctl request code from its four fields.
pub fn ioctl_request_code(dir: u32, type_tag: u32, nr: u32, size: u32) -> (code: u32)
    ensures
        code == spec_request_code(dir, type_tag, nr, size),
{
    (dir << IOC_DIRSHIFT) | (type_tag << IOC_TYPESHIFT) | (nr << IOC_NRSHIFT) | (
    size << IOC_SIZESHIFT)
}

/// The request code for "set TUN/TAP interface flags": a write-direction
/// request of the TUN subsystem, sequence 202, carrying one native
/// integer. The computed code equals the documented kernel constant.
pub fn tunsetiff_request_code() -> (code: u32)
    ensures
        code == spec_request_code(IOC_WRITE, TUN_TYPE_TAG, TUNSETIFF_SEQ, NATIVE_INT_SIZE),
        code == 0x400454CAu32,
{
    proof {
        assert((1u32 << 30u32) | (0x54u32 << 8u32) | (202u32 << 0u32) | (4u32 << 16u32)
            == 0x400454CAu32) by (bit_vector);
    }
    ioctl_request_code(IOC_WRITE, TUN_TYPE_TAG, TUNSETIFF_SEQ, NATIVE_INT_SIZE)
}

/// Mode-flag composition is order-independent: OR-ing three selectors,
/// such as the TAP-mode, no-extra-header and exclusive-create selectors,
/// yields the same bitset in every order.
pub proof fn lemma_mode_flags_order_independent(a: u16, b: u16, c: u16)
    ensures
        a | b | c == a | c | b,
        a | b | c == b | a | c,
        a | b | c == b | c | a,
        a | b | c == c | a | b,
        a | b | c == c | b | a,
{
    assert(a | b | c == a | c | b) by (bit_vector);
    assert(a | b | c == b | a | c) by (bit_vector);
    assert(a | b | c == b | c | a) by (bit_vector);
    assert(a | b | c == c | a | b) by (bit_vector);
    assert(a | b | c == c | b | a) by (bit_vector);
}

/// The name field as the kernel sees it: the name's bytes left-aligned in a
/// buffer of `IFNAMSIZ` bytes, every byte past the name zero.
pub open spec fn placed_name(name: Seq<u8>) -> Seq<u8> {
    Seq::new(IFNAMSIZ as nat, |i: int| if i < name.len() { name[i] } else { 0u8 })
}

/// Placing a name that fits leaves its bytes, then exactly one zero byte,
/// then a zero-filled remainder.
pub proof fn lemma_placed_name_layout(name: Seq<u8>)
    requires
        name.len() < IFNAMSIZ,
    ensures
        placed_name(name).len() == IFNAMSIZ,
        forall|i: int| 0 <= i < name.len() ==> placed_name(name)[i] == name[i],
        placed_name(name)[name.len() as int] == 0u8,
        forall|i: int| name.len() < i < IFNAMSIZ ==> placed_name(name)[i] == 0u8,
{
}

/// The control request configuring an interface: the fixed-width name
/// buffer and the mode flags. Ephemeral; built anew for every
/// provisioning attempt.
pub struct InterfaceRequest {
    name: Vec<u8>,
    mode_flags: u16,
}

impl InterfaceRequest {
    /// The name buffer holds exactly `IFNAMSIZ` bytes.
    pub closed spec fn wf(&self) -> bool {
        self.name@.len() == IFNAMSIZ
    }

    /// The bytes of the name buffer.
    pub closed spec fn name_seq(&self) -> Seq<u8> {
        self.name@
    }

    /// The mode flags.
    pub closed spec fn flags(&self) -> u16 {
        self.mode_flags
    }

    /// A request with every byte of the name buffer and every flag bit zero.
    pub fn zeroed() -> (r: InterfaceRequest)
        ensures
            r.wf(),
            r.name_seq() == placed_name(Seq::<u8>::empty()),
            r.flags() == 0u16,
    {
        let mut name: Vec<u8> = Vec::new();
        let mut i: usize = 0;
        while i < IFNAMSIZ
            invariant
                i <= IFNAMSIZ,
                name@.len() == i,
                forall|j: int| 0 <= j < i ==> name@[j] == 0u8,
            decreases IFNAMSIZ - i,
        {
            name.push(0u8);
            i = i + 1;
        }
        proof {
            assert(name@ =~= placed_name(Seq::<u8>::empty()));
        }
        InterfaceRequest { name, mode_flags: 0u16 }
    }

    /// Copy `name` into the name buffer, left-aligned, zero-terminated,
    /// the remainder zero-filled.
    pub fn place_name(&mut self, name: &[u8])
        requires
            old(self).wf(),
            name@.len() < IFNAMSIZ,
        ensures
            final(self).wf(),
            final(self).name_seq() == placed_name(name@),
            final(self).flags() == old(self).flags(),
    {
        let mut i: usize = 0;
        while i < IFNAMSIZ
            invariant
                i <= IFNAMSIZ,
                self.wf(),
                name@.len() < IFNAMSIZ,
                forall|j: int| 0 <= j < i ==> self.name_seq()[j] == placed_name(name@)[j],
                self.flags() == old(self).flags(),
            decreases IFNAMSIZ - i,
        {
            if i < name.len() {
                let b = name[i];
                self.name.set(i, b);
            } else {
                self.name.set(i, 0u8);
            }
            i = i + 1;
        }
        proof {
            assert(self.name_seq() =~= placed_name(name@));
        }
    }

    /// Overwrite the mode flags; the name buffer is untouched.
    pub fn set_mode_flags(&mut self, flags: u16)
        requires
            old(self).wf(),
        ensures
            final(self).wf(),
            final(self).flags() == flags,
            final(self).name_seq() == old(self).name_seq(),
    {
        self.mode_flags = flags;
    }

    /// The name buffer, for marshalling into the operating system's
    /// structure.
    pub fn name_bytes(&self) -> (r: &Vec<u8>)
        ensures
            r@ == self.name_seq(),
    {
        &self.name
    }

    /// The mode flags, for marshalling into the operating system's
    /// structure.
    pub fn mode_flags(&self) -> (r: u16)
        ensures
            r == self.flags(),
    {
        self.mode_flags
    }
}

} // verus!
