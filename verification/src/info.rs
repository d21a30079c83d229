use vstd::prelude::*;

verus! {

/// `LO_FLAGS_READ_ONLY`: the device refuses writes.
pub const LO_FLAGS_READ_ONLY: u32 = 1;
/// `LO_FLAGS_AUTOCLEAR`: the device detaches itself when its last user closes it.
pub const LO_FLAGS_AUTOCLEAR: u32 = 4;
/// `LO_FLAGS_PARTSCAN`: the kernel scans the partition table after attaching.
pub const LO_FLAGS_PARTSCAN: u32 = 8;
/// `LO_FLAGS_DIRECT_IO`: the backing file is accessed with direct I/O.
pub const LO_FLAGS_DIRECT_IO: u32 = 16;

/// The status record of a loop device, field for field the kernel's
/// `struct loop_info64` (see `<linux/loop.h>`), handed to `LOOP_SET_STATUS64`.
#[derive(Clone, Copy, Debug)]
pub struct LoopInfo64 {
    pub lo_device: u64,
    pub lo_inode: u64,
    pub lo_rdevice: u64,
    pub lo_offset: u64,
    pub lo_sizelimit: u64,
    pub lo_number: u32,
    pub lo_encrypt_type: u32,
    pub lo_encrypt_key_size: u32,
    pub lo_flags: u32,
    pub lo_file_name: [u8; 64],
    pub lo_crypt_name: [u8; 64],
    pub lo_encrypt_key: [u8; 32],
    pub lo_init: [u64; 2],
}

/// Every field zero, every byte of the name and key buffers zero.
pub open spec fn is_zeroed(info: LoopInfo64) -> bool {
    &&& info.lo_device == 0
    &&& info.lo_inode == 0
    &&& info.lo_rdevice == 0
    &&& info.lo_offset == 0
    &&& info.lo_sizelimit == 0
    &&& info.lo_number == 0
    &&& info.lo_encrypt_type == 0
    &&& info.lo_encrypt_key_size == 0
    &&& info.lo_flags == 0
    &&& forall|i: int| 0 <= i < 64 ==> #[trigger] info.lo_file_name@[i] == 0u8
    &&& forall|i: int| 0 <= i < 64 ==> #[trigger] info.lo_crypt_name@[i] == 0u8
    &&& forall|i: int| 0 <= i < 32 ==> #[trigger] info.lo_encrypt_key@[i] == 0u8
    &&& forall|i: int| 0 <= i < 2 ==> #[trigger] info.lo_init@[i] == 0u64
}

impl Default for LoopInfo64 {
    /// The all-zero record: no offset, no size limit, no flags.
    fn default() -> (r: Self)
        ensures
            is_zeroed(r),
    {
        LoopInfo64 {
            lo_device: 0,
            lo_inode: 0,
            lo_rdevice: 0,
            lo_offset: 0,
            lo_sizelimit: 0,
            lo_number: 0,
            lo_encrypt_type: 0,
            lo_encrypt_key_size: 0,
            lo_flags: 0,
            lo_file_name: [0u8; 64],
            lo_crypt_name: [0u8; 64],
            lo_encrypt_key: [0u8; 32],
            lo_init: [0u64; 2],
        }
    }
}

/// The flag `flag` is set in `flags`.
pub open spec fn has_flag(flags: u32, flag: u32) -> bool {
    flags & flag == flag
}

/// `flag` is one of the option flags of a loop device.
pub open spec fn is_option_flag(flag: u32) -> bool {
    flag == LO_FLAGS_READ_ONLY || flag == LO_FLAGS_AUTOCLEAR || flag == LO_FLAGS_PARTSCAN
        || flag == LO_FLAGS_DIRECT_IO
}

/// `new` is `old` with the flag `flag` switched on (`on`) or off, and every
/// other bit as it was.
pub open spec fn flag_switched(old: u32, new: u32, flag: u32, on: bool) -> bool {
    &&& has_flag(new, flag) == on
    &&& new & !flag == old & !flag
}

/// Sets (`on`) or clears the single-bit flag `flag` in `flags`.
pub fn switch_flag(flags: u32, flag: u32, on: bool) -> (r: u32)
    requires
        is_option_flag(flag),
    ensures
        flag_switched(flags, r, flag, on),
{
    let r = if on {
        flags | flag
    } else {
        flags & !flag
    };
    assert(flag_switched(flags, r, flag, on)) by (bit_vector)
        requires
            flag == 1u32 || flag == 4u32 || flag == 8u32 || flag == 16u32,
            on ==> r == flags | flag,
            !on ==> r == flags & !flag,
    ;
    r
}

/// There is one value of the flags that switching a flag can give: the
/// description `flag_switched` pins the result down.
pub proof fn lemma_flag_switched_unique(old: u32, a: u32, b: u32, flag: u32, on: bool)
    requires
        is_option_flag(flag),
        flag_switched(old, a, flag, on),
        flag_switched(old, b, flag, on),
    ensures
        a == b,
{
    assert(a == b) by (bit_vector)
        requires
            flag == 1u32 || flag == 4u32 || flag == 8u32 || flag == 16u32,
            (a & flag == flag) == on,
            (b & flag == flag) == on,
            a & !flag == old & !flag,
            b & !flag == old & !flag,
    ;
}

/// Switching a flag leaves every other flag as it was.
pub proof fn law_switch_keeps_other_flags(old: u32, new: u32, flag: u32, on: bool, other: u32)
    requires
        is_option_flag(flag),
        is_option_flag(other),
        other != flag,
        flag_switched(old, new, flag, on),
    ensures
        has_flag(new, other) == has_flag(old, other),
{
    assert(has_flag(new, other) == has_flag(old, other)) by (bit_vector)
        requires
            flag == 1u32 || flag == 4u32 || flag == 8u32 || flag == 16u32,
            other == 1u32 || other == 4u32 || other == 8u32 || other == 16u32,
            other != flag,
            new & !flag == old & !flag,
    ;
}

/// The last switch of a flag wins: switching it to `a` and then to `b` is
/// switching it to `b`.
pub proof fn law_last_switch_wins(f0: u32, f1: u32, f2: u32, flag: u32, a: bool, b: bool)
    requires
        is_option_flag(flag),
        flag_switched(f0, f1, flag, a),
        flag_switched(f1, f2, flag, b),
    ensures
        flag_switched(f0, f2, flag, b),
{
    assert(f2 & !flag == f0 & !flag) by (bit_vector)
        requires
            f1 & !flag == f0 & !flag,
            f2 & !flag == f1 & !flag,
    ;
}

/// Switching two different flags gives the same flags in either order.
pub proof fn law_switches_commute(
    f0: u32,
    flag_a: u32,
    a: bool,
    flag_b: u32,
    b: bool,
    x1: u32,
    x2: u32,
    y1: u32,
    y2: u32,
)
    requires
        is_option_flag(flag_a),
        is_option_flag(flag_b),
        flag_a != flag_b,
        flag_switched(f0, x1, flag_a, a),
        flag_switched(x1, x2, flag_b, b),
        flag_switched(f0, y1, flag_b, b),
        flag_switched(y1, y2, flag_a, a),
    ensures
        x2 == y2,
{
    assert(x2 == y2) by (bit_vector)
        requires
            flag_a == 1u32 || flag_a == 4u32 || flag_a == 8u32 || flag_a == 16u32,
            flag_b == 1u32 || flag_b == 4u32 || flag_b == 8u32 || flag_b == 16u32,
            flag_a != flag_b,
            (x1 & flag_a == flag_a) == a,
            x1 & !flag_a == f0 & !flag_a,
            (x2 & flag_b == flag_b) == b,
            x2 & !flag_b == x1 & !flag_b,
            (y1 & flag_b == flag_b) == b,
            y1 & !flag_b == f0 & !flag_b,
            (y2 & flag_a == flag_a) == a,
            y2 & !flag_a == y1 & !flag_a,
    ;
}

/// Switching a flag on and then off again gives back the flags it started
/// from, when the flag was off to begin with.
pub proof fn law_switch_round_trip(f0: u32, f1: u32, f2: u32, flag: u32)
    requires
        is_option_flag(flag),
        !has_flag(f0, flag),
        flag_switched(f0, f1, flag, true),
        flag_switched(f1, f2, flag, false),
    ensures
        f2 == f0,
{
    law_last_switch_wins(f0, f1, f2, flag, true, false);
    assert(flag_switched(f0, f0, flag, false));
    lemma_flag_switched_unique(f0, f2, f0, flag, false);
}

/// The option flags are the kernel's distinct single bits: read-only is bit
/// 0, autoclear bit 2, partition scan bit 3, direct I/O bit 4.
pub proof fn law_option_flag_bits()
    ensures
        LO_FLAGS_READ_ONLY == 1u32 << 0u32,
        LO_FLAGS_AUTOCLEAR == 1u32 << 2u32,
        LO_FLAGS_PARTSCAN == 1u32 << 3u32,
        LO_FLAGS_DIRECT_IO == 1u32 << 4u32,
{
    assert(1u32 << 0u32 == 1u32) by (bit_vector);
    assert(1u32 << 2u32 == 4u32) by (bit_vector);
    assert(1u32 << 3u32 == 8u32) by (bit_vector);
    assert(1u32 << 4u32 == 16u32) by (bit_vector);
}

} // verus!
