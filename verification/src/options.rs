use vstd::prelude::*;

use crate::info::{
    flag_switched, is_option_flag, is_zeroed, switch_flag, LoopInfo64, LO_FLAGS_AUTOCLEAR,
    LO_FLAGS_PARTSCAN, LO_FLAGS_READ_ONLY,
};

verus! {

/// The options with which a loop device is attached to a backing file,
/// gathered by a builder: the `loop_info64` record that `LOOP_SET_STATUS64`
/// receives and whether direct I/O is switched on after attaching.
/// Created with `AttachOptions::new` for the device it belongs to.
#[must_use]
pub struct AttachOptions<'d, D> {
    device: &'d D,
    info: LoopInfo64,
    direct_io: bool,
}

impl<'d, D> AttachOptions<'d, D> {
    /// The record that `LOOP_SET_STATUS64` will receive.
    pub closed spec fn spec_info(&self) -> LoopInfo64 {
        self.info
    }

    /// Whether direct I/O is switched on after attaching.
    pub closed spec fn spec_direct_io(&self) -> bool {
        self.direct_io
    }

    /// The device that the options are for.
    pub closed spec fn spec_device(&self) -> &'d D {
        self.device
    }

    /// Options for `device` with the defaults: an all-zero record (no offset,
    /// no size limit, no flag) and no direct I/O.
    pub fn new(device: &'d D) -> (r: Self)
        ensures
            is_zeroed(r.spec_info()),
            !r.spec_direct_io(),
            r.spec_device() == device,
    {
        AttachOptions { device, info: LoopInfo64::default(), direct_io: false }
    }

    /// The device that the options are for.
    pub fn device(&self) -> (r: &'d D)
        ensures
            r == self.spec_device(),
    {
        self.device
    }

    /// The record that `LOOP_SET_STATUS64` will receive.
    pub fn info(&self) -> (r: LoopInfo64)
        ensures
            r == self.spec_info(),
    {
        self.info
    }

    /// Whether direct I/O is switched on after attaching.
    pub fn direct_io(&self) -> (r: bool)
        ensures
            r == self.spec_direct_io(),
    {
        self.direct_io
    }

    /// Offset in bytes from the start of the backing file the data will start at.
    pub fn offset(self, offset: u64) -> (r: Self)
        ensures
            r.spec_info() == (LoopInfo64 { lo_offset: offset, ..self.spec_info() }),
            r.spec_direct_io() == self.spec_direct_io(),
            r.spec_device() == self.spec_device(),
    {
        let mut s = self;
        s.info.lo_offset = offset;
        s
    }

    /// Maximum size of the data in bytes.
    pub fn size_limit(self, size_limit: u64) -> (r: Self)
        ensures
            r.spec_info() == (LoopInfo64 { lo_sizelimit: size_limit, ..self.spec_info() }),
            r.spec_direct_io() == self.spec_direct_io(),
            r.spec_device() == self.spec_device(),
    {
        let mut s = self;
        s.info.lo_sizelimit = size_limit;
        s
    }

    /// The options with the flag `flag` switched on or off and all else kept.
    fn with_flag(self, flag: u32, on: bool) -> (r: Self)
        requires
            is_option_flag(flag),
        ensures
            r.spec_info() == (LoopInfo64 { lo_flags: r.spec_info().lo_flags, ..self.spec_info() }),
            flag_switched(self.spec_info().lo_flags, r.spec_info().lo_flags, flag, on),
            r.spec_direct_io() == self.spec_direct_io(),
            r.spec_device() == self.spec_device(),
    {
        let mut s = self;
        s.info.lo_flags = switch_flag(s.info.lo_flags, flag, on);
        s
    }

    /// Set or clear the read-only flag.
    pub fn read_only(self, read_only: bool) -> (r: Self)
        ensures
            r.spec_info() == (LoopInfo64 { lo_flags: r.spec_info().lo_flags, ..self.spec_info() }),
            flag_switched(
                self.spec_info().lo_flags,
                r.spec_info().lo_flags,
                LO_FLAGS_READ_ONLY,
                read_only,
            ),
            r.spec_direct_io() == self.spec_direct_io(),
            r.spec_device() == self.spec_device(),
    {
        self.with_flag(LO_FLAGS_READ_ONLY, read_only)
    }

    /// Set or clear the autoclear flag: an attached device with it detaches
    /// itself once its last user closes it.
    pub fn autoclear(self, autoclear: bool) -> (r: Self)
        ensures
            r.spec_info() == (LoopInfo64 { lo_flags: r.spec_info().lo_flags, ..self.spec_info() }),
            flag_switched(
                self.spec_info().lo_flags,
                r.spec_info().lo_flags,
                LO_FLAGS_AUTOCLEAR,
                autoclear,
            ),
            r.spec_direct_io() == self.spec_direct_io(),
            r.spec_device() == self.spec_device(),
    {
        self.with_flag(LO_FLAGS_AUTOCLEAR, autoclear)
    }

    /// Force the kernel to scan the partition table on a newly created loop
    /// device. The partition table parsing depends on sector sizes; the
    /// default sector size is 512 bytes.
    pub fn part_scan(self, enable: bool) -> (r: Self)
        ensures
            r.spec_info() == (LoopInfo64 { lo_flags: r.spec_info().lo_flags, ..self.spec_info() }),
            flag_switched(
                self.spec_info().lo_flags,
                r.spec_info().lo_flags,
                LO_FLAGS_PARTSCAN,
                enable,
            ),
            r.spec_direct_io() == self.spec_direct_io(),
            r.spec_device() == self.spec_device(),
    {
        self.with_flag(LO_FLAGS_PARTSCAN, enable)
    }

    /// Enable or disable direct I/O for the backing file once attached.
    pub fn set_direct_io(self, direct_io: bool) -> (r: Self)
        ensures
            r.spec_info() == self.spec_info(),
            r.spec_direct_io() == direct_io,
            r.spec_device() == self.spec_device(),
    {
        let mut s = self;
        s.direct_io = direct_io;
        s
    }
}

} // verus!
