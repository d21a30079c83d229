use vstd::prelude::*;

use crate::info::LoopInfo64;

verus! {

/// `LOOP_SET_FD`: attach the device to an open backing file.
pub const LOOP_SET_FD: u32 = 0x4C00;
/// `LOOP_CLR_FD`: detach the device from its backing file.
pub const LOOP_CLR_FD: u32 = 0x4C01;
/// `LOOP_SET_STATUS64`: hand the device its `loop_info64` record.
pub const LOOP_SET_STATUS64: u32 = 0x4C04;
/// `LOOP_SET_CAPACITY`: re-read the size of the backing file.
pub const LOOP_SET_CAPACITY: u32 = 0x4C07;
/// `LOOP_SET_DIRECT_IO`: switch direct I/O on the backing file on or off.
pub const LOOP_SET_DIRECT_IO: u32 = 0x4C08;
/// `LOOP_CTL_ADD`: create the loop device of a given number.
pub const LOOP_CTL_ADD: u32 = 0x4C80;
/// `LOOP_CTL_GET_FREE`: find (or create) a free loop device.
pub const LOOP_CTL_GET_FREE: u32 = 0x4C82;

/// The argument that goes with an `ioctl` request.
pub enum IoctlArg {
    /// The request takes no argument.
    Nothing,
    /// An integer argument.
    Int(i32),
    /// A pointer to this record.
    Info(LoopInfo64),
}

/// A request to the loop driver: one `ioctl` on a loop device, or on the
/// control device for `CtlAdd` and `CtlGetFree`.
pub enum LoopRequest {
    /// Attach to the backing file open as this file descriptor.
    SetFd(i32),
    /// Detach from the backing file.
    ClrFd,
    /// Hand over this status record.
    SetStatus64(LoopInfo64),
    /// Re-read the size of the backing file.
    SetCapacity,
    /// Switch direct I/O on or off.
    SetDirectIo(bool),
    /// Create the loop device of this number.
    CtlAdd(u32),
    /// Find a free loop device.
    CtlGetFree,
}

/// The request code of each request.
pub open spec fn request_code(req: LoopRequest) -> u32 {
    match req {
        LoopRequest::SetFd(_) => LOOP_SET_FD,
        LoopRequest::ClrFd => LOOP_CLR_FD,
        LoopRequest::SetStatus64(_) => LOOP_SET_STATUS64,
        LoopRequest::SetCapacity => LOOP_SET_CAPACITY,
        LoopRequest::SetDirectIo(_) => LOOP_SET_DIRECT_IO,
        LoopRequest::CtlAdd(_) => LOOP_CTL_ADD,
        LoopRequest::CtlGetFree => LOOP_CTL_GET_FREE,
    }
}

/// The argument of each request: the backing file descriptor for `SetFd`,
/// zero for `ClrFd` and `SetCapacity`, one or zero for `SetDirectIo`, the
/// device number (as a C `int`) for `CtlAdd`, the record for `SetStatus64`.
pub open spec fn request_arg(req: LoopRequest) -> IoctlArg {
    match req {
        LoopRequest::SetFd(fd) => IoctlArg::Int(fd),
        LoopRequest::ClrFd => IoctlArg::Int(0),
        LoopRequest::SetStatus64(info) => IoctlArg::Info(info),
        LoopRequest::SetCapacity => IoctlArg::Int(0),
        LoopRequest::SetDirectIo(on) => IoctlArg::Int(if on { 1 } else { 0 }),
        LoopRequest::CtlAdd(n) => IoctlArg::Int(n as i32),
        LoopRequest::CtlGetFree => IoctlArg::Nothing,
    }
}

impl LoopRequest {
    /// The `ioctl` request code.
    pub fn code(&self) -> (r: u32)
        ensures
            r == request_code(*self),
    {
        match self {
            LoopRequest::SetFd(_) => LOOP_SET_FD,
            LoopRequest::ClrFd => LOOP_CLR_FD,
            LoopRequest::SetStatus64(_) => LOOP_SET_STATUS64,
            LoopRequest::SetCapacity => LOOP_SET_CAPACITY,
            LoopRequest::SetDirectIo(_) => LOOP_SET_DIRECT_IO,
            LoopRequest::CtlAdd(_) => LOOP_CTL_ADD,
            LoopRequest::CtlGetFree => LOOP_CTL_GET_FREE,
        }
    }

    /// The argument that the `ioctl` receives.
    pub fn arg(&self) -> (r: IoctlArg)
        ensures
            r == request_arg(*self),
    {
        match self {
            LoopRequest::SetFd(fd) => IoctlArg::Int(*fd),
            LoopRequest::ClrFd => IoctlArg::Int(0),
            LoopRequest::SetStatus64(info) => IoctlArg::Info(*info),
            LoopRequest::SetCapacity => IoctlArg::Int(0),
            LoopRequest::SetDirectIo(on) => IoctlArg::Int(if *on { 1 } else { 0 }),
            LoopRequest::CtlAdd(n) => IoctlArg::Int(*n as i32),
            LoopRequest::CtlGetFree => IoctlArg::Nothing,
        }
    }
}

/// The request code depends only on the kind of request, never on what it
/// carries, and each kind has its own code from `<linux/loop.h>`.
pub proof fn law_request_codes_by_kind(req: LoopRequest)
    ensures
        request_code(req) == LOOP_SET_FD <==> req is SetFd,
        request_code(req) == LOOP_CLR_FD <==> req is ClrFd,
        request_code(req) == LOOP_SET_STATUS64 <==> req is SetStatus64,
        request_code(req) == LOOP_SET_CAPACITY <==> req is SetCapacity,
        request_code(req) == LOOP_SET_DIRECT_IO <==> req is SetDirectIo,
        request_code(req) == LOOP_CTL_ADD <==> req is CtlAdd,
        request_code(req) == LOOP_CTL_GET_FREE <==> req is CtlGetFree,
        request_code(req) == 0x4C00 || request_code(req) == 0x4C01 || request_code(req) == 0x4C04
            || request_code(req) == 0x4C07 || request_code(req) == 0x4C08 || request_code(req)
            == 0x4C80 || request_code(req) == 0x4C82,
{
}

/// Each request hands the kernel what it carries: the status record
/// unchanged for `LOOP_SET_STATUS64`, the descriptor for `LOOP_SET_FD`, the
/// device number (as a C `int`) for `LOOP_CTL_ADD`, one for direct I/O on and
/// zero for off, zero for `LOOP_CLR_FD` and `LOOP_SET_CAPACITY`, nothing for
/// `LOOP_CTL_GET_FREE`.
pub proof fn law_request_args_carry_payload(
    info: LoopInfo64,
    fd: i32,
    n: u32,
    on: bool,
)
    ensures
        request_arg(LoopRequest::SetStatus64(info)) == IoctlArg::Info(info),
        request_arg(LoopRequest::SetFd(fd)) == IoctlArg::Int(fd),
        n <= i32::MAX ==> request_arg(LoopRequest::CtlAdd(n)) == IoctlArg::Int(n as i32),
        request_arg(LoopRequest::SetDirectIo(true)) == IoctlArg::Int(1),
        request_arg(LoopRequest::SetDirectIo(false)) == IoctlArg::Int(0),
        request_arg(LoopRequest::ClrFd) == IoctlArg::Int(0),
        request_arg(LoopRequest::SetCapacity) == IoctlArg::Int(0),
        request_arg(LoopRequest::CtlGetFree) == IoctlArg::Nothing,
        request_code(LoopRequest::SetDirectIo(on)) == LOOP_SET_DIRECT_IO,
{
}

} // verus!
