use vstd::prelude::*;

verus! {

/// Declares `std::io::Error` to the verifier as an opaque type, so that the
/// errors of the system calls can be carried through verified code; nothing
/// inside an error is read.
#[verifier::external_type_specification]
#[verifier::external_body]
pub struct ExIoError(std::io::Error);

/// Calls `std::io::Error::last_os_error`, which builds an error from the
/// calling thread's current `errno`. Nothing is stated of the error: it
/// depends on what the last failing system call left behind.
#[verifier::external_body]
fn last_os_error() -> std::io::Error {
    std::io::Error::last_os_error()
}

/// Turns the raw return value of an `ioctl` into a result: a negative value
/// is a failure, reported as the OS error of the calling thread; any other
/// value is handed back unchanged.
pub fn ioctl_to_error(ret: i32) -> (res: Result<i32, std::io::Error>)
    ensures
        res is Ok <==> ret >= 0,
        res matches Ok(v) ==> v == ret,
{
    if ret < 0 {
        Err(last_os_error())
    } else {
        Ok(ret)
    }
}

} // verus!
