use vstd::prelude::*;

verus! {

/// The major number in a device number, as Linux packs it: bits 8 to 19 and
/// 44 to 63.
pub open spec fn dev_major(dev: u64) -> u32 {
    (((dev >> 32u64) & 0xffff_f000u64) | ((dev >> 8u64) & 0x0000_0fffu64)) as u32
}

/// The major number in a device number as 64-bit Android's C library reads
/// it: bits 8 to 19 only.
pub open spec fn dev_major_short(dev: u64) -> u32 {
    ((dev >> 8u64) & 0x0000_0fffu64) as u32
}

/// The two readings of the major number agree on every device number that
/// fits in 32 bits.
pub proof fn lemma_major_readings_agree(dev: u64)
    requires
        dev <= u32::MAX,
    ensures
        dev_major(dev) == dev_major_short(dev),
{
    assert((((dev >> 32u64) & 0xffff_f000u64) | ((dev >> 8u64) & 0x0000_0fffu64)) == ((dev
        >> 8u64) & 0x0000_0fffu64)) by (bit_vector)
        requires
            dev <= 0xffff_ffffu64,
    ;
}

/// Calls `rustix::fs::major`. On Linux it computes
/// `((dev >> 32) & 0xffff_f000) | ((dev >> 8) & 0x0fff)` (its own backend, or
/// the C library's `major`, which packs the same bits); on 64-bit Android it
/// goes to the C library's `major`, which keeps only `(dev >> 8) & 0x0fff`.
/// The contract states that the result is one of these two readings; which
/// one depends on the platform the crate is built for.
#[verifier::external_body]
fn rustix_major(dev: u64) -> (r: u32)
    ensures
        r == dev_major(dev) || r == dev_major_short(dev),
{
    rustix::fs::major(dev)
}

/// The major number of a device, from the result of reading its device
/// number (`st_rdev`): an error is passed on unchanged. For the 32-bit device
/// numbers that the kernel hands out the major number is `dev_major`; for
/// larger ones it is Linux's or 64-bit Android's reading of the number,
/// after the platform.
pub fn device_major(rdev: Result<u64, std::io::Error>) -> (r: Result<u32, std::io::Error>)
    ensures
        match rdev {
            Ok(dev) => {
                &&& r matches Ok(m) && (m == dev_major(dev) || m == dev_major_short(dev))
                &&& dev <= u32::MAX ==> r == Ok::<u32, std::io::Error>(dev_major(dev))
            },
            Err(e) => r == Err::<u32, std::io::Error>(e),
        },
{
    match rdev {
        Ok(dev) => {
            let m = rustix_major(dev);
            proof {
                if dev <= u32::MAX {
                    lemma_major_readings_agree(dev);
                }
            }
            Ok(m)
        },
        Err(e) => Err(e),
    }
}

/// How long to wait at most for a device node to appear, in nanoseconds.
pub const WAIT_TIMEOUT_NANOS: u128 = 2_000_000_000;
/// How long to sleep between two looks for a device node, in milliseconds.
pub const WAIT_QUANTUM_MILLIS: u64 = 1;

/// Whether to go on waiting for a device node (which a userspace daemon
/// creates some time after the device): only while the node does not exist
/// and the time waited so far does not exceed the timeout.
pub fn keep_waiting(node_exists: bool, elapsed_nanos: u128) -> (r: bool)
    ensures
        r == (!node_exists && elapsed_nanos <= WAIT_TIMEOUT_NANOS),
{
    !node_exists && elapsed_nanos <= WAIT_TIMEOUT_NANOS
}

} // verus!
