//! Setup and control of Linux loop devices: the verified core.
//!
//! This crate holds the decisions that a loop-device front end makes around
//! its `ioctl` calls: the `loop_info64` record and its option flags, the
//! builder that fills it, the order of requests that attaching a backing file
//! takes (with its roll-back), the mapping from `ioctl` return values to
//! results, the device numbers, and the names of the device nodes.

pub mod attach;
pub mod device;
pub mod error;
pub mod info;
pub mod options;
pub mod path;
pub mod request;

pub use attach::{AttachCommand, AttachPhase, AttachRun};
pub use device::{
    device_major, keep_waiting, WAIT_QUANTUM_MILLIS, WAIT_TIMEOUT_NANOS,
};
pub use error::ioctl_to_error;
pub use info::{
    switch_flag, LoopInfo64, LO_FLAGS_AUTOCLEAR, LO_FLAGS_DIRECT_IO, LO_FLAGS_PARTSCAN,
    LO_FLAGS_READ_ONLY,
};
pub use options::AttachOptions;
pub use path::{
    fd_link_path, loop_device_path, ANDROID_LOOP_PREFIX, LOOP_CONTROL, LOOP_PREFIX, PROC_SELF_FD,
};
pub use request::{
    IoctlArg, LoopRequest, LOOP_CLR_FD, LOOP_CTL_ADD, LOOP_CTL_GET_FREE, LOOP_SET_CAPACITY,
    LOOP_SET_DIRECT_IO, LOOP_SET_FD, LOOP_SET_STATUS64,
};
