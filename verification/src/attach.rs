use vstd::prelude::*;

use crate::info::{flag_switched, has_flag, LoopInfo64, LO_FLAGS_READ_ONLY};
use crate::options::AttachOptions;
use crate::request::LoopRequest;

verus! {

/// Where an attach stands: which outcome it waits for next.
pub enum AttachPhase {
    /// The backing file is being opened; the outcome is its file descriptor.
    AwaitOpen,
    /// `LOOP_SET_FD` was issued.
    AwaitSetFd,
    /// `LOOP_SET_STATUS64` was issued.
    AwaitSetStatus,
    /// `LOOP_SET_STATUS64` failed with this error and `LOOP_CLR_FD` was issued
    /// to undo the attach.
    AwaitClrFd(std::io::Error),
    /// `LOOP_SET_DIRECT_IO` was issued.
    AwaitSetDirectIo,
    /// The attach is over.
    Finished,
}

/// What the caller is to do next for an attach.
pub enum AttachCommand {
    /// Open the backing file for reading, and for writing if `writable`;
    /// report its file descriptor, or the error of the open.
    OpenBackingFile { writable: bool },
    /// Issue this request on the loop device and report what `ioctl_to_error`
    /// makes of its return value.
    Ioctl(LoopRequest),
    /// The attach is over, with this result.
    Finish(Result<(), std::io::Error>),
}

/// The transition table of an attach. Given the phase, the options, and the
/// outcome of the last command, it gives the next phase and command:
/// - a failed open or `LOOP_SET_FD` ends the attach with that failure;
/// - after the backing file is attached, the status record is handed over;
/// - a failed `LOOP_SET_STATUS64` is undone with `LOOP_CLR_FD`, and the attach
///   then ends with the error of `LOOP_SET_STATUS64`, whatever `LOOP_CLR_FD`
///   gave;
/// - with direct I/O asked for, it is switched on last, and its failure is the
///   attach's failure.
pub open spec fn next_step(
    phase: AttachPhase,
    info: LoopInfo64,
    direct_io: bool,
    outcome: Result<i32, std::io::Error>,
) -> (AttachPhase, AttachCommand) {
    match phase {
        AttachPhase::AwaitOpen => match outcome {
            Ok(fd) => (AttachPhase::AwaitSetFd, AttachCommand::Ioctl(LoopRequest::SetFd(fd))),
            Err(e) => (AttachPhase::Finished, AttachCommand::Finish(Err(e))),
        },
        AttachPhase::AwaitSetFd => match outcome {
            Ok(_) => (
                AttachPhase::AwaitSetStatus,
                AttachCommand::Ioctl(LoopRequest::SetStatus64(info)),
            ),
            Err(e) => (AttachPhase::Finished, AttachCommand::Finish(Err(e))),
        },
        AttachPhase::AwaitSetStatus => match outcome {
            Ok(_) => if direct_io {
                (
                    AttachPhase::AwaitSetDirectIo,
                    AttachCommand::Ioctl(LoopRequest::SetDirectIo(true)),
                )
            } else {
                (AttachPhase::Finished, AttachCommand::Finish(Ok(())))
            },
            Err(e) => (AttachPhase::AwaitClrFd(e), AttachCommand::Ioctl(LoopRequest::ClrFd)),
        },
        AttachPhase::AwaitClrFd(e) => (AttachPhase::Finished, AttachCommand::Finish(Err(e))),
        AttachPhase::AwaitSetDirectIo => match outcome {
            Ok(_) => (AttachPhase::Finished, AttachCommand::Finish(Ok(()))),
            Err(e) => (AttachPhase::Finished, AttachCommand::Finish(Err(e))),
        },
        AttachPhase::Finished => (AttachPhase::Finished, AttachCommand::Finish(Ok(()))),
    }
}

/// An attach in progress: the options it carries out and its phase. The
/// caller performs each command and feeds its outcome to `step`.
pub struct AttachRun<'d, D> {
    device: &'d D,
    info: LoopInfo64,
    direct_io: bool,
    phase: AttachPhase,
}

impl<'d, D> AttachRun<'d, D> {
    pub closed spec fn spec_device(&self) -> &'d D {
        self.device
    }

    pub closed spec fn spec_info(&self) -> LoopInfo64 {
        self.info
    }

    pub closed spec fn spec_direct_io(&self) -> bool {
        self.direct_io
    }

    pub closed spec fn spec_phase(&self) -> AttachPhase {
        self.phase
    }

    /// The loop device that the requests go to.
    pub fn device(&self) -> (r: &'d D)
        ensures
            r == self.spec_device(),
    {
        self.device
    }

    /// Whether the attach is over: it is once a `Finish` command was given.
    pub fn is_finished(&self) -> (r: bool)
        ensures
            r == self.spec_phase() is Finished,
    {
        match self.phase {
            AttachPhase::Finished => true,
            _ => false,
        }
    }

    /// Feeds the outcome of the last command and gives the next command.
    pub fn step(self, outcome: Result<i32, std::io::Error>) -> (r: (Self, AttachCommand))
        requires
            !(self.spec_phase() is Finished),
        ensures
            r.0.spec_device() == self.spec_device(),
            r.0.spec_info() == self.spec_info(),
            r.0.spec_direct_io() == self.spec_direct_io(),
            (r.0.spec_phase(), r.1) == next_step(
                self.spec_phase(),
                self.spec_info(),
                self.spec_direct_io(),
                outcome,
            ),
    {
        let AttachRun { device, info, direct_io, phase } = self;
        let (phase, command) = match phase {
            AttachPhase::AwaitOpen => match outcome {
                Ok(fd) => (AttachPhase::AwaitSetFd, AttachCommand::Ioctl(LoopRequest::SetFd(fd))),
                Err(e) => (AttachPhase::Finished, AttachCommand::Finish(Err(e))),
            },
            AttachPhase::AwaitSetFd => match outcome {
                Ok(_) => (
                    AttachPhase::AwaitSetStatus,
                    AttachCommand::Ioctl(LoopRequest::SetStatus64(info)),
                ),
                Err(e) => (AttachPhase::Finished, AttachCommand::Finish(Err(e))),
            },
            AttachPhase::AwaitSetStatus => match outcome {
                Ok(_) => if direct_io {
                    (
                        AttachPhase::AwaitSetDirectIo,
                        AttachCommand::Ioctl(LoopRequest::SetDirectIo(true)),
                    )
                } else {
                    (AttachPhase::Finished, AttachCommand::Finish(Ok(())))
                },
                Err(e) => (AttachPhase::AwaitClrFd(e), AttachCommand::Ioctl(LoopRequest::ClrFd)),
            },
            AttachPhase::AwaitClrFd(e) => (AttachPhase::Finished, AttachCommand::Finish(Err(e))),
            AttachPhase::AwaitSetDirectIo => match outcome {
                Ok(_) => (AttachPhase::Finished, AttachCommand::Finish(Ok(()))),
                Err(e) => (AttachPhase::Finished, AttachCommand::Finish(Err(e))),
            },
            AttachPhase::Finished => (AttachPhase::Finished, AttachCommand::Finish(Ok(()))),
        };
        (AttachRun { device, info, direct_io, phase }, command)
    }
}

/// Feeding the outcomes `outs` one by one to an attach in `phase` ends it
/// with `result` at the last outcome, and not before.
pub open spec fn run_ends_with(
    phase: AttachPhase,
    info: LoopInfo64,
    direct_io: bool,
    outs: Seq<Result<i32, std::io::Error>>,
    result: Result<(), std::io::Error>,
) -> bool
    decreases outs.len(),
{
    if outs.len() == 0 {
        false
    } else {
        let (next, command) = next_step(phase, info, direct_io, outs[0]);
        if outs.len() == 1 {
            command == AttachCommand::Finish(result)
        } else {
            !(command is Finish) && run_ends_with(next, info, direct_io, outs.drop_first(), result)
        }
    }
}

/// An attach succeeds only if every command it issued succeeded: when a run
/// ends in `Ok`, every outcome fed to it was `Ok`.
pub proof fn law_success_needs_every_step(
    phase: AttachPhase,
    info: LoopInfo64,
    direct_io: bool,
    outs: Seq<Result<i32, std::io::Error>>,
)
    requires
        !(phase is Finished),
        run_ends_with(phase, info, direct_io, outs, Ok(())),
    ensures
        forall|j: int| 0 <= j < outs.len() ==> #[trigger] outs[j] is Ok,
    decreases outs.len(),
{
    let (next, command) = next_step(phase, info, direct_io, outs[0]);
    if outs.len() > 1 {
        let rest = outs.drop_first();
        assert(run_ends_with(next, info, direct_io, rest, Ok(())));
        if outs[0] is Err {
            assert(next is AwaitClrFd);
            assert(rest[0] == outs[1]);
            assert(false);
        }
        law_success_needs_every_step(next, info, direct_io, rest);
        assert forall|j: int| 0 <= j < outs.len() implies #[trigger] outs[j] is Ok by {
            if j > 0 {
                assert(outs[j] == outs.drop_first()[j - 1]);
            }
        }
    }
}

/// What an attach that failed reports, from any phase short of the end: the
/// error held for the roll-back, or the first failing outcome.
proof fn lemma_failure_is_first_error(
    phase: AttachPhase,
    info: LoopInfo64,
    direct_io: bool,
    outs: Seq<Result<i32, std::io::Error>>,
    e: std::io::Error,
)
    requires
        !(phase is Finished),
        run_ends_with(phase, info, direct_io, outs, Err(e)),
    ensures
        phase matches AttachPhase::AwaitClrFd(held) && held == e || exists|j: int|
            0 <= j < outs.len() && outs[j] == Err::<i32, std::io::Error>(e) && forall|i: int|
                0 <= i < j ==> #[trigger] outs[i] is Ok,
    decreases outs.len(),
{
    let (next, command) = next_step(phase, info, direct_io, outs[0]);
    if phase is AwaitClrFd {
    } else if outs.len() == 1 {
        assert(outs[0] == Err::<i32, std::io::Error>(e));
    } else if outs[0] is Err {
        let rest = outs.drop_first();
        assert(run_ends_with(next, info, direct_io, rest, Err(e)));
        assert(next is AwaitClrFd);
        if rest.len() > 1 {
            assert(false);
        }
        assert(outs[0] == Err::<i32, std::io::Error>(e));
    } else {
        lemma_failure_is_first_error(next, info, direct_io, outs.drop_first(), e);
        let rest = outs.drop_first();
        assert(!(next is AwaitClrFd));
        let j = choose|j: int|
            0 <= j < rest.len() && rest[j] == Err::<i32, std::io::Error>(e) && forall|i: int|
                0 <= i < j ==> #[trigger] rest[i] is Ok;
        assert(outs[j + 1] == rest[j]);
        assert forall|i: int| 0 <= i < j + 1 implies #[trigger] outs[i] is Ok by {
            if i > 0 {
                assert(outs[i] == rest[i - 1]);
            }
        }
    }
}

/// A failed attach reports the first failure it met: when an attach that
/// was started (from the backing file or from a file descriptor) ends with an
/// error, that error is the first failing outcome fed to it, and every
/// earlier outcome succeeded. The error of the `LOOP_CLR_FD` that undoes a
/// failed `LOOP_SET_STATUS64` is never the one reported.
pub proof fn law_failure_reports_first_error(
    phase: AttachPhase,
    info: LoopInfo64,
    direct_io: bool,
    outs: Seq<Result<i32, std::io::Error>>,
    e: std::io::Error,
)
    requires
        phase is AwaitOpen || phase is AwaitSetFd,
        run_ends_with(phase, info, direct_io, outs, Err(e)),
    ensures
        exists|j: int|
            0 <= j < outs.len() && outs[j] == Err::<i32, std::io::Error>(e) && forall|i: int|
                0 <= i < j ==> #[trigger] outs[i] is Ok,
{
    lemma_failure_is_first_error(phase, info, direct_io, outs, e);
}

/// A failed `LOOP_SET_STATUS64` is undone: the next command is `LOOP_CLR_FD`,
/// and whatever that gives, the attach then ends with the error of
/// `LOOP_SET_STATUS64`.
pub proof fn law_status_failure_is_rolled_back(
    info: LoopInfo64,
    direct_io: bool,
    e: std::io::Error,
    clear_outcome: Result<i32, std::io::Error>,
)
    ensures
        next_step(AttachPhase::AwaitSetStatus, info, direct_io, Err(e)).1 == AttachCommand::Ioctl(
            LoopRequest::ClrFd,
        ),
        next_step(
            next_step(AttachPhase::AwaitSetStatus, info, direct_io, Err(e)).0,
            info,
            direct_io,
            clear_outcome,
        ).1 == AttachCommand::Finish(Err(e)),
{
}

/// When every command succeeds, an attach from a backing file issues, in
/// order, `LOOP_SET_FD` with the file's descriptor, `LOOP_SET_STATUS64` with
/// the options' record, `LOOP_SET_DIRECT_IO` (on) if direct I/O was asked
/// for, and then ends in `Ok`.
pub proof fn law_attach_sequence_on_success(
    info: LoopInfo64,
    direct_io: bool,
    fd: i32,
    r1: i32,
    r2: i32,
    r3: i32,
)
    ensures
        ({
            let s1 = next_step(AttachPhase::AwaitOpen, info, direct_io, Ok(fd));
            let s2 = next_step(s1.0, info, direct_io, Ok(r1));
            let s3 = next_step(s2.0, info, direct_io, Ok(r2));
            &&& s1.1 == AttachCommand::Ioctl(LoopRequest::SetFd(fd))
            &&& s2.1 == AttachCommand::Ioctl(LoopRequest::SetStatus64(info))
            &&& !direct_io ==> s3.1 == AttachCommand::Finish(Ok(()))
            &&& direct_io ==> s3.1 == AttachCommand::Ioctl(LoopRequest::SetDirectIo(true))
            &&& direct_io ==> next_step(s3.0, info, direct_io, Ok(r3)).1 == AttachCommand::Finish(
                Ok(()),
            )
        }),
{
}

/// A failed open of the backing file ends the attach at once with the open's
/// error: no request reaches the device, whatever the options.
pub proof fn law_open_failure_ends_attach(info: LoopInfo64, direct_io: bool, e: std::io::Error)
    ensures
        next_step(AttachPhase::AwaitOpen, info, direct_io, Err(e)) == (
            AttachPhase::Finished,
            AttachCommand::Finish(Err(e)),
        ),
{
}

/// A failed `LOOP_SET_FD` ends the attach at once with its error: the device
/// was never attached, so nothing is undone, whatever the options.
pub proof fn law_set_fd_failure_ends_attach(info: LoopInfo64, direct_io: bool, e: std::io::Error)
    ensures
        next_step(AttachPhase::AwaitSetFd, info, direct_io, Err(e)) == (
            AttachPhase::Finished,
            AttachCommand::Finish(Err(e)),
        ),
{
}

/// Which command an attach can give, and when. Over every phase short of the
/// end, every record, option and outcome:
/// - `LOOP_SET_FD` comes only right after the backing file opened, with the
///   descriptor that the open gave;
/// - `LOOP_SET_STATUS64` comes only right after `LOOP_SET_FD` succeeded, with
///   the options' record unchanged;
/// - `LOOP_SET_DIRECT_IO` comes only when direct I/O was asked for, right
///   after `LOOP_SET_STATUS64` succeeded, and switches it on;
/// - `LOOP_CLR_FD` comes only right after `LOOP_SET_STATUS64` failed;
/// - no other request is made, and the backing file is never opened twice;
/// - an attach ends in `Ok` only on a successful outcome, and in `Err(e)` only
///   when the outcome was `Err(e)` or `e` is the held `LOOP_SET_STATUS64`
///   error that the roll-back reports.
pub proof fn law_commands_of_an_attach(
    phase: AttachPhase,
    info: LoopInfo64,
    direct_io: bool,
    outcome: Result<i32, std::io::Error>,
)
    requires
        !(phase is Finished),
    ensures
        ({
            let (next, command) = next_step(phase, info, direct_io, outcome);
            &&& !(command is OpenBackingFile)
            &&& command is Finish <==> next is Finished
            &&& forall|fd: i32|
                command == AttachCommand::Ioctl(LoopRequest::SetFd(fd)) ==> phase is AwaitOpen
                    && outcome == Ok::<i32, std::io::Error>(fd)
            &&& forall|x: LoopInfo64|
                command == AttachCommand::Ioctl(LoopRequest::SetStatus64(x)) ==> x == info
                    && phase is AwaitSetFd && outcome is Ok
            &&& forall|on: bool|
                command == AttachCommand::Ioctl(LoopRequest::SetDirectIo(on)) ==> on && direct_io
                    && phase is AwaitSetStatus && outcome is Ok
            &&& command == AttachCommand::Ioctl(LoopRequest::ClrFd) ==> phase is AwaitSetStatus
                && outcome is Err
            &&& command is Ioctl ==> (command->Ioctl_0 is SetFd || command->Ioctl_0 is SetStatus64
                || command->Ioctl_0 is SetDirectIo || command->Ioctl_0 is ClrFd)
            &&& command == AttachCommand::Finish(Ok(())) ==> outcome is Ok
            &&& forall|e: std::io::Error|
                command == AttachCommand::Finish(Err(e)) ==> outcome == Err::<i32, std::io::Error>(
                    e,
                ) || phase == AttachPhase::AwaitClrFd(e)
        }),
{
}

/// Whether the backing file is opened for writing is read off bit 0 of the
/// flags, `LO_FLAGS_READ_ONLY`: writable exactly when that bit is clear.
pub proof fn law_open_mode_reads_bit_zero(info: LoopInfo64)
    ensures
        opens_writable(info) == (info.lo_flags % 2 == 0),
{
    let f = info.lo_flags;
    assert((f & 1u32 == 1u32) == (f % 2 == 1)) by (bit_vector);
}

/// The backing file is opened for writing exactly when the read-only flag is
/// clear.
pub open spec fn opens_writable(info: LoopInfo64) -> bool {
    !has_flag(info.lo_flags, LO_FLAGS_READ_ONLY)
}

/// The read-only option decides how the backing file is opened: after
/// switching the read-only flag to `read_only`, the file is opened for writing
/// exactly when `read_only` is false.
pub proof fn law_read_only_decides_open_mode(before: LoopInfo64, after: LoopInfo64, read_only: bool)
    requires
        flag_switched(before.lo_flags, after.lo_flags, LO_FLAGS_READ_ONLY, read_only),
    ensures
        opens_writable(after) == !read_only,
{
}

impl<'d, D> AttachOptions<'d, D> {
    /// Starts attaching the loop device to a backing file with these options:
    /// the first command opens the backing file, for writing unless the
    /// read-only flag is set.
    pub fn attach(self) -> (r: (AttachRun<'d, D>, AttachCommand))
        ensures
            r.0.spec_device() == self.spec_device(),
            r.0.spec_info() == self.spec_info(),
            r.0.spec_direct_io() == self.spec_direct_io(),
            r.0.spec_phase() is AwaitOpen,
            r.1 == (AttachCommand::OpenBackingFile { writable: opens_writable(self.spec_info()) }),
    {
        let info = self.info();
        let flags = info.lo_flags;
        let writable = (flags & LO_FLAGS_READ_ONLY) == 0;
        assert(writable == !has_flag(flags, LO_FLAGS_READ_ONLY)) by (bit_vector)
            requires
                writable == (flags & 1u32 == 0u32),
        ;
        let run = AttachRun {
            device: self.device(),
            info,
            direct_io: self.direct_io(),
            phase: AttachPhase::AwaitOpen,
        };
        (run, AttachCommand::OpenBackingFile { writable })
    }

    /// Starts attaching the loop device to the backing file open as `fd`:
    /// the first command is `LOOP_SET_FD` with `fd`.
    pub fn attach_fd(self, fd: i32) -> (r: (AttachRun<'d, D>, AttachCommand))
        ensures
            r.0.spec_device() == self.spec_device(),
            r.0.spec_info() == self.spec_info(),
            r.0.spec_direct_io() == self.spec_direct_io(),
            r.0.spec_phase() is AwaitSetFd,
            r.1 == AttachCommand::Ioctl(LoopRequest::SetFd(fd)),
    {
        let run = AttachRun {
            device: self.device(),
            info: self.info(),
            direct_io: self.direct_io(),
            phase: AttachPhase::AwaitSetFd,
        };
        (run, AttachCommand::Ioctl(LoopRequest::SetFd(fd)))
    }
}

} // verus!
