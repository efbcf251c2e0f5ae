//! File descriptors.

use crate::error::Error;
use crate::step::{Reply, Step};
use vstd::prelude::*;

verus! {

/// A file descriptor that its holder closes when done with it.
#[derive(PartialEq, Eq, Structural, Debug)]
pub struct ScopedFd(pub i32);

/// A value that the flag of a descriptor which is closed when its process runs another program has on some platform.
pub open spec fn is_cloexec_flag(flag: i32) -> bool {
    flag == 1 || flag == 0x0100_0000
}

/// The flag of a descriptor that is closed when its process runs another program:
/// `libc::FD_CLOEXEC`.
///
/// What is claimed is that it is one of the two values that it has, depending on the platform. Which of them it is
/// is left unsaid.
#[verifier::external_body]
pub(crate) fn fd_cloexec() -> (flag: i32)
    ensures
        is_cloexec_flag(flag),
{
    libc::FD_CLOEXEC
}

/// A change of the flag that has a descriptor closed when its process runs another program.
#[derive(Clone, Copy, PartialEq, Eq, Structural, Debug)]
pub enum FlagChange {
    /// The flags of the descriptor are to be read.
    Read { fd: i32, close_on_exec: bool },
    /// The flags of the descriptor are to be set.
    Write { fd: i32, flags: i32 },
}

/// A call that a change of flags makes.
#[derive(Clone, Copy, PartialEq, Eq, Structural, Debug)]
pub enum FlagCall {
    /// Read the flags of a descriptor.
    Read { fd: i32 },
    /// Set the flags of a descriptor.
    Write { fd: i32, flags: i32 },
}

/// Starts to set a descriptor to be closed when its process runs another program.
pub fn set_cloexec(fd: i32) -> (change: FlagChange)
    ensures
        change == (FlagChange::Read { fd, close_on_exec: true }),
{
    FlagChange::Read { fd, close_on_exec: true }
}

/// Starts to set a descriptor to stay open when its process runs another program.
pub fn clear_cloexec(fd: i32) -> (change: FlagChange)
    ensures
        change == (FlagChange::Read { fd, close_on_exec: false }),
{
    FlagChange::Read { fd, close_on_exec: false }
}

/// The flags of a descriptor that had `flags`, once it is set to be closed, or not to be closed, when
/// its process runs another program. `flag` is the flag for that.
pub open spec fn changed_flags(flag: i32, flags: i32, close_on_exec: bool) -> i32 {
    if close_on_exec {
        flags | flag
    } else {
        flags & !flag
    }
}

impl FlagChange {
    /// The call that is due.
    pub open spec fn spec_call(self) -> FlagCall {
        match self {
            FlagChange::Read { fd, .. } => FlagCall::Read { fd },
            FlagChange::Write { fd, flags } => FlagCall::Write { fd, flags },
        }
    }

    /// What the change of `flag` comes to after a reply. A failure to read the flags goes unnoticed: it is left
    /// to the call that sets them to fail.
    pub open spec fn spec_reply_by(self, flag: i32, reply: Reply) -> Step<FlagChange, ()> {
        match self {
            FlagChange::Read { fd, close_on_exec } => Step::Next(
                FlagChange::Write { fd, flags: changed_flags(flag, reply.value, close_on_exec) },
            ),
            FlagChange::Write { .. } => if reply.value == -1 {
                Step::Done(Err(Error::Os(reply.errno)))
            } else {
                Step::Done(Ok(()))
            },
        }
    }

    /// The call that is due.
    pub fn call(&self) -> (call: FlagCall)
        ensures
            call == self.spec_call(),
    {
        match self {
            FlagChange::Read { fd, .. } => FlagCall::Read { fd: *fd },
            FlagChange::Write { fd, flags } => FlagCall::Write { fd: *fd, flags: *flags },
        }
    }

    /// Moves on with the reply to the call that was due.
    pub fn reply(self, reply: Reply) -> (step: Step<FlagChange, ()>)
        ensures
            exists|flag: i32| is_cloexec_flag(flag) && step == #[trigger] self.spec_reply_by(flag, reply),
    {
        self.reply_by(fd_cloexec(), reply)
    }

    /// Moves on with the reply to the call that was due, where `flag` is the flag that is changed.
    pub fn reply_by(self, flag: i32, reply: Reply) -> (step: Step<FlagChange, ()>)
        ensures
            step == self.spec_reply_by(flag, reply),
    {
        match self {
            FlagChange::Read { fd, close_on_exec } => {
                let flags: i32 = if close_on_exec {
                    reply.value | flag
                } else {
                    reply.value & !flag
                };
                Step::Next(FlagChange::Write { fd, flags })
            },
            FlagChange::Write { .. } => if reply.value == -1 {
                Step::Done(Err(Error::Os(reply.errno)))
            } else {
                Step::Done(Ok(()))
            },
        }
    }
}

/// Changing a flag leaves all other flags as they were, and one change undoes another, whichever flag it is.
pub proof fn flag_changes_are_independent(flag: i32, flags: i32, close_on_exec: bool)
    ensures
        changed_flags(flag, flags, close_on_exec) & flag == (if close_on_exec {
            flag
        } else {
            0i32
        }),
        changed_flags(flag, flags, close_on_exec) & !flag == flags & !flag,
        changed_flags(flag, changed_flags(flag, flags, !close_on_exec), close_on_exec) == changed_flags(
            flag,
            flags,
            close_on_exec,
        ),
{
    assert((flags | flag) & flag == flag) by (bit_vector);
    assert((flags & !flag) & flag == 0) by (bit_vector);
    assert((flags | flag) & !flag == flags & !flag) by (bit_vector);
    assert((flags & !flag) & !flag == flags & !flag) by (bit_vector);
    assert((flags & !flag) | flag == flags | flag) by (bit_vector);
}

/// A change of flags that is driven to its end has set the flags that the descriptor had, with the one
/// flag changed, and has failed just where that call did.
pub proof fn flag_change_takes_two_calls(flag: i32, fd: i32, close_on_exec: bool, read: Reply, write: Reply)
    ensures
        ({
            let start = FlagChange::Read { fd, close_on_exec };
            &&& start.spec_call() == FlagCall::Read { fd }
            &&& start.spec_reply_by(flag, read) matches Step::Next(next) && next.spec_call() == (FlagCall::Write {
                fd,
                flags: changed_flags(flag, read.value, close_on_exec),
            }) && next.spec_reply_by(flag, write) == Step::<FlagChange, ()>::Done(
                if write.value == -1 {
                    Err(Error::Os(write.errno))
                } else {
                    Ok(())
                },
            )
        }),
{
}

/// Keeps a descriptor open across the launch of another program, until it is given up.
#[derive(Clone, Copy, PartialEq, Eq, Structural, Debug)]
pub struct CloexecGuard(pub i32);

impl CloexecGuard {
    /// The guard of a descriptor, from what came of setting the descriptor to stay open.
    pub fn new(fd: &i32, cleared: Result<(), Error>) -> (guard: Result<CloexecGuard, Error>)
        ensures
            guard == match cleared {
                Ok(_) => Ok::<CloexecGuard, Error>(CloexecGuard(*fd)),
                Err(e) => Err(e),
            },
    {
        match cleared {
            Ok(_) => Ok(CloexecGuard(*fd)),
            Err(e) => Err(e),
        }
    }

    /// Gives up the guard: starts to set the descriptor to be closed again.
    pub fn release(self) -> (change: FlagChange)
        ensures
            change == (FlagChange::Read { fd: self.0, close_on_exec: true }),
    {
        set_cloexec(self.0)
    }
}

} // verus!
