use vstd::prelude::*;

verus! {

/// Where the first user process stands in setting up its console and
/// starting the shell. Each step names the system call it makes next.
#[derive(PartialEq, Eq, Structural, Debug, Clone, Copy)]
pub enum ConsoleStep {
    /// Open "/console" for reading and writing.
    Open,
    /// The console did not exist: make the device node "/console" (1, 1).
    Mknod,
    /// Open the console that was just made.
    Reopen,
    /// Duplicate descriptor 0 as standard output.
    DupStdout,
    /// Duplicate descriptor 0 as standard error.
    DupStderr,
    /// Spawn the shell "/sh" with descriptors 0, 1 and 2.
    SpawnShell,
    /// The shell runs.
    Done,
    /// A call failed or gave an unexpected descriptor.
    Failed(ConsoleFailure),
}

/// What went wrong while setting up the console.
#[derive(PartialEq, Eq, Structural, Debug, Clone, Copy)]
pub enum ConsoleFailure {
    /// The console opened on another descriptor than 0.
    NotStdin(usize),
    /// Making the console's device node failed.
    MknodFailed,
    /// The console could not be opened after it was made.
    ReopenFailed,
    /// Duplicating descriptor 0 failed or gave another descriptor than
    /// expected.
    DupFailed,
    /// The shell could not be spawned.
    SpawnFailed,
}

/// The system call the process makes next.
#[derive(PartialEq, Eq, Structural, Debug, Clone, Copy)]
pub enum ConsoleCall {
    /// `open("/console", READWRITE)`.
    OpenConsole,
    /// `mknod("/console", 1, 1)`.
    MknodConsole,
    /// `dup(0)`.
    DupStdin,
    /// `spawn_domain("/sh", "", [0, 1, 2])`.
    SpawnShell,
    /// Nothing more: the setup is over.
    Finished,
    /// Give up with this failure.
    Abort(ConsoleFailure),
}

/// What a system call gave back.
#[derive(PartialEq, Eq, Structural, Debug, Clone, Copy)]
pub enum CallResult {
    /// A descriptor.
    Fd(usize),
    /// Success, with nothing to give back.
    Unit,
    /// The call failed.
    Error,
}

/// The call a step stands for.
pub open spec fn spec_call(step: ConsoleStep) -> ConsoleCall {
    match step {
        ConsoleStep::Open => ConsoleCall::OpenConsole,
        ConsoleStep::Mknod => ConsoleCall::MknodConsole,
        ConsoleStep::Reopen => ConsoleCall::OpenConsole,
        ConsoleStep::DupStdout => ConsoleCall::DupStdin,
        ConsoleStep::DupStderr => ConsoleCall::DupStdin,
        ConsoleStep::SpawnShell => ConsoleCall::SpawnShell,
        ConsoleStep::Done => ConsoleCall::Finished,
        ConsoleStep::Failed(f) => ConsoleCall::Abort(f),
    }
}

/// The step after `result` answered the call of `step`. A result of a kind
/// the call does not give (a descriptor from `mknod`, nothing from `open`)
/// leaves the step as it is.
pub open spec fn spec_next(step: ConsoleStep, result: CallResult) -> ConsoleStep {
    match (step, result) {
        (ConsoleStep::Open, CallResult::Fd(fd)) => if fd == 0 {
            ConsoleStep::DupStdout
        } else {
            ConsoleStep::Failed(ConsoleFailure::NotStdin(fd))
        },
        (ConsoleStep::Open, CallResult::Error) => ConsoleStep::Mknod,
        (ConsoleStep::Mknod, CallResult::Unit) => ConsoleStep::Reopen,
        (ConsoleStep::Mknod, CallResult::Error) => ConsoleStep::Failed(ConsoleFailure::MknodFailed),
        (ConsoleStep::Reopen, CallResult::Fd(fd)) => if fd == 0 {
            ConsoleStep::DupStdout
        } else {
            ConsoleStep::Failed(ConsoleFailure::NotStdin(fd))
        },
        (ConsoleStep::Reopen, CallResult::Error) => ConsoleStep::Failed(
            ConsoleFailure::ReopenFailed,
        ),
        (ConsoleStep::DupStdout, CallResult::Fd(fd)) => if fd == 1 {
            ConsoleStep::DupStderr
        } else {
            ConsoleStep::Failed(ConsoleFailure::DupFailed)
        },
        (ConsoleStep::DupStdout, CallResult::Error) => ConsoleStep::Failed(
            ConsoleFailure::DupFailed,
        ),
        (ConsoleStep::DupStderr, CallResult::Fd(fd)) => if fd == 2 {
            ConsoleStep::SpawnShell
        } else {
            ConsoleStep::Failed(ConsoleFailure::DupFailed)
        },
        (ConsoleStep::DupStderr, CallResult::Error) => ConsoleStep::Failed(
            ConsoleFailure::DupFailed,
        ),
        (ConsoleStep::SpawnShell, CallResult::Unit) => ConsoleStep::Done,
        (ConsoleStep::SpawnShell, CallResult::Error) => ConsoleStep::Failed(
            ConsoleFailure::SpawnFailed,
        ),
        _ => step,
    }
}

/// The setup the first user process runs: make sure "/console" exists and
/// is open as descriptor 0, duplicate it as descriptors 1 and 2, then start
/// the shell with those three descriptors. The process makes the call of
/// the current step and hands back what it gave.
pub struct ConsoleSetup {
    step: ConsoleStep,
}

impl ConsoleSetup {
    pub closed spec fn step(&self) -> ConsoleStep {
        self.step
    }

    /// A setup that has not begun: its first call opens the console.
    pub fn new() -> (s: Self)
        ensures
            s.step() == ConsoleStep::Open,
    {
        ConsoleSetup { step: ConsoleStep::Open }
    }

    /// The call the process makes next.
    pub fn call(&self) -> (c: ConsoleCall)
        ensures
            c == spec_call(self.step()),
    {
        match self.step {
            ConsoleStep::Open => ConsoleCall::OpenConsole,
            ConsoleStep::Mknod => ConsoleCall::MknodConsole,
            ConsoleStep::Reopen => ConsoleCall::OpenConsole,
            ConsoleStep::DupStdout => ConsoleCall::DupStdin,
            ConsoleStep::DupStderr => ConsoleCall::DupStdin,
            ConsoleStep::SpawnShell => ConsoleCall::SpawnShell,
            ConsoleStep::Done => ConsoleCall::Finished,
            ConsoleStep::Failed(f) => ConsoleCall::Abort(f),
        }
    }

    /// Moves on after the current call gave `result`, and returns the next
    /// call.
    pub fn advance(&mut self, result: CallResult) -> (c: ConsoleCall)
        ensures
            final(self).step() == spec_next(old(self).step(), result),
            c == spec_call(final(self).step()),
    {
        let next = match (self.step, result) {
            (ConsoleStep::Open, CallResult::Fd(fd)) => if fd == 0 {
                ConsoleStep::DupStdout
            } else {
                ConsoleStep::Failed(ConsoleFailure::NotStdin(fd))
            },
            (ConsoleStep::Open, CallResult::Error) => ConsoleStep::Mknod,
            (ConsoleStep::Mknod, CallResult::Unit) => ConsoleStep::Reopen,
            (ConsoleStep::Mknod, CallResult::Error) => ConsoleStep::Failed(
                ConsoleFailure::MknodFailed,
            ),
            (ConsoleStep::Reopen, CallResult::Fd(fd)) => if fd == 0 {
                ConsoleStep::DupStdout
            } else {
                ConsoleStep::Failed(ConsoleFailure::NotStdin(fd))
            },
            (ConsoleStep::Reopen, CallResult::Error) => ConsoleStep::Failed(
                ConsoleFailure::ReopenFailed,
            ),
            (ConsoleStep::DupStdout, CallResult::Fd(fd)) => if fd == 1 {
                ConsoleStep::DupStderr
            } else {
                ConsoleStep::Failed(ConsoleFailure::DupFailed)
            },
            (ConsoleStep::DupStdout, CallResult::Error) => ConsoleStep::Failed(
                ConsoleFailure::DupFailed,
            ),
            (ConsoleStep::DupStderr, CallResult::Fd(fd)) => if fd == 2 {
                ConsoleStep::SpawnShell
            } else {
                ConsoleStep::Failed(ConsoleFailure::DupFailed)
            },
            (ConsoleStep::DupStderr, CallResult::Error) => ConsoleStep::Failed(
                ConsoleFailure::DupFailed,
            ),
            (ConsoleStep::SpawnShell, CallResult::Unit) => ConsoleStep::Done,
            (ConsoleStep::SpawnShell, CallResult::Error) => ConsoleStep::Failed(
                ConsoleFailure::SpawnFailed,
            ),
            (step, _) => step,
        };
        self.step = next;
        self.call()
    }
}

/// How far along the setup a step is; a failure ends it.
pub open spec fn rank(step: ConsoleStep) -> int {
    match step {
        ConsoleStep::Open => 0,
        ConsoleStep::Mknod => 1,
        ConsoleStep::Reopen => 2,
        ConsoleStep::DupStdout => 3,
        ConsoleStep::DupStderr => 4,
        ConsoleStep::SpawnShell => 5,
        ConsoleStep::Done => 6,
        ConsoleStep::Failed(_) => 7,
    }
}

/// Progress law: the setup never goes back, and once it is done or has
/// failed it stays so.
pub proof fn lemma_progress(step: ConsoleStep, result: CallResult)
    ensures
        rank(spec_next(step, result)) >= rank(step),
        step == ConsoleStep::Done ==> spec_next(step, result) == step,
        step is Failed ==> spec_next(step, result) == step,
{
}

/// Shell law: the shell is spawned only with the console on descriptors 0,
/// 1 and 2: the standard output duplicate came back as 1 before the
/// standard error duplicate came back as 2, and those duplicates are only
/// made once an open of the console gave descriptor 0.
pub proof fn lemma_shell_after_descriptors(step: ConsoleStep, result: CallResult)
    ensures
        spec_next(step, result) == ConsoleStep::SpawnShell && step != ConsoleStep::SpawnShell
            ==> step == ConsoleStep::DupStderr && result == CallResult::Fd(2),
        spec_next(step, result) == ConsoleStep::DupStderr && step != ConsoleStep::DupStderr
            ==> step == ConsoleStep::DupStdout && result == CallResult::Fd(1),
        spec_next(step, result) == ConsoleStep::DupStdout && step != ConsoleStep::DupStdout
            ==> (step == ConsoleStep::Open || step == ConsoleStep::Reopen) && result
            == CallResult::Fd(0),
{
}

/// Completion law: the setup is over only once the shell was spawned: the
/// one step that reaches `Done` is a spawn of the shell that succeeded.
pub proof fn lemma_done_only_after_spawn(step: ConsoleStep, result: CallResult)
    ensures
        spec_next(step, result) == ConsoleStep::Done && step != ConsoleStep::Done ==> step
            == ConsoleStep::SpawnShell && result == CallResult::Unit,
        spec_call(spec_next(step, result)) == ConsoleCall::Finished ==> spec_next(step, result)
            == ConsoleStep::Done,
{
}

/// Descriptor law: a duplicate that does not come back as the expected
/// descriptor (1 for standard output, 2 for standard error) fails the setup
/// with `DupFailed`, and so does a failed duplicate; the shell is never
/// spawned then.
pub proof fn lemma_wrong_descriptor_fails(fd: usize)
    ensures
        fd != 1 ==> spec_next(ConsoleStep::DupStdout, CallResult::Fd(fd)) == ConsoleStep::Failed(
            ConsoleFailure::DupFailed,
        ),
        fd != 2 ==> spec_next(ConsoleStep::DupStderr, CallResult::Fd(fd)) == ConsoleStep::Failed(
            ConsoleFailure::DupFailed,
        ),
        spec_next(ConsoleStep::DupStdout, CallResult::Error) == ConsoleStep::Failed(
            ConsoleFailure::DupFailed,
        ),
        spec_next(ConsoleStep::DupStderr, CallResult::Error) == ConsoleStep::Failed(
            ConsoleFailure::DupFailed,
        ),
        fd != 0 ==> spec_next(ConsoleStep::Open, CallResult::Fd(fd)) == ConsoleStep::Failed(
            ConsoleFailure::NotStdin(fd),
        ),
        fd != 0 ==> spec_next(ConsoleStep::Reopen, CallResult::Fd(fd)) == ConsoleStep::Failed(
            ConsoleFailure::NotStdin(fd),
        ),
{
}

} // verus!
