use vstd::prelude::*;

verus! {

/// One millisecond, as the driver counts it, in nanoseconds.
pub const ONE_MS_IN_NS: u64 = 100_0000;

/// The enable bit of the controller configuration register.
pub const NVME_CC_ENABLE: u32 = 0x1;

/// The ready bit of the controller status register.
pub const NVME_CSTS_RDY: u32 = 0x1;

/// How long the driver sleeps between two polls of a status register.
pub const POLL_INTERVAL_NS: u64 = ONE_MS_IN_NS * 100;

/// The 32-bit controller registers the initialisation uses.
#[derive(PartialEq, Eq, Structural, Debug, Clone, Copy)]
pub enum NvmeRegs32 {
    /// Version.
    VS,
    /// Controller configuration.
    CC,
    /// Controller status.
    CSTS,
}

/// The 64-bit controller registers the initialisation uses.
#[derive(PartialEq, Eq, Structural, Debug, Clone, Copy)]
pub enum NvmeRegs64 {
    /// Controller capabilities.
    CAP,
}

/// `current` with the bits of `flags` set.
pub fn flag32_set(current: u32, flags: u32) -> (r: u32)
    ensures
        r == current | flags,
{
    current | flags
}

/// `current` with the bits of `flags` cleared.
pub fn flag32_cleared(current: u32, flags: u32) -> (r: u32)
    ensures
        r == current & !flags,
{
    current & !flags
}

/// The sizes of the queue entries, as powers of two.
pub open spec fn entry_sizes() -> u32 {
    // completion entries of 2^4 bytes, command entries of 2^6 bytes
    (4u32 << 20u32) | (6u32 << 16u32)
}

/// The controller configuration `cc` with the entry sizes added.
pub fn entry_sizes_set(cc: u32) -> (r: u32)
    ensures
        r == cc | entry_sizes(),
{
    let r = cc | (4 << 20) | (6 << 16);
    assert((cc | (4u32 << 20u32)) | (6u32 << 16u32) == cc | ((4u32 << 20u32) | (6u32 << 16u32)))
        by (bit_vector);
    r
}

/// Whether a wait for `value` to be set in a register that reads `current`
/// is over.
pub fn wait_set_done(current: u32, value: u32) -> (b: bool)
    ensures
        b == ((current & value) == 1),
{
    (current & value) == 1
}

/// Whether a wait for `value` to be cleared in a register that reads
/// `current` is over.
pub fn wait_clear_done(current: u32, value: u32) -> (b: bool)
    ensures
        b == ((current & value) == 0),
{
    (current & value) == 0
}

/// Where the initialisation of a controller stands. Each step names what
/// the driver does next.
#[derive(PartialEq, Eq, Structural, Debug, Clone, Copy)]
pub enum InitStep {
    /// Read the capabilities, to report them.
    ReportCap,
    /// Read the version, to report it.
    ReportVersion,
    /// Read the configuration, to report it.
    ReportConfig,
    /// Read the status, to report it.
    ReportStatus,
    /// Read the configuration, to clear its enable bit.
    ResetReadConfig,
    /// Write the configuration with the enable bit cleared.
    ResetWrite(u32),
    /// Read the status, until the ready bit is cleared.
    ResetPoll,
    /// Sleep before reading the status again.
    ResetSleep,
    /// Set up the admin queues.
    ConfigureAdminQueue,
    /// Read the configuration, to add the entry sizes.
    SizesReadConfig,
    /// Write the configuration with the entry sizes.
    SizesWrite(u32),
    /// Read the configuration, to set its enable bit.
    EnableReadConfig,
    /// Write the configuration with the enable bit set.
    EnableWrite(u32),
    /// Read the status, until the ready bit is set.
    ReadyPoll,
    /// Sleep before reading the status again.
    ReadySleep,
    /// Identify the controller.
    IdentifyController,
    /// Identify the list of namespaces.
    IdentifyNsList,
    /// Identify namespace 1.
    IdentifyNs,
    /// Create the I/O queues.
    CreateIoQueues,
    /// The controller is ready for I/O.
    Done,
}

/// What the driver does next, on the controller or the clock.
#[derive(PartialEq, Eq, Structural, Debug, Clone, Copy)]
pub enum InitAction {
    Read32(NvmeRegs32),
    Read64(NvmeRegs64),
    Write32(NvmeRegs32, u32),
    SleepNs(u64),
    ConfigureAdminQueue,
    IdentifyController,
    IdentifyNsList,
    IdentifyNs(u32),
    CreateIoQueues,
    Finished,
}

/// What the driver reports back after an action.
#[derive(PartialEq, Eq, Structural, Debug, Clone, Copy)]
pub enum InitEvent {
    /// A 32-bit register read gave this value.
    Value32(u32),
    /// A 64-bit register read gave this value.
    Value64(u64),
    /// A write, a sleep or a command completed.
    Completed,
}

/// The action a step stands for.
pub open spec fn spec_action(step: InitStep) -> InitAction {
    match step {
        InitStep::ReportCap => InitAction::Read64(NvmeRegs64::CAP),
        InitStep::ReportVersion => InitAction::Read32(NvmeRegs32::VS),
        InitStep::ReportConfig => InitAction::Read32(NvmeRegs32::CC),
        InitStep::ReportStatus => InitAction::Read32(NvmeRegs32::CSTS),
        InitStep::ResetReadConfig => InitAction::Read32(NvmeRegs32::CC),
        InitStep::ResetWrite(v) => InitAction::Write32(NvmeRegs32::CC, v),
        InitStep::ResetPoll => InitAction::Read32(NvmeRegs32::CSTS),
        InitStep::ResetSleep => InitAction::SleepNs(POLL_INTERVAL_NS),
        InitStep::ConfigureAdminQueue => InitAction::ConfigureAdminQueue,
        InitStep::SizesReadConfig => InitAction::Read32(NvmeRegs32::CC),
        InitStep::SizesWrite(v) => InitAction::Write32(NvmeRegs32::CC, v),
        InitStep::EnableReadConfig => InitAction::Read32(NvmeRegs32::CC),
        InitStep::EnableWrite(v) => InitAction::Write32(NvmeRegs32::CC, v),
        InitStep::ReadyPoll => InitAction::Read32(NvmeRegs32::CSTS),
        InitStep::ReadySleep => InitAction::SleepNs(POLL_INTERVAL_NS),
        InitStep::IdentifyController => InitAction::IdentifyController,
        InitStep::IdentifyNsList => InitAction::IdentifyNsList,
        InitStep::IdentifyNs => InitAction::IdentifyNs(1),
        InitStep::CreateIoQueues => InitAction::CreateIoQueues,
        InitStep::Done => InitAction::Finished,
    }
}

/// The step that follows `step` once `event` answers its action. An event
/// that does not answer the action (a value of the wrong width, or a
/// completion where a value is awaited) leaves the step as it is, so that
/// the action is asked for again.
pub open spec fn spec_next(step: InitStep, event: InitEvent) -> InitStep {
    match (step, event) {
        (InitStep::ReportCap, InitEvent::Value64(_)) => InitStep::ReportVersion,
        (InitStep::ReportVersion, InitEvent::Value32(_)) => InitStep::ReportConfig,
        (InitStep::ReportConfig, InitEvent::Value32(_)) => InitStep::ReportStatus,
        (InitStep::ReportStatus, InitEvent::Value32(_)) => InitStep::ResetReadConfig,
        (InitStep::ResetReadConfig, InitEvent::Value32(cc)) => InitStep::ResetWrite(
            cc & !NVME_CC_ENABLE,
        ),
        (InitStep::ResetWrite(_), InitEvent::Completed) => InitStep::ResetPoll,
        (InitStep::ResetPoll, InitEvent::Value32(csts)) => if (csts & NVME_CSTS_RDY) == 0 {
            InitStep::ConfigureAdminQueue
        } else {
            InitStep::ResetSleep
        },
        (InitStep::ResetSleep, InitEvent::Completed) => InitStep::ResetPoll,
        (InitStep::ConfigureAdminQueue, InitEvent::Completed) => InitStep::SizesReadConfig,
        (InitStep::SizesReadConfig, InitEvent::Value32(cc)) => InitStep::SizesWrite(
            cc | entry_sizes(),
        ),
        (InitStep::SizesWrite(_), InitEvent::Completed) => InitStep::EnableReadConfig,
        (InitStep::EnableReadConfig, InitEvent::Value32(cc)) => InitStep::EnableWrite(
            cc | NVME_CC_ENABLE,
        ),
        (InitStep::EnableWrite(_), InitEvent::Completed) => InitStep::ReadyPoll,
        (InitStep::ReadyPoll, InitEvent::Value32(csts)) => if (csts & NVME_CSTS_RDY) == 1 {
            InitStep::IdentifyController
        } else {
            InitStep::ReadySleep
        },
        (InitStep::ReadySleep, InitEvent::Completed) => InitStep::ReadyPoll,
        (InitStep::IdentifyController, InitEvent::Completed) => InitStep::IdentifyNsList,
        (InitStep::IdentifyNsList, InitEvent::Completed) => InitStep::IdentifyNs,
        (InitStep::IdentifyNs, InitEvent::Completed) => InitStep::CreateIoQueues,
        (InitStep::CreateIoQueues, InitEvent::Completed) => InitStep::Done,
        _ => step,
    }
}

/// The initialisation of an NVMe controller (NVMe 1.4, 7.6.1): report the
/// registers, reset the controller and wait until it acknowledges, set up
/// the admin queues and the entry sizes, enable it and wait until it is
/// ready, then identify it and its namespaces and create the I/O queues.
///
/// The driver performs the action of the current step and hands back what
/// came of it.
pub struct NvmeInit {
    step: InitStep,
}

impl NvmeInit {
    /// Where the initialisation stands.
    pub closed spec fn step(&self) -> InitStep {
        self.step
    }

    /// An initialisation that has not begun: its first action reads the
    /// capabilities.
    pub fn new() -> (s: Self)
        ensures
            s.step() == InitStep::ReportCap,
    {
        NvmeInit { step: InitStep::ReportCap }
    }

    /// Where the initialisation stands.
    pub fn current_step(&self) -> (s: InitStep)
        ensures
            s == self.step(),
    {
        self.step
    }

    /// The action the driver performs next.
    pub fn action(&self) -> (a: InitAction)
        ensures
            a == spec_action(self.step()),
    {
        match self.step {
            InitStep::ReportCap => InitAction::Read64(NvmeRegs64::CAP),
            InitStep::ReportVersion => InitAction::Read32(NvmeRegs32::VS),
            InitStep::ReportConfig => InitAction::Read32(NvmeRegs32::CC),
            InitStep::ReportStatus => InitAction::Read32(NvmeRegs32::CSTS),
            InitStep::ResetReadConfig => InitAction::Read32(NvmeRegs32::CC),
            InitStep::ResetWrite(v) => InitAction::Write32(NvmeRegs32::CC, v),
            InitStep::ResetPoll => InitAction::Read32(NvmeRegs32::CSTS),
            InitStep::ResetSleep => InitAction::SleepNs(POLL_INTERVAL_NS),
            InitStep::ConfigureAdminQueue => InitAction::ConfigureAdminQueue,
            InitStep::SizesReadConfig => InitAction::Read32(NvmeRegs32::CC),
            InitStep::SizesWrite(v) => InitAction::Write32(NvmeRegs32::CC, v),
            InitStep::EnableReadConfig => InitAction::Read32(NvmeRegs32::CC),
            InitStep::EnableWrite(v) => InitAction::Write32(NvmeRegs32::CC, v),
            InitStep::ReadyPoll => InitAction::Read32(NvmeRegs32::CSTS),
            InitStep::ReadySleep => InitAction::SleepNs(POLL_INTERVAL_NS),
            InitStep::IdentifyController => InitAction::IdentifyController,
            InitStep::IdentifyNsList => InitAction::IdentifyNsList,
            InitStep::IdentifyNs => InitAction::IdentifyNs(1),
            InitStep::CreateIoQueues => InitAction::CreateIoQueues,
            InitStep::Done => InitAction::Finished,
        }
    }

    /// Moves on after `event` answered the current action, and returns the
    /// next action.
    pub fn advance(&mut self, event: InitEvent) -> (a: InitAction)
        ensures
            final(self).step() == spec_next(old(self).step(), event),
            a == spec_action(final(self).step()),
    {
        let next = match (self.step, event) {
            (InitStep::ReportCap, InitEvent::Value64(_)) => InitStep::ReportVersion,
            (InitStep::ReportVersion, InitEvent::Value32(_)) => InitStep::ReportConfig,
            (InitStep::ReportConfig, InitEvent::Value32(_)) => InitStep::ReportStatus,
            (InitStep::ReportStatus, InitEvent::Value32(_)) => InitStep::ResetReadConfig,
            (InitStep::ResetReadConfig, InitEvent::Value32(cc)) => InitStep::ResetWrite(
                flag32_cleared(cc, NVME_CC_ENABLE),
            ),
            (InitStep::ResetWrite(_), InitEvent::Completed) => InitStep::ResetPoll,
            (InitStep::ResetPoll, InitEvent::Value32(csts)) => if wait_clear_done(
                csts,
                NVME_CSTS_RDY,
            ) {
                InitStep::ConfigureAdminQueue
            } else {
                InitStep::ResetSleep
            },
            (InitStep::ResetSleep, InitEvent::Completed) => InitStep::ResetPoll,
            (InitStep::ConfigureAdminQueue, InitEvent::Completed) => InitStep::SizesReadConfig,
            (InitStep::SizesReadConfig, InitEvent::Value32(cc)) => InitStep::SizesWrite(
                entry_sizes_set(cc),
            ),
            (InitStep::SizesWrite(_), InitEvent::Completed) => InitStep::EnableReadConfig,
            (InitStep::EnableReadConfig, InitEvent::Value32(cc)) => InitStep::EnableWrite(
                flag32_set(cc, NVME_CC_ENABLE),
            ),
            (InitStep::EnableWrite(_), InitEvent::Completed) => InitStep::ReadyPoll,
            (InitStep::ReadyPoll, InitEvent::Value32(csts)) => if wait_set_done(
                csts,
                NVME_CSTS_RDY,
            ) {
                InitStep::IdentifyController
            } else {
                InitStep::ReadySleep
            },
            (InitStep::ReadySleep, InitEvent::Completed) => InitStep::ReadyPoll,
            (InitStep::IdentifyController, InitEvent::Completed) => InitStep::IdentifyNsList,
            (InitStep::IdentifyNsList, InitEvent::Completed) => InitStep::IdentifyNs,
            (InitStep::IdentifyNs, InitEvent::Completed) => InitStep::CreateIoQueues,
            (InitStep::CreateIoQueues, InitEvent::Completed) => InitStep::Done,
            (step, _) => step,
        };
        self.step = next;
        self.action()
    }
}

/// How far along the initialisation a step is.
pub open spec fn rank(step: InitStep) -> int {
    match step {
        InitStep::ReportCap => 0,
        InitStep::ReportVersion => 1,
        InitStep::ReportConfig => 2,
        InitStep::ReportStatus => 3,
        InitStep::ResetReadConfig => 4,
        InitStep::ResetWrite(_) => 5,
        InitStep::ResetPoll => 6,
        InitStep::ResetSleep => 6,
        InitStep::ConfigureAdminQueue => 7,
        InitStep::SizesReadConfig => 8,
        InitStep::SizesWrite(_) => 9,
        InitStep::EnableReadConfig => 10,
        InitStep::EnableWrite(_) => 11,
        InitStep::ReadyPoll => 12,
        InitStep::ReadySleep => 12,
        InitStep::IdentifyController => 13,
        InitStep::IdentifyNsList => 14,
        InitStep::IdentifyNs => 15,
        InitStep::CreateIoQueues => 16,
        InitStep::Done => 17,
    }
}

/// Progress law: the initialisation never goes back. It only stays where it
/// is while it waits on a status bit (polling and sleeping in turn), on an
/// event that does not answer its action, or once it is done.
pub proof fn lemma_progress(step: InitStep, event: InitEvent)
    ensures
        rank(spec_next(step, event)) >= rank(step),
        rank(spec_next(step, event)) <= rank(step) + 1,
{
}

/// Reset law: the controller's admin queues are set up (and it is enabled
/// later) only once it has acknowledged the reset: the one step that passes
/// the reset wait is a status read with the ready bit clear.
pub proof fn lemma_reset_acknowledged_first(step: InitStep, event: InitEvent)
    requires
        rank(step) <= rank(InitStep::ResetPoll),
        rank(spec_next(step, event)) > rank(InitStep::ResetPoll),
    ensures
        step == InitStep::ResetPoll,
        event matches InitEvent::Value32(csts) && (csts & NVME_CSTS_RDY) == 0,
{
}

/// Ready law: the controller is sent commands only once it reports ready:
/// the one step that passes the ready wait is a status read with the ready
/// bit set.
pub proof fn lemma_ready_before_commands(step: InitStep, event: InitEvent)
    requires
        rank(step) <= rank(InitStep::ReadyPoll),
        rank(spec_next(step, event)) > rank(InitStep::ReadyPoll),
    ensures
        step == InitStep::ReadyPoll,
        event matches InitEvent::Value32(csts) && (csts & NVME_CSTS_RDY) == 1,
{
}

/// Register law: the reset write clears the enable bit of the configuration
/// and keeps its other bits; the enable write sets it and keeps the others.
pub proof fn lemma_enable_bit_writes(cc: u32)
    ensures
        (cc & !NVME_CC_ENABLE) & NVME_CC_ENABLE == 0,
        (cc & !NVME_CC_ENABLE) | (cc & NVME_CC_ENABLE) == cc,
        (cc | NVME_CC_ENABLE) & NVME_CC_ENABLE == NVME_CC_ENABLE,
        (cc | NVME_CC_ENABLE) & !NVME_CC_ENABLE == cc & !NVME_CC_ENABLE,
{
    assert((cc & !1u32) & 1u32 == 0) by (bit_vector);
    assert((cc & !1u32) | (cc & 1u32) == cc) by (bit_vector);
    assert((cc | 1u32) & 1u32 == 1u32) by (bit_vector);
    assert((cc | 1u32) & !1u32 == cc & !1u32) by (bit_vector);
}

/// Register law: writing the entry sizes over a configuration whose entry
/// size fields are clear gives command entries of 2^6 bytes (bits 16 to 19)
/// and completion entries of 2^4 bytes (bits 20 to 23), and leaves the bits
/// outside those fields as they were.
pub proof fn lemma_entry_sizes(cc: u32)
    ensures
        (cc >> 16u32) & 0xffu32 == 0 ==> ((cc | entry_sizes()) >> 16u32) & 0xfu32 == 6,
        (cc >> 16u32) & 0xffu32 == 0 ==> ((cc | entry_sizes()) >> 20u32) & 0xfu32 == 4,
        (cc | entry_sizes()) & !0x00ff_0000u32 == cc & !0x00ff_0000u32,
{
    assert((cc >> 16u32) & 0xffu32 == 0 ==> ((cc | ((4u32 << 20u32) | (6u32 << 16u32))) >> 16u32)
        & 0xfu32 == 6) by (bit_vector);
    assert((cc >> 16u32) & 0xffu32 == 0 ==> ((cc | ((4u32 << 20u32) | (6u32 << 16u32))) >> 20u32)
        & 0xfu32 == 4) by (bit_vector);
    assert((cc | ((4u32 << 20u32) | (6u32 << 16u32))) & !0x00ff_0000u32 == cc & !0x00ff_0000u32)
        by (bit_vector);
}

/// Reset law: whatever configuration `cc` the reset step reads, the write
/// that follows clears the enable bit and keeps every other bit of `cc`;
/// so a disabled controller stays disabled, and an enabled one is disabled.
pub proof fn lemma_reset_write_clears_enable(cc: u32)
    ensures
        spec_next(InitStep::ResetReadConfig, InitEvent::Value32(cc)) matches InitStep::ResetWrite(v)
            && v & NVME_CC_ENABLE == 0 && v & !NVME_CC_ENABLE == cc & !NVME_CC_ENABLE,
        spec_action(spec_next(InitStep::ResetReadConfig, InitEvent::Value32(cc)))
            matches InitAction::Write32(reg, v) && reg == NvmeRegs32::CC && v & NVME_CC_ENABLE == 0,
{
    assert((cc & !1u32) & 1u32 == 0) by (bit_vector);
    assert((cc & !1u32) & !1u32 == cc & !1u32) by (bit_vector);
}

/// Enable law: whatever configuration `cc` the enable step reads, the write
/// that follows sets the enable bit and keeps every other bit of `cc`.
pub proof fn lemma_enable_write_sets_enable(cc: u32)
    ensures
        spec_next(InitStep::EnableReadConfig, InitEvent::Value32(cc)) matches InitStep::EnableWrite(v)
            && v & NVME_CC_ENABLE == NVME_CC_ENABLE && v & !NVME_CC_ENABLE == cc & !NVME_CC_ENABLE,
{
    assert((cc | 1u32) & 1u32 == 1u32) by (bit_vector);
    assert((cc | 1u32) & !1u32 == cc & !1u32) by (bit_vector);
}

/// Entry size law: the write that follows the configuration read of the
/// entry size step keeps every bit that was set in `cc`, and sets the
/// entry size bits.
pub proof fn lemma_sizes_write_keeps_config(cc: u32)
    ensures
        spec_next(InitStep::SizesReadConfig, InitEvent::Value32(cc)) matches InitStep::SizesWrite(v)
            && v & cc == cc && v & 0x0046_0000u32 == 0x0046_0000u32
            && v & !0x00ff_0000u32 == cc & !0x00ff_0000u32,
{
    assert((cc | ((4u32 << 20u32) | (6u32 << 16u32))) & cc == cc) by (bit_vector);
    assert((cc | ((4u32 << 20u32) | (6u32 << 16u32))) & 0x0046_0000u32 == 0x0046_0000u32)
        by (bit_vector);
    assert((cc | ((4u32 << 20u32) | (6u32 << 16u32))) & !0x00ff_0000u32 == cc & !0x00ff_0000u32)
        by (bit_vector);
}

} // verus!
