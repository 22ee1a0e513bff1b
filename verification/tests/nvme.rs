use redleaf::nvme::{
    entry_sizes_set, flag32_cleared, flag32_set, wait_clear_done, wait_set_done, InitAction,
    InitEvent, NvmeInit, NvmeRegs32, NvmeRegs64, NVME_CC_ENABLE, NVME_CSTS_RDY, POLL_INTERVAL_NS,
};

/// A controller model: a configuration register, and a status register that
/// follows the enable bit after `lag` polls.
struct Controller {
    cc: u32,
    csts: u32,
    lag: u32,
    pending: u32,
    log: Vec<InitAction>,
}

impl Controller {
    fn perform(&mut self, a: InitAction) -> InitEvent {
        self.log.push(a);
        match a {
            InitAction::Read64(NvmeRegs64::CAP) => InitEvent::Value64(0x0000_0020_0f01_ffff),
            InitAction::Read32(NvmeRegs32::VS) => InitEvent::Value32(0x0001_0300),
            InitAction::Read32(NvmeRegs32::CC) => InitEvent::Value32(self.cc),
            InitAction::Read32(NvmeRegs32::CSTS) => {
                if self.pending > 0 {
                    self.pending -= 1;
                    if self.pending == 0 {
                        self.csts = self.cc & 1;
                    }
                }
                InitEvent::Value32(self.csts)
            }
            InitAction::Write32(NvmeRegs32::CC, v) => {
                self.cc = v;
                self.pending = self.lag + 1;
                if self.lag == 0 {
                    self.csts = v & 1;
                    self.pending = 0;
                }
                InitEvent::Completed
            }
            _ => InitEvent::Completed,
        }
    }
}

fn run(c: &mut Controller) -> usize {
    let mut init = NvmeInit::new();
    let mut action = init.action();
    let mut steps = 0;
    while action != InitAction::Finished {
        let ev = c.perform(action);
        action = init.advance(ev);
        steps += 1;
        assert!(steps < 1000);
    }
    steps
}

#[test]
fn init_sequence_with_a_prompt_controller() {
    let mut c = Controller { cc: 0x0046_0001, csts: 1, lag: 0, pending: 0, log: vec![] };
    let steps = run(&mut c);
    assert_eq!(steps, 17);
    assert_eq!(
        c.log,
        vec![
            InitAction::Read64(NvmeRegs64::CAP),
            InitAction::Read32(NvmeRegs32::VS),
            InitAction::Read32(NvmeRegs32::CC),
            InitAction::Read32(NvmeRegs32::CSTS),
            InitAction::Read32(NvmeRegs32::CC),
            InitAction::Write32(NvmeRegs32::CC, 0x0046_0000),
            InitAction::Read32(NvmeRegs32::CSTS),
            InitAction::ConfigureAdminQueue,
            InitAction::Read32(NvmeRegs32::CC),
            InitAction::Write32(NvmeRegs32::CC, 0x0046_0000),
            InitAction::Read32(NvmeRegs32::CC),
            InitAction::Write32(NvmeRegs32::CC, 0x0046_0001),
            InitAction::Read32(NvmeRegs32::CSTS),
            InitAction::IdentifyController,
            InitAction::IdentifyNsList,
            InitAction::IdentifyNs(1),
            InitAction::CreateIoQueues,
        ]
    );
    assert_eq!(c.cc, 0x0046_0001);
}

#[test]
fn init_polls_and_sleeps_while_the_controller_lags() {
    let mut c = Controller { cc: 1, csts: 1, lag: 2, pending: 0, log: vec![] };
    run(&mut c);
    let sleeps = c.log.iter().filter(|a| **a == InitAction::SleepNs(POLL_INTERVAL_NS)).count();
    assert_eq!(sleeps, 4);
    assert_eq!(POLL_INTERVAL_NS, 100_000_000);
    assert_eq!(c.cc, 0x0046_0001);
    assert_eq!(c.csts, 1);
}

#[test]
fn unexpected_event_repeats_the_action() {
    let mut init = NvmeInit::new();
    assert_eq!(init.action(), InitAction::Read64(NvmeRegs64::CAP));
    assert_eq!(init.advance(InitEvent::Completed), InitAction::Read64(NvmeRegs64::CAP));
    assert_eq!(init.advance(InitEvent::Value32(3)), InitAction::Read64(NvmeRegs64::CAP));
    assert_eq!(init.advance(InitEvent::Value64(3)), InitAction::Read32(NvmeRegs32::VS));
}

#[test]
fn register_arithmetic() {
    assert_eq!(flag32_set(0x10, NVME_CC_ENABLE), 0x11);
    assert_eq!(flag32_cleared(0xffff_ffff, NVME_CC_ENABLE), 0xffff_fffe);
    assert_eq!(entry_sizes_set(0), 0x0046_0000);
    assert_eq!(entry_sizes_set(0x0000_0001), 0x0046_0001);
    assert!(wait_set_done(0x3, NVME_CSTS_RDY));
    assert!(!wait_set_done(0x2, NVME_CSTS_RDY));
    assert!(wait_clear_done(0x2, NVME_CSTS_RDY));
    assert!(!wait_clear_done(0x1, NVME_CSTS_RDY));
    // a wait for a bit other than bit 0 compares the masked value with 1
    assert!(!wait_set_done(0x2, 0x2));
}
