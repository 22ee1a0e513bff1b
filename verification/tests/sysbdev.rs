use redleaf::rref::RRef;
use redleaf::sysbdev::{init, sys_read, sys_write, BDev, SysBDev};

struct MemDisk {
    id: u8,
    blocks: Vec<[u8; 512]>,
}

// The disk is not verified: its calls are described by relations that
// allow anything.
impl BDev for MemDisk {
    fn read_spec(&self, _block: u32, _before: [u8; 512], _after: [u8; 512], _dev_after: Self) -> bool {
        true
    }

    fn write_spec(&self, _block: u32, _data: [u8; 512], _dev_after: Self) -> bool {
        true
    }

    fn read(&mut self, block: u32, data: &mut RRef<[u8; 512]>) {
        *data.borrow_mut() = self.blocks[block as usize];
    }

    fn write(&mut self, block: u32, data: &[u8; 512]) {
        self.blocks[block as usize] = *data;
    }
}

fn disk(id: u8) -> MemDisk {
    MemDisk { id, blocks: vec![[id; 512]; 4] }
}

#[test]
fn sys_calls_reach_the_device() {
    let mut state = SysBDev::new();
    init(&mut state, disk(1));
    let mut buf = RRef::new([0u8; 512]);
    sys_read(&mut state, 2, &mut buf);
    assert_eq!(buf[0], 1);
    sys_write(&mut state, 3, &[9u8; 512]);
    sys_read(&mut state, 3, &mut buf);
    assert_eq!(buf[511], 9);
}

#[test]
fn first_device_stays() {
    let mut state = SysBDev::new();
    init(&mut state, disk(1));
    init(&mut state, disk(2));
    let mut buf = RRef::new([0u8; 512]);
    sys_read(&mut state, 0, &mut buf);
    assert_eq!(buf[0], 1);
    let _ = disk(2).id;
}

#[test]
fn write_touches_only_its_block() {
    let mut state = SysBDev::new();
    init(&mut state, disk(4));
    sys_write(&mut state, 1, &[7u8; 512]);
    let mut buf = RRef::new([0u8; 512]);
    sys_read(&mut state, 0, &mut buf);
    assert_eq!(buf[0], 4);
    sys_read(&mut state, 1, &mut buf);
    assert_eq!(buf[0], 7);
    sys_read(&mut state, 2, &mut buf);
    assert_eq!(buf[100], 4);
}
