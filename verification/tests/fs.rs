use redleaf::fs::{
    block_num_for_node, fsinit, read_superblock, FsState, LogRegion, BSIZE, FSSIZE, IPB, LOGSIZE, NINODES,
};

#[test]
fn superblock_layout() {
    let sb = read_superblock(1);
    assert_eq!(sb.size, 1000);
    assert_eq!(sb.nblocks, 941);
    assert_eq!(sb.ninodes, 200);
    assert_eq!(sb.nlog, 30);
    assert_eq!(sb.logstart, 2);
    assert_eq!(sb.inodestart, 32);
    assert_eq!(sb.bmapstart, 58);
}

#[test]
fn superblock_regions_tile_the_disk() {
    let sb = read_superblock(0);
    let nbitmap = FSSIZE / (BSIZE * 8) + 1;
    let ninodeblocks = NINODES / IPB + 1;
    assert_eq!(sb.inodestart, sb.logstart + sb.nlog);
    assert_eq!(sb.bmapstart as usize, sb.inodestart as usize + ninodeblocks);
    assert_eq!(sb.bmapstart as usize + nbitmap + sb.nblocks as usize, sb.size);
    assert_eq!(sb.nlog as usize, LOGSIZE);
}

#[test]
fn superblock_does_not_depend_on_device() {
    let a = read_superblock(0);
    let b = read_superblock(7);
    assert_eq!(a.nblocks, b.nblocks);
    assert_eq!(a.bmapstart, b.bmapstart);
}

#[test]
fn inode_blocks() {
    let sb = read_superblock(1);
    assert_eq!(IPB, 8);
    assert_eq!(block_num_for_node(0, &sb), 32);
    assert_eq!(block_num_for_node(7, &sb), 32);
    assert_eq!(block_num_for_node(8, &sb), 33);
    assert_eq!(block_num_for_node(199, &sb), 56);
    // every inode lies before the free map
    for inum in 0..sb.ninodes {
        let b = block_num_for_node(inum, &sb);
        assert!(sb.inodestart <= b && b < sb.bmapstart);
    }
}

#[test]
fn fsinit_sets_up_once() {
    let mut state = FsState::new();
    assert!(state.super_block.is_none());
    assert!(state.log.is_none());
    fsinit(&mut state, 3);
    assert_eq!(state.log, Some(LogRegion { dev: 3, start: 2, size: 30 }));
    assert_eq!(state.super_block.as_ref().unwrap().inodestart, 32);
    fsinit(&mut state, 5);
    assert_eq!(state.log, Some(LogRegion { dev: 3, start: 2, size: 30 }));
    assert_eq!(state.super_block.as_ref().unwrap().nblocks, 941);
}

#[test]
fn fsinit_opens_log_over_the_stored_super_block() {
    let mut sb = read_superblock(0);
    sb.logstart = 9;
    sb.nlog = 4;
    let mut state = FsState { super_block: Some(sb), log: None };
    fsinit(&mut state, 2);
    assert_eq!(state.log, Some(LogRegion { dev: 2, start: 9, size: 4 }));
    assert_eq!(state.super_block.as_ref().unwrap().logstart, 9);
}
