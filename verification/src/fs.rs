use vstd::prelude::*;

verus! {

/// Size of a disk block, in bytes.
pub const BSIZE: usize = 512;

/// Size of the file system image, in blocks.
pub const FSSIZE: usize = 1000;

/// Most blocks that one file system operation writes.
pub const MAXOPBLOCKS: usize = 10;

/// Most data blocks in the on-disk log.
pub const LOGSIZE: usize = MAXOPBLOCKS * 3;

/// Size of an on-disk inode, in bytes.
pub const DINODE_SIZE: usize = 64;

/// Inodes per block.
pub const IPB: usize = BSIZE / DINODE_SIZE;

/// Number of inodes of the file system.
pub const NINODES: usize = 200;

/// The layout of the file system on its disk.
pub struct SuperBlock {
    /// Size of the file system image (blocks).
    pub size: usize,
    /// Number of data blocks.
    pub nblocks: u32,
    /// Number of inodes.
    pub ninodes: u32,
    /// Number of log blocks.
    pub nlog: u32,
    /// Block number of the first log block.
    pub logstart: u32,
    /// Block number of the first inode block.
    pub inodestart: u32,
    /// Block number of the first free map block.
    pub bmapstart: u32,
}

/// Blocks of the free map: one bit for each block of the image.
pub open spec fn spec_nbitmap() -> int {
    FSSIZE as int / (BSIZE as int * 8) + 1
}

/// Blocks that hold the inodes.
pub open spec fn spec_ninodeblocks() -> int {
    NINODES as int / IPB as int + 1
}

/// Blocks before the data: boot block, super block, log, inodes, free map.
pub open spec fn spec_nmeta() -> int {
    2 + LOGSIZE as int + spec_ninodeblocks() + spec_nbitmap()
}

/// The super block of the file system: the boot block and the super block,
/// then the log, the inodes, the free map, and the data blocks to the end of
/// the image.
pub open spec fn spec_superblock() -> SuperBlock {
    SuperBlock {
        size: FSSIZE,
        nblocks: (FSSIZE as int - spec_nmeta()) as u32,
        ninodes: NINODES as u32,
        nlog: LOGSIZE as u32,
        logstart: 2,
        inodestart: (2 + LOGSIZE as int) as u32,
        bmapstart: (2 + LOGSIZE as int + spec_ninodeblocks()) as u32,
    }
}

/// The block that holds inode `inum`, for a file system laid out by `sb`.
pub open spec fn spec_block_num_for_node(inum: u32, sb: SuperBlock) -> int {
    inum as int / IPB as int + sb.inodestart
}

/// The super block of the file system on device `dev`.
pub fn read_superblock(dev: u32) -> (sb: SuperBlock)
    ensures
        sb == spec_superblock(),
{
    let nbitmap: usize = FSSIZE / (BSIZE * 8) + 1;
    let ninodeblocks: usize = NINODES / IPB + 1;
    let nlog: usize = LOGSIZE;

    // one file system block is one disk sector
    let nmeta: usize = 2 + nlog + ninodeblocks + nbitmap;
    let nblocks: usize = FSSIZE - nmeta;
    SuperBlock {
        size: FSSIZE,
        nblocks: nblocks as u32,
        ninodes: NINODES as u32,
        nlog: nlog as u32,
        logstart: 2,
        inodestart: 2 + nlog as u32,
        bmapstart: (2 + nlog + ninodeblocks) as u32,
    }
}

/// The block that holds inode `inum`.
pub fn block_num_for_node(inum: u32, super_block: &SuperBlock) -> (b: u32)
    requires
        spec_block_num_for_node(inum, *super_block) <= u32::MAX,
    ensures
        b == spec_block_num_for_node(inum, *super_block),
{
    inum / IPB as u32 + super_block.inodestart
}

/// Layout law: the regions of the disk follow one another without gap or
/// overlap and end at the end of the image: log from `logstart` for `nlog`
/// blocks, then the inode blocks, then the free map, then the data blocks.
pub proof fn lemma_layout_tiles_disk()
    ensures
        ({
            let sb = spec_superblock();
            &&& sb.logstart == 2
            &&& sb.inodestart == sb.logstart + sb.nlog
            &&& sb.bmapstart == sb.inodestart + spec_ninodeblocks()
            &&& sb.bmapstart + spec_nbitmap() + sb.nblocks == sb.size
        }),
{
    lemma_layout_values();
}

/// The sizes of the regions of the layout.
proof fn lemma_layout_values()
    ensures
        IPB == 8,
        spec_nbitmap() == 1,
        spec_ninodeblocks() == 26,
        spec_nmeta() == 59,
        spec_superblock().nblocks == 941,
        spec_superblock().nlog == 30,
        spec_superblock().inodestart == 32,
        spec_superblock().bmapstart == 58,
{
    vstd::arithmetic::div_mod::lemma_fundamental_div_mod_converse(512, 64, 8, 0);
    vstd::arithmetic::div_mod::lemma_basic_div(1000, 4096);
    vstd::arithmetic::div_mod::lemma_fundamental_div_mod_converse(200, 8, 25, 0);
}

/// Layout law: the free map has a bit for every block of the image, and the
/// inode blocks have room for every inode.
pub proof fn lemma_layout_has_room()
    ensures
        spec_nbitmap() * BSIZE * 8 >= spec_superblock().size,
        spec_ninodeblocks() * IPB >= spec_superblock().ninodes,
{
    lemma_layout_values();
}

/// Inode law: every inode of the file system lies in the inode region, and
/// inodes `IPB` apart lie in consecutive blocks.
pub proof fn lemma_inode_block_in_region(inum: u32)
    requires
        inum < spec_superblock().ninodes,
    ensures
        spec_superblock().inodestart <= spec_block_num_for_node(inum, spec_superblock()),
        spec_block_num_for_node(inum, spec_superblock()) < spec_superblock().bmapstart,
        inum + IPB <= u32::MAX ==> spec_block_num_for_node((inum + IPB) as u32, spec_superblock())
            == spec_block_num_for_node(inum, spec_superblock()) + 1,
{
    lemma_layout_values();
}

/// Inode law, for every super block: the block of inode `inum` lies in the
/// inode region that `sb` lays out, `inum / IPB` blocks after its start. It
/// moves with `sb.inodestart`: two super blocks whose inode regions start
/// `d` blocks apart put the inode `d` blocks apart. The `IPB` inodes of a
/// group share a block, and the next group lies in the next block.
pub proof fn lemma_inode_block_follows_super_block(inum: u32, sb: SuperBlock, sb2: SuperBlock)
    ensures
        spec_block_num_for_node(inum, sb) >= sb.inodestart,
        spec_block_num_for_node(inum, sb) - sb.inodestart == inum as int / IPB as int,
        spec_block_num_for_node(inum, sb2) - spec_block_num_for_node(inum, sb) == sb2.inodestart
            - sb.inodestart,
        inum as int % IPB as int != IPB as int - 1 && inum + 1 <= u32::MAX
            ==> spec_block_num_for_node((inum + 1) as u32, sb) == spec_block_num_for_node(inum, sb),
        inum as int % IPB as int == IPB as int - 1 && inum + 1 <= u32::MAX
            ==> spec_block_num_for_node((inum + 1) as u32, sb) == spec_block_num_for_node(inum, sb)
            + 1,
{
    lemma_layout_values();
    let q = inum as int / 8;
    let r = inum as int % 8;
    vstd::arithmetic::div_mod::lemma_fundamental_div_mod(inum as int, 8);
    if inum + 1 <= u32::MAX {
        if r != 7 {
            vstd::arithmetic::div_mod::lemma_fundamental_div_mod_converse(inum + 1, 8, q, r + 1);
        } else {
            vstd::arithmetic::div_mod::lemma_fundamental_div_mod_converse(inum + 1, 8, q + 1, 0);
        }
    }
}

/// The log of the file system: the device it was opened on, and the
/// region of that device it occupies, as the super block lays it out.
#[derive(PartialEq, Eq, Structural, Debug, Clone, Copy)]
pub struct LogRegion {
    pub dev: u32,
    /// Block number of the first log block.
    pub start: u32,
    /// Number of log blocks.
    pub size: u32,
}

/// The file system's state that is set up once: its super block, then its
/// log, opened over the log region of that super block.
pub struct FsState {
    pub super_block: Option<SuperBlock>,
    pub log: Option<LogRegion>,
}

/// The super block after initialisation: the one set before, or the one
/// read now.
pub open spec fn spec_fsinit_super_block(s: FsState) -> SuperBlock {
    match s.super_block {
        Some(sb) => sb,
        None => spec_superblock(),
    }
}

/// The state after initialisation on `dev`: the super block is set first,
/// if it was not; then the log, if it was not, is opened on `dev` over the
/// log region of the super block as it now stands.
pub open spec fn spec_fsinit(s: FsState, dev: u32) -> FsState {
    let sb = spec_fsinit_super_block(s);
    FsState {
        super_block: Some(sb),
        log: match s.log {
            Some(l) => Some(l),
            None => Some(LogRegion { dev, start: sb.logstart, size: sb.nlog }),
        },
    }
}

impl FsState {
    /// A state in which nothing is set up yet.
    pub fn new() -> (s: Self)
        ensures
            s.super_block is None,
            s.log is None,
    {
        FsState { super_block: None, log: None }
    }
}

/// Sets up the file system on device `dev`: reads its super block, then
/// opens its log over the log region that super block lays out, each only
/// if that was not done before.
pub fn fsinit(state: &mut FsState, dev: u32)
    ensures
        *final(state) == spec_fsinit(*old(state), dev),
{
    if state.super_block.is_none() {
        state.super_block = Some(read_superblock(dev));
    }
    if state.log.is_none() {
        let region = match &state.super_block {
            Some(sb) => LogRegion { dev, start: sb.logstart, size: sb.nlog },
            None => LogRegion { dev, start: 0, size: 0 },
        };
        state.log = Some(region);
    }
}

/// Initialisation law: it takes effect once; a later initialisation, on any
/// device, changes nothing.
pub proof fn lemma_fsinit_once(s: FsState, dev1: u32, dev2: u32)
    ensures
        spec_fsinit(spec_fsinit(s, dev1), dev2) == spec_fsinit(s, dev1),
{
}

} // verus!
