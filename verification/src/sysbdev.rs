use vstd::prelude::*;

use crate::rref::RRef;

verus! {

/// A block device: reads and writes blocks of 512 bytes.
///
/// Implemented by the device drivers. Each call is described by a relation
/// that the implementation defines, between the device before the call, the
/// arguments, and the device after it.
pub trait BDev: Sized {
    /// A read of block `block` into a buffer holding `before`, on this
    /// device, may leave the buffer holding `after` and the device as
    /// `dev_after`.
    spec fn read_spec(&self, block: u32, before: [u8; 512], after: [u8; 512], dev_after: Self) -> bool;

    /// A write of `data` to block `block` of this device may leave the
    /// device as `dev_after`.
    spec fn write_spec(&self, block: u32, data: [u8; 512], dev_after: Self) -> bool;

    fn read(&mut self, block: u32, data: &mut RRef<[u8; 512]>)
        ensures
            old(self).read_spec(block, old(data)@, final(data)@, *final(self)),
    ;

    fn write(&mut self, block: u32, data: &[u8; 512])
        ensures
            old(self).write_spec(block, *data, *final(self)),
    ;
}

/// The block device that the system calls go to, once it has been set.
pub struct SysBDev<B> {
    bdev: Option<B>,
}

impl<B> SysBDev<B> {
    /// The device that was set, if any.
    pub closed spec fn device(&self) -> Option<B> {
        self.bdev
    }

    /// A state in which no device is set yet.
    pub fn new() -> (s: Self)
        ensures
            s.device() is None,
    {
        SysBDev { bdev: None }
    }

    /// Whether a device was set.
    pub fn is_initialized(&self) -> (b: bool)
        ensures
            b == self.device() is Some,
    {
        self.bdev.is_some()
    }
}

/// The state after `bdev` was offered to `s`: the first device set stays.
pub open spec fn spec_init<B>(s: Option<B>, bdev: B) -> Option<B> {
    match s {
        Some(b) => Some(b),
        None => Some(bdev),
    }
}

/// Sets the block device that the system calls go to, unless one was set
/// before, in which case `bdev` is dropped.
pub fn init<B>(state: &mut SysBDev<B>, bdev: B)
    ensures
        final(state).device() == spec_init(old(state).device(), bdev),
{
    if state.bdev.is_none() {
        state.bdev = Some(bdev);
    }
}

/// Initialisation law: the device is set once; offering another one later
/// changes nothing.
pub proof fn lemma_init_once<B>(s: Option<B>, first: B, second: B)
    ensures
        spec_init(spec_init(s, first), second) == spec_init(s, first),
        s is None ==> spec_init(spec_init(s, first), second) == Some(first),
{
}

/// Reads block `block` of the device into `data`: that one read is all that
/// happens to the device, and `data` and the device are left as it leaves
/// them.
pub fn sys_read<B: BDev>(state: &mut SysBDev<B>, block: u32, data: &mut RRef<[u8; 512]>)
    requires
        old(state).device() is Some,
    ensures
        final(state).device() is Some,
        old(state).device()->0.read_spec(
            block,
            old(data)@,
            final(data)@,
            final(state).device()->0,
        ),
{
    match &mut state.bdev {
        Some(bdev) => bdev.read(block, data),
        None => {},
    }
}

/// Writes `data` to block `block` of the device: that one write is all that
/// happens to the device, and the device is left as it leaves it.
pub fn sys_write<B: BDev>(state: &mut SysBDev<B>, block: u32, data: &[u8; 512])
    requires
        old(state).device() is Some,
    ensures
        final(state).device() is Some,
        old(state).device()->0.write_spec(block, *data, final(state).device()->0),
{
    match &mut state.bdev {
        Some(bdev) => bdev.write(block, data),
        None => {},
    }
}

} // verus!
