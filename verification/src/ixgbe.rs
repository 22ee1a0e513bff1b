use vstd::prelude::*;
use std::collections::VecDeque;

use crate::net::{ErrorKind, NetworkStats};
use crate::rref_deque::RRefDeque;

verus! {

/// The PCI drivers that can claim a device.
#[derive(PartialEq, Eq, Structural, Debug, Clone, Copy)]
pub enum PciDrivers {
    IxgbeDriver,
}

/// A brought-up Intel 82599 device, which moves the packets.
///
/// Implemented by the hardware driver. Each call is described by a relation
/// that the implementation defines between the device and the arguments
/// before the call, and the device, the queues and the result after it.
pub trait IxgbeDevice: Sized {
    /// `submit_and_poll` on `self` with `packets`, `collect`, `tx` and
    /// `debug` may leave the device as `after`, return `n`, and leave the
    /// queues as `packets_after` and `collect_after`.
    spec fn submitted(
        &self,
        packets: Seq<Vec<u8>>,
        collect: Seq<Vec<u8>>,
        tx: bool,
        debug: bool,
        after: Self,
        n: usize,
        packets_after: Seq<Vec<u8>>,
        collect_after: Seq<Vec<u8>>,
    ) -> bool;

    /// `submit_and_poll_rref` on `self` with queues holding `packets` and
    /// `collect` may leave the device as `after` and return `n` with queues
    /// holding `packets_out` and `collect_out`, in that order.
    spec fn submitted_rref(
        &self,
        packets: Seq<[u8; 1514]>,
        collect: Seq<[u8; 1514]>,
        tx: bool,
        pkt_len: usize,
        debug: bool,
        after: Self,
        n: usize,
        packets_out: Seq<[u8; 1514]>,
        collect_out: Seq<[u8; 1514]>,
    ) -> bool;

    /// `poll` on `self` with `collect` and `tx` may leave the device as
    /// `after`, return `n` and leave the queue as `collect_after`.
    spec fn polled(
        &self,
        collect: Seq<Vec<u8>>,
        tx: bool,
        after: Self,
        n: usize,
        collect_after: Seq<Vec<u8>>,
    ) -> bool;

    /// `poll_rref` on `self` with a queue holding `collect` and `tx` may
    /// leave the device as `after` and return `n` with a queue holding `out`.
    spec fn polled_rref(
        &self,
        collect: Seq<[u8; 1514]>,
        tx: bool,
        after: Self,
        n: usize,
        out: Seq<[u8; 1514]>,
    ) -> bool;

    /// `get_stats` on `self` may leave the device as `after` and return
    /// `stats`.
    spec fn stats(&self, after: Self, stats: NetworkStats) -> bool;

    fn submit_and_poll(
        &mut self,
        packets: &mut VecDeque<Vec<u8>>,
        collect: &mut VecDeque<Vec<u8>>,
        tx: bool,
        debug: bool,
    ) -> (n: usize)
        ensures
            old(self).submitted(
                old(packets)@,
                old(collect)@,
                tx,
                debug,
                *final(self),
                n,
                final(packets)@,
                final(collect)@,
            ),
    ;

    fn submit_and_poll_rref(
        &mut self,
        packets: RRefDeque<[u8; 1514], 32>,
        collect: RRefDeque<[u8; 1514], 32>,
        tx: bool,
        pkt_len: usize,
        debug: bool,
    ) -> (r: (usize, RRefDeque<[u8; 1514], 32>, RRefDeque<[u8; 1514], 32>))
        ensures
            old(self).submitted_rref(
                packets@,
                collect@,
                tx,
                pkt_len,
                debug,
                *final(self),
                r.0,
                r.1@,
                r.2@,
            ),
    ;

    fn poll(&mut self, collect: &mut VecDeque<Vec<u8>>, tx: bool) -> (n: usize)
        ensures
            old(self).polled(old(collect)@, tx, *final(self), n, final(collect)@),
    ;

    fn poll_rref(&mut self, collect: RRefDeque<[u8; 1514], 512>, tx: bool) -> (r: (
        usize,
        RRefDeque<[u8; 1514], 512>,
    ))
        ensures
            old(self).polled_rref(collect@, tx, *final(self), r.0, r.1@),
    ;

    fn get_stats(&mut self) -> (s: NetworkStats)
        ensures
            old(self).stats(*final(self), s),
    ;
}

/// The ixgbe network driver: answers requests once its device is up, and
/// refuses them with `UninitializedDevice` before.
pub struct Ixgbe<D> {
    vendor_id: u16,
    device_id: u16,
    driver: PciDrivers,
    device_initialized: bool,
    device: Option<D>,
}

impl<D> Ixgbe<D> {
    /// The driver reports itself active exactly when its device is up.
    #[verifier::type_invariant]
    spec fn wf(&self) -> bool {
        self.device_initialized == self.device is Some
    }
}

impl<D: IxgbeDevice> Ixgbe<D> {
    /// The device, once it is up.
    pub closed spec fn device(&self) -> Option<D> {
        self.device
    }

    pub closed spec fn get_vid_spec(&self) -> u16 {
        self.vendor_id
    }

    pub closed spec fn get_did_spec(&self) -> u16 {
        self.device_id
    }

    pub closed spec fn get_driver_type_spec(&self) -> PciDrivers {
        self.driver
    }

    /// The PCI identity is the same in `self` and `other`.
    pub open spec fn same_identity(&self, other: Self) -> bool {
        &&& other.get_vid_spec() == self.get_vid_spec()
        &&& other.get_did_spec() == self.get_did_spec()
        &&& other.get_driver_type_spec() == self.get_driver_type_spec()
    }

    /// A driver for vendor 0x8086, device 0x10fb, whose device is not up.
    pub fn new() -> (d: Self)
        ensures
            d.device() is None,
            d.get_vid_spec() == 0x8086,
            d.get_did_spec() == 0x10fb,
            d.get_driver_type_spec() == PciDrivers::IxgbeDriver,
    {
        Ixgbe {
            vendor_id: 0x8086,
            device_id: 0x10fb,
            driver: PciDrivers::IxgbeDriver,
            device_initialized: false,
            device: None,
        }
    }

    /// Moves the driver's state out of `self` (which is left as a new
    /// driver) so that the device can be called.
    fn take(&mut self) -> (r: (u16, u16, PciDrivers, bool, Option<D>))
        ensures
            r.0 == old(self).get_vid_spec(),
            r.1 == old(self).get_did_spec(),
            r.2 == old(self).get_driver_type_spec(),
            r.3 == r.4 is Some,
            r.4 == old(self).device(),
            final(self).device() is None,
    {
        let mut d = Self::new();
        core::mem::swap(self, &mut d);
        proof {
            use_type_invariant(&d);
        }
        let Ixgbe { vendor_id, device_id, driver, device_initialized, device } = d;
        (vendor_id, device_id, driver, device_initialized, device)
    }

    /// A driver with the given identity and device.
    fn rebuild(vendor_id: u16, device_id: u16, driver: PciDrivers, device_initialized: bool, device: Option<D>) -> (d: Self)
        requires
            device_initialized == device is Some,
        ensures
            d.get_vid_spec() == vendor_id,
            d.get_did_spec() == device_id,
            d.get_driver_type_spec() == driver,
            d.device() == device,
    {
        Ixgbe { vendor_id, device_id, driver, device_initialized, device }
    }

    /// Whether the device is up.
    pub fn active(&self) -> (b: bool)
        ensures
            b == self.device() is Some,
    {
        proof {
            use_type_invariant(self);
        }
        self.device_initialized
    }

    /// Submits `packets` and collects what came back into `collect`, on the
    /// device with `debug` off: the result is the device's count, and the
    /// queues are as the device leaves them. Before the device is up, the
    /// request is refused and the queues are left as they were.
    pub fn submit_and_poll(
        &mut self,
        packets: &mut VecDeque<Vec<u8>>,
        collect: &mut VecDeque<Vec<u8>>,
        tx: bool,
    ) -> (r: Result<usize, ErrorKind>)
        ensures
            old(self).same_identity(*final(self)),
            old(self).device() is None ==> r == Err::<usize, ErrorKind>(ErrorKind::UninitializedDevice)
                && final(packets)@ == old(packets)@ && final(collect)@ == old(collect)@
                && final(self).device() is None,
            old(self).device() matches Some(d) ==> (r matches Ok(n) && final(self).device() is Some
                && d.submitted(
                old(packets)@,
                old(collect)@,
                tx,
                false,
                final(self).device()->0,
                n,
                final(packets)@,
                final(collect)@,
            )),
    {
        let (vid, did, drv, up, mut device) = self.take();
        let r = match &mut device {
            Some(dev) => Ok(dev.submit_and_poll(packets, collect, tx, false)),
            None => Err(ErrorKind::UninitializedDevice),
        };
        *self = Self::rebuild(vid, did, drv, up, device);
        r
    }

    /// Submits the packets of `packets` and collects what came back into
    /// `collect`, on the device with `debug` off, and hands back the device's
    /// count and the two queues as the device returned them. Before the
    /// device is up, the queues are dropped and the request is refused.
    pub fn submit_and_poll_rref(
        &mut self,
        packets: RRefDeque<[u8; 1514], 32>,
        collect: RRefDeque<[u8; 1514], 32>,
        tx: bool,
        pkt_len: usize,
    ) -> (r: Result<(usize, RRefDeque<[u8; 1514], 32>, RRefDeque<[u8; 1514], 32>), ErrorKind>)
        ensures
            old(self).same_identity(*final(self)),
            old(self).device() is None ==> r == Err::<
                (usize, RRefDeque<[u8; 1514], 32>, RRefDeque<[u8; 1514], 32>),
                ErrorKind,
            >(ErrorKind::UninitializedDevice) && final(self).device() is None,
            old(self).device() matches Some(d) ==> (r matches Ok((n, p, c)) && final(self).device() is Some
                && d.submitted_rref(
                packets@,
                collect@,
                tx,
                pkt_len,
                false,
                final(self).device()->0,
                n,
                p@,
                c@,
            )),
    {
        let (vid, did, drv, up, mut device) = self.take();
        let r = match &mut device {
            Some(dev) => {
                let (num, packets, collect) = dev.submit_and_poll_rref(
                    packets,
                    collect,
                    tx,
                    pkt_len,
                    false,
                );
                Ok((num, packets, collect))
            },
            None => Err(ErrorKind::UninitializedDevice),
        };
        *self = Self::rebuild(vid, did, drv, up, device);
        r
    }

    /// Collects received packets into `collect`: the result is the device's
    /// count, and the queue is as the device leaves it. Before the device is
    /// up, the request is refused and the queue is left as it was.
    pub fn poll(&mut self, collect: &mut VecDeque<Vec<u8>>, tx: bool) -> (r: Result<usize, ErrorKind>)
        ensures
            old(self).same_identity(*final(self)),
            old(self).device() is None ==> r == Err::<usize, ErrorKind>(ErrorKind::UninitializedDevice)
                && final(collect)@ == old(collect)@ && final(self).device() is None,
            old(self).device() matches Some(d) ==> (r matches Ok(n) && final(self).device() is Some
                && d.polled(old(collect)@, tx, final(self).device()->0, n, final(collect)@)),
    {
        let (vid, did, drv, up, mut device) = self.take();
        let r = match &mut device {
            Some(dev) => Ok(dev.poll(collect, tx)),
            None => Err(ErrorKind::UninitializedDevice),
        };
        *self = Self::rebuild(vid, did, drv, up, device);
        r
    }

    /// Collects received packets into `collect`, and hands back the device's
    /// count and the queue as the device returned them. Before the device is
    /// up, `collect` is dropped and the request is refused.
    pub fn poll_rref(&mut self, collect: RRefDeque<[u8; 1514], 512>, tx: bool) -> (r: Result<
        (usize, RRefDeque<[u8; 1514], 512>),
        ErrorKind,
    >)
        ensures
            old(self).same_identity(*final(self)),
            old(self).device() is None ==> r == Err::<(usize, RRefDeque<[u8; 1514], 512>), ErrorKind>(
                ErrorKind::UninitializedDevice,
            ) && final(self).device() is None,
            old(self).device() matches Some(d) ==> (r matches Ok((n, c)) && final(self).device() is Some
                && d.polled_rref(collect@, tx, final(self).device()->0, n, c@)),
    {
        let (vid, did, drv, up, mut device) = self.take();
        let r = match &mut device {
            Some(dev) => {
                let (num, collect) = dev.poll_rref(collect, tx);
                Ok((num, collect))
            },
            None => Err(ErrorKind::UninitializedDevice),
        };
        *self = Self::rebuild(vid, did, drv, up, device);
        r
    }

    /// The device's counters, as the device reports them. Before the device
    /// is up, the request is refused.
    pub fn get_stats(&mut self) -> (r: Result<NetworkStats, ErrorKind>)
        ensures
            old(self).same_identity(*final(self)),
            old(self).device() is None ==> r == Err::<NetworkStats, ErrorKind>(
                ErrorKind::UninitializedDevice,
            ) && final(self).device() is None,
            old(self).device() matches Some(d) ==> (r matches Ok(s) && final(self).device() is Some
                && d.stats(final(self).device()->0, s)),
    {
        let (vid, did, drv, up, mut device) = self.take();
        let r = match &mut device {
            Some(dev) => Ok(dev.get_stats()),
            None => Err(ErrorKind::UninitializedDevice),
        };
        *self = Self::rebuild(vid, did, drv, up, device);
        r
    }

    /// Takes the device that was brought up from the probed PCI region, if
    /// one was; otherwise nothing changes.
    pub fn probe(&mut self, brought_up: Option<D>)
        ensures
            brought_up is Some ==> final(self).device() == brought_up,
            brought_up is None ==> final(self).device() == old(self).device(),
            old(self).same_identity(*final(self)),
    {
        if let Some(dev) = brought_up {
            let (vid, did, drv, _, _) = self.take();
            *self = Self::rebuild(vid, did, drv, true, Some(dev));
        }
    }

    /// The PCI vendor id the driver claims.
    pub fn get_vid(&self) -> (v: u16)
        ensures
            v == self.get_vid_spec(),
    {
        self.vendor_id
    }

    /// The PCI device id the driver claims.
    pub fn get_did(&self) -> (v: u16)
        ensures
            v == self.get_did_spec(),
    {
        self.device_id
    }

    /// The kind of driver.
    pub fn get_driver_type(&self) -> (t: PciDrivers)
        ensures
            t == self.get_driver_type_spec(),
    {
        self.driver
    }
}

} // verus!
