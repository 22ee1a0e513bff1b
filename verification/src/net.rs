use vstd::prelude::*;

verus! {

/// Why a request to a device could not be served.
#[derive(PartialEq, Eq, Structural, Debug)]
pub enum ErrorKind {
    /// The device has not been brought up.
    UninitializedDevice,
}

/// Counters kept by a network device.
#[derive(PartialEq, Eq, Structural, Debug, Clone, Copy)]
pub struct NetworkStats {
    pub tx_count: u64,
    pub rx_count: u64,
    pub tx_dma_ok: u64,
    pub rx_dma_ok: u64,
    pub rx_missed: u64,
    pub rx_crc_err: u64,
}

/// All counters at zero.
pub open spec fn zero_stats() -> NetworkStats {
    NetworkStats { tx_count: 0, rx_count: 0, tx_dma_ok: 0, rx_dma_ok: 0, rx_missed: 0, rx_crc_err: 0 }
}

impl NetworkStats {
    /// Counters that are all zero.
    pub fn new() -> (s: Self)
        ensures
            s == zero_stats(),
    {
        NetworkStats { tx_count: 0, rx_count: 0, tx_dma_ok: 0, rx_dma_ok: 0, rx_missed: 0, rx_crc_err: 0 }
    }
}

} // verus!
