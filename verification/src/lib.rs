//! Owned references and their ring-buffer deque, type identifiers, the file
//! system layout, block and network device front ends, and the state
//! machines that bring up an NVMe controller and the first user process.

pub mod rref;
pub mod rref_deque;
pub mod traits;
pub mod fs;
pub mod sysbdev;
pub mod net;
pub mod virtionet;
pub mod ixgbe;
pub mod nvme;
pub mod unwind;
pub mod console_setup;
pub mod dom_b;
