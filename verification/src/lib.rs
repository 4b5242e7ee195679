//! Control-plane driver for a memory-mapped hardware compression accelerator.
//!
//! The driver sequences reset, data load, execution, completion polling and
//! result retrieval through a fixed register interface, classifies failures,
//! and derives performance statistics. Raw register access is supplied by the
//! platform through the [`device::RegisterPort`] trait; the compression
//! algorithm itself runs inside the hardware.

pub mod device;
pub mod error;
pub mod metrics;
pub mod protocol;
pub mod transfer;
pub mod utils;
