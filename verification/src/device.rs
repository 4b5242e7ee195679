//! Device abstraction: configuration, the fixed register map, the platform
//! register-port interface, and device selection.

use vstd::prelude::*;
use vstd::string::StringExecFns;
use crate::error::{Lzma2Error, Lzma2Result};
use crate::metrics::PerformanceMetrics;

verus! {

/// Default vendor identifier of the compression device.
pub const DEFAULT_VENDOR_ID: u16 = 0x1234;

/// Default device identifier of the compression device.
pub const DEFAULT_DEVICE_ID: u16 = 0x5678;

/// Default base-address-register index used for register access.
pub const DEFAULT_BAR_INDEX: usize = 0;

/// Configuration identifying which physical device a session binds to;
/// immutable after the session is created.
#[derive(Debug, Clone, PartialEq, Eq, Structural)]
pub struct DeviceConfig {
    /// Vendor ID of the device.
    pub vendor_id: u16,
    /// Device ID of the device.
    pub device_id: u16,
    /// BAR (base address register) index.
    pub bar_index: usize,
}

/// The fixed register offsets of a device generation, in bytes relative to
/// the device's base address; owned by a session and never mutated.
#[derive(Debug, Clone, PartialEq, Eq, Structural)]
pub struct RegisterMap {
    /// Control register offset.
    pub control: u64,
    /// Status register offset; the auxiliary error-code register lies at
    /// `status + 4`.
    pub status: u64,
    /// Input data window offset.
    pub input_data: u64,
    /// Output data window offset.
    pub output_data: u64,
    /// Performance counter block offset.
    pub performance_counters: u64,
}

/// The register-access primitives the control protocol depends on, together
/// with a timing primitive, supplied by the platform: a physical bus
/// backend, or a test double. What a call returns is the port's own
/// business; the protocol states what it does with every possible answer.
pub trait RegisterPort {
    /// Read the 64-bit register at `offset`.
    fn read_register(&mut self, offset: u64) -> Lzma2Result<u64>;

    /// Write `value` to the 64-bit register at `offset`.
    fn write_register(&mut self, offset: u64, value: u64) -> Lzma2Result<()>;

    /// Read `buffer.len()` bytes at `offset` into `buffer`. An
    /// implementation must fill the buffer in place: a read of `n` bytes
    /// yields exactly `n` bytes.
    fn read_chunk(&mut self, offset: u64, buffer: &mut Vec<u8>) -> (r: Lzma2Result<()>)
        ensures
            final(buffer)@.len() == old(buffer)@.len(),
    ;

    /// Write the bytes of `data` at `offset`.
    fn write_chunk(&mut self, offset: u64, data: &[u8]) -> Lzma2Result<()>;

    /// Block the calling thread for at least `micros` microseconds.
    fn delay_micros(&mut self, micros: u64);
}

/// Interface for hardware compression devices, implemented by platform
/// device backends.
pub trait HardwareCompressionDevice {
    /// Compress input data.
    fn compress(&mut self, input: &[u8]) -> Lzma2Result<Vec<u8>>;

    /// Decompress input data.
    fn decompress(&mut self, input: &[u8]) -> Lzma2Result<Vec<u8>>;

    /// Retrieve performance metrics for the device.
    fn get_performance_metrics(&mut self) -> Lzma2Result<PerformanceMetrics>;
}

/// The message reported when no device was found.
pub open spec fn spec_no_devices_message() -> Seq<char> {
    "No LZMA2 compression devices found"@
}

/// Device discovery and management. Scanning a bus is the platform
/// collaborator's concern: the manager only selects among the device
/// descriptors a probe produced.
pub struct DeviceManager;

impl DeviceManager {
    /// Select the first device a probe produced, or report that none was
    /// found.
    pub fn select_first_device<T>(devices: Vec<T>) -> (r: Lzma2Result<T>)
        ensures
            devices@.len() == 0 ==> (r matches Err(e) && e matches Lzma2Error::DeviceInitError(m)
                && m@ == spec_no_devices_message()),
            devices@.len() > 0 ==> (r matches Ok(d) && d == devices@[0]),
    {
        let mut devices = devices;
        if devices.len() == 0 {
            Err(Lzma2Error::DeviceInitError(String::from_str("No LZMA2 compression devices found")))
        } else {
            Ok(devices.remove(0))
        }
    }
}

} // verus!
