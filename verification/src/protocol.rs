//! Control protocol: the reset, load, execute, poll and read-output
//! sequence that turns a validated input buffer into a validated output
//! buffer, driven over a platform register port.

use vstd::prelude::*;
use vstd::string::StringExecFns;
use vstd::slice::slice_subrange;
use crate::device::{
    DeviceConfig, RegisterMap, RegisterPort, DEFAULT_BAR_INDEX, DEFAULT_DEVICE_ID,
    DEFAULT_VENDOR_ID,
};
use crate::error::{Lzma2Error, Lzma2Result};
use crate::metrics::{spec_compression_ratio, spec_hit_ratio, PerformanceMetrics};
use crate::transfer::{chunk_count, padded_chunk, spec_chunk_count, TransferStrategy};
use crate::utils::{spec_decimal, u64_to_decimal};

verus! {

/// Exact byte length of a compression input buffer, and of every output
/// read-back.
pub const DATA_BUFFER_SIZE: usize = 32768;

/// Chunk size for loading a compression input buffer.
pub const COMPRESS_CHUNK_SIZE: usize = 256;

/// Chunk size for loading a decompression input buffer.
pub const DECOMPRESS_CHUNK_SIZE: usize = 32;

/// Chunk size for reading the output window back.
pub const OUTPUT_CHUNK_SIZE: usize = 256;

/// Maximum number of status polls before an operation times out.
pub const MAX_POLL_ATTEMPTS: u32 = 1000;

/// Interval between two status polls, in microseconds.
pub const POLL_INTERVAL_MICROS: u64 = 10;

/// Microseconds the reset bit is held before the control register is
/// cleared.
pub const RESET_HOLD_MICROS: u64 = 10;

/// Control-register bit that starts an operation.
pub const CONTROL_START_BIT: u64 = 0x1;

/// Control-register bit that selects decompression mode.
pub const CONTROL_DECOMPRESS_BIT: u64 = 0x10000;

/// Control-register bit that resets the device.
pub const CONTROL_RESET_BIT: u64 = 0x8000_0000;

/// Status-register bit that reports completion.
pub const STATUS_COMPLETE_BIT: u64 = 0x1;

/// Status-register bit that reports a device error.
pub const STATUS_ERROR_BIT: u64 = 0x10000;

/// Largest input length the transfer engine can address without its offset
/// arithmetic leaving `u64`.
pub const MAX_TRANSFER_INPUT_LEN: usize = usize::MAX - 39;

/// Whether a status word reports completion: the completion bit is set.
pub open spec fn spec_status_complete(status: u64) -> bool {
    status & STATUS_COMPLETE_BIT != 0
}

/// Whether a status word reports a device error: the error bit is set.
pub open spec fn spec_status_error(status: u64) -> bool {
    status & STATUS_ERROR_BIT != 0
}

/// Decide completion from a polled status word.
pub fn status_complete(status: u64) -> (r: bool)
    ensures
        r == spec_status_complete(status),
{
    status & STATUS_COMPLETE_BIT != 0
}

/// Decide device error from a polled status word.
pub fn status_error(status: u64) -> (r: bool)
    ensures
        r == spec_status_error(status),
{
    status & STATUS_ERROR_BIT != 0
}

/// The validation message for a wrongly sized compression input.
pub open spec fn spec_size_message(len: nat) -> Seq<char> {
    "Input size must be 32KB. Current size: "@ + spec_decimal(len)
}

/// The validation message for an empty decompression input.
pub open spec fn spec_empty_message() -> Seq<char> {
    "Compressed data is empty"@
}

/// The transfer-error message for a strategy the engine does not implement.
pub open spec fn spec_unsupported_strategy_message() -> Seq<char> {
    "Unsupported transfer strategy"@
}

/// The processing-error message carrying a decoded hardware error code.
pub open spec fn spec_processing_message(code: u64) -> Seq<char> {
    "Processing error: Error code "@ + spec_decimal(code as nat)
}

/// Build the processing error for a hardware-reported error code; the
/// message encodes the code in decimal.
pub fn processing_error(code: u64) -> (e: Lzma2Error)
    ensures
        e matches Lzma2Error::ProcessingError(m) && m@ == spec_processing_message(code),
{
    let mut m = String::from_str("Processing error: Error code ");
    let d = u64_to_decimal(code);
    m.append(d.as_str());
    Lzma2Error::ProcessingError(m)
}

/// The driver object: it owns the device configuration, the fixed register
/// map, the chosen transfer strategy, and the register port, exclusively.
/// Every operation borrows the session mutably, so at most one operation is
/// in flight per session, by construction.
pub struct Session<P: RegisterPort> {
    config: DeviceConfig,
    registers: RegisterMap,
    strategy: TransferStrategy,
    port: P,
}

/// The register map every session of this device generation uses.
pub open spec fn spec_register_map() -> RegisterMap {
    RegisterMap {
        control: 0x00,
        status: 0x04,
        input_data: 0x08,
        output_data: 0x0C,
        performance_counters: 0x20,
    }
}

impl<P: RegisterPort> Session<P> {
    /// Well-formedness: the register map is the fixed one of the device
    /// generation, for the whole lifetime of the session. Constructors
    /// establish it and every operation preserves it.
    pub closed spec fn wf(self) -> bool {
        self.registers == spec_register_map()
    }

    /// The session's device configuration.
    pub closed spec fn spec_config(self) -> DeviceConfig {
        self.config
    }

    /// The session's transfer strategy.
    pub closed spec fn spec_strategy(self) -> TransferStrategy {
        self.strategy
    }

    /// The session's register port.
    pub closed spec fn spec_port(self) -> P {
        self.port
    }

    /// Open a session over `port` with the given configuration and
    /// transfer strategy, and the fixed register map.
    pub fn with_config(config: DeviceConfig, strategy: TransferStrategy, port: P) -> (r: Self)
        ensures
            r.wf(),
            r.spec_config() == config,
            r.spec_strategy() == strategy,
            r.spec_port() == port,
    {
        Session { config, registers: default_register_map(), strategy, port }
    }

    /// Open a session over `port` with the default device configuration and
    /// the memory-mapped transfer strategy.
    pub fn new(port: P) -> (r: Self)
        ensures
            r.wf(),
            r.spec_config() == (DeviceConfig {
                vendor_id: DEFAULT_VENDOR_ID,
                device_id: DEFAULT_DEVICE_ID,
                bar_index: DEFAULT_BAR_INDEX,
            }),
            r.spec_strategy() == TransferStrategy::Mmio,
            r.spec_port() == port,
    {
        let config = DeviceConfig {
            vendor_id: DEFAULT_VENDOR_ID,
            device_id: DEFAULT_DEVICE_ID,
            bar_index: DEFAULT_BAR_INDEX,
        };
        Session::with_config(config, TransferStrategy::Mmio, port)
    }

    /// The session's device configuration.
    pub fn config(&self) -> (r: &DeviceConfig)
        ensures
            *r == self.spec_config(),
    {
        &self.config
    }

    /// The session's register port.
    pub fn port(&self) -> (r: &P)
        ensures
            *r == self.spec_port(),
    {
        &self.port
    }

    /// Release the session and hand its register port back.
    pub fn into_port(self) -> (r: P)
        ensures
            r == self.spec_port(),
    {
        self.port
    }

    /// Reset the device: write the control register with only the reset bit
    /// set, hold it, then clear the register. This must complete before any
    /// load/execute sequence; a failed write aborts with that write's
    /// error, and the protocol does not retry.
    fn reset(&mut self) -> (r: Lzma2Result<()>)
        requires
            old(self).wf(),
        ensures
            final(self).wf(),
            final(self).spec_strategy() == old(self).spec_strategy(),
    {
        if let Err(e) = self.port.write_register(self.registers.control, CONTROL_RESET_BIT) {
            return Err(e);
        }
        self.port.delay_micros(RESET_HOLD_MICROS);
        if let Err(e) = self.port.write_register(self.registers.control, 0) {
            return Err(e);
        }
        Ok(())
    }

    /// Load a compression input buffer into the device's input window in
    /// 256-byte chunks, chunk `i` at `input_data + i * 256`. A strategy
    /// other than memory-mapped is refused before the port is touched; a
    /// failed chunk write aborts the whole transfer with that error.
    fn transfer_input_data(&mut self, input: &[u8]) -> (r: Lzma2Result<()>)
        requires
            old(self).wf(),
            input@.len() == DATA_BUFFER_SIZE,
        ensures
            final(self).wf(),
            old(self).spec_strategy() != TransferStrategy::Mmio ==> *final(self) == *old(self)
                && (r matches Err(e) && e matches Lzma2Error::TransferError(m) && m@
                == spec_unsupported_strategy_message()),
    {
        match self.strategy {
            TransferStrategy::Mmio => {},
            _ => {
                return Err(
                    Lzma2Error::TransferError(String::from_str("Unsupported transfer strategy")),
                );
            },
        }
        let n = DATA_BUFFER_SIZE / COMPRESS_CHUNK_SIZE;
        let mut i: usize = 0;
        while i < n
            invariant
                self.wf(),
                old(self).spec_strategy() == TransferStrategy::Mmio,
                n == 128,
                i <= n,
                input@.len() == DATA_BUFFER_SIZE,
            decreases n - i,
        {
            let start = i * COMPRESS_CHUNK_SIZE;
            let chunk = slice_subrange(input, start, start + COMPRESS_CHUNK_SIZE);
            let offset = self.registers.input_data + (start as u64);
            if let Err(e) = self.port.write_chunk(offset, chunk) {
                return Err(e);
            }
            i = i + 1;
        }
        Ok(())
    }

    /// Load a decompression input buffer into the device's input window in
    /// 32-byte chunks, chunk `i` at `input_data + i * 32`, zero-padding the
    /// final short chunk up to 32 bytes. A strategy other than
    /// memory-mapped is refused before the port is touched; a failed chunk
    /// write aborts the whole transfer with that error.
    fn transfer_compressed_data(&mut self, input: &[u8]) -> (r: Lzma2Result<()>)
        requires
            old(self).wf(),
            1 <= input@.len() <= MAX_TRANSFER_INPUT_LEN,
        ensures
            final(self).wf(),
            old(self).spec_strategy() != TransferStrategy::Mmio ==> *final(self) == *old(self)
                && (r matches Err(e) && e matches Lzma2Error::TransferError(m) && m@
                == spec_unsupported_strategy_message()),
    {
        match self.strategy {
            TransferStrategy::Mmio => {},
            _ => {
                return Err(
                    Lzma2Error::TransferError(String::from_str("Unsupported transfer strategy")),
                );
            },
        }
        let n = chunk_count(input.len(), DECOMPRESS_CHUNK_SIZE);
        let mut i: usize = 0;
        while i < n
            invariant
                self.wf(),
                old(self).spec_strategy() == TransferStrategy::Mmio,
                n == spec_chunk_count(input@.len(), DECOMPRESS_CHUNK_SIZE as nat),
                i <= n,
                1 <= input@.len() <= MAX_TRANSFER_INPUT_LEN,
            decreases n - i,
        {
            proof {
                lemma_chunk_index_in_range(input@.len(), i as nat);
            }
            let padded = padded_chunk(input, DECOMPRESS_CHUNK_SIZE, i);
            let offset = self.registers.input_data + ((i * DECOMPRESS_CHUNK_SIZE) as u64);
            if let Err(e) = self.port.write_chunk(offset, padded.as_slice()) {
                return Err(e);
            }
            i = i + 1;
        }
        Ok(())
    }

    /// Trigger compression: write the start bit to the control register.
    fn start_compression(&mut self) -> (r: Lzma2Result<()>)
        requires
            old(self).wf(),
        ensures
            final(self).wf(),
    {
        self.port.write_register(self.registers.control, CONTROL_START_BIT)
    }

    /// Trigger decompression: write the start bit and the decompress-mode
    /// bit to the control register.
    fn start_decompression(&mut self) -> (r: Lzma2Result<()>)
        requires
            old(self).wf(),
        ensures
            final(self).wf(),
    {
        self.port.write_register(self.registers.control, CONTROL_START_BIT | CONTROL_DECOMPRESS_BIT)
    }

    /// Poll the status register at a fixed interval, up to the polling
    /// budget. A status with the completion bit set ends the wait
    /// successfully; one with the error bit set reads the auxiliary
    /// error-code register at `status + 4` and fails with a processing
    /// error encoding that code; a budget exhausted without either bit
    /// fails with a timeout. A failed register read aborts with that
    /// read's error.
    fn wait_for_completion(&mut self) -> (r: Lzma2Result<()>)
        requires
            old(self).wf(),
        ensures
            final(self).wf(),
    {
        let mut attempt: u32 = 0;
        while attempt < MAX_POLL_ATTEMPTS
            invariant
                self.wf(),
                attempt <= MAX_POLL_ATTEMPTS,
            decreases MAX_POLL_ATTEMPTS - attempt,
        {
            let status = match self.port.read_register(self.registers.status) {
                Ok(s) => s,
                Err(e) => {
                    return Err(e);
                },
            };
            if status_complete(status) {
                return Ok(());
            }
            if status_error(status) {
                let code = match self.port.read_register(self.registers.status + 4) {
                    Ok(c) => c,
                    Err(e) => {
                        return Err(e);
                    },
                };
                return Err(processing_error(code));
            }
            self.port.delay_micros(POLL_INTERVAL_MICROS);
            attempt = attempt + 1;
        }
        Err(Lzma2Error::TimeoutError)
    }

    /// Read the fixed 32768-byte output window back in 256-byte chunks,
    /// chunk `i` at `output_data + i * 256`, whatever operation produced
    /// it. A failed chunk read aborts with that read's error.
    fn read_output_data(&mut self) -> (r: Lzma2Result<Vec<u8>>)
        requires
            old(self).wf(),
        ensures
            final(self).wf(),
            r matches Ok(out) ==> out@.len() == DATA_BUFFER_SIZE,
    {
        let mut output: Vec<u8> = Vec::new();
        let n = DATA_BUFFER_SIZE / OUTPUT_CHUNK_SIZE;
        let mut i: usize = 0;
        while i < n
            invariant
                self.wf(),
                n == 128,
                i <= n,
                output@.len() == i * OUTPUT_CHUNK_SIZE,
            decreases n - i,
        {
            let mut chunk: Vec<u8> = vec![0u8; OUTPUT_CHUNK_SIZE];
            let offset = self.registers.output_data + ((i * OUTPUT_CHUNK_SIZE) as u64);
            if let Err(e) = self.port.read_chunk(offset, &mut chunk) {
                return Err(e);
            }
            output.extend_from_slice(chunk.as_slice());
            i = i + 1;
        }
        Ok(output)
    }

    /// Compress a 32768-byte input buffer: validate the size, reset the
    /// device, load the input, start compression, poll to completion and
    /// read the 32768-byte output back. An input of any other length is
    /// rejected with a validation error naming its size, before any
    /// register access; a failure at any later step aborts the sequence
    /// with that step's error, and the session never retries internally.
    pub fn compress(&mut self, input: &[u8]) -> (r: Lzma2Result<Vec<u8>>)
        requires
            old(self).wf(),
        ensures
            final(self).wf(),
            input@.len() != DATA_BUFFER_SIZE ==> *final(self) == *old(self) && (r matches Err(e)
                && e matches Lzma2Error::InputValidationError(m) && m@ == spec_size_message(
                input@.len(),
            )),
            r matches Ok(out) ==> out@.len() == DATA_BUFFER_SIZE && input@.len()
                == DATA_BUFFER_SIZE,
    {
        if input.len() != DATA_BUFFER_SIZE {
            let mut m = String::from_str("Input size must be 32KB. Current size: ");
            let d = u64_to_decimal(input.len() as u64);
            m.append(d.as_str());
            return Err(Lzma2Error::InputValidationError(m));
        }
        if let Err(e) = self.reset() {
            return Err(e);
        }
        if let Err(e) = self.transfer_input_data(input) {
            return Err(e);
        }
        if let Err(e) = self.start_compression() {
            return Err(e);
        }
        if let Err(e) = self.wait_for_completion() {
            return Err(e);
        }
        self.read_output_data()
    }

    /// Decompress a non-empty input buffer: validate, reset the device,
    /// load the zero-padded input chunks, start decompression, poll to
    /// completion and read the fixed 32768-byte output back. An empty input
    /// is rejected with a validation error before any register access; a
    /// failure at any later step aborts the sequence with that step's
    /// error, and the session never retries internally.
    pub fn decompress(&mut self, input: &[u8]) -> (r: Lzma2Result<Vec<u8>>)
        requires
            old(self).wf(),
            input@.len() <= MAX_TRANSFER_INPUT_LEN,
        ensures
            final(self).wf(),
            input@.len() == 0 ==> *final(self) == *old(self) && (r matches Err(e)
                && e matches Lzma2Error::InputValidationError(m) && m@ == spec_empty_message()),
            r matches Ok(out) ==> out@.len() == DATA_BUFFER_SIZE && input@.len() >= 1,
    {
        if input.len() == 0 {
            return Err(Lzma2Error::InputValidationError(String::from_str("Compressed data is empty")));
        }
        if let Err(e) = self.reset() {
            return Err(e);
        }
        if let Err(e) = self.transfer_compressed_data(input) {
            return Err(e);
        }
        if let Err(e) = self.start_decompression() {
            return Err(e);
        }
        if let Err(e) = self.wait_for_completion() {
            return Err(e);
        }
        self.read_output_data()
    }

    /// Read the five performance counters at their fixed offsets from the
    /// performance-counter base and derive the ratio metrics; the literal
    /// and match counters have no registers and stay zero. A failure of any
    /// single read aborts the whole retrieval: no partial snapshot is
    /// returned.
    pub fn get_performance_metrics(&mut self) -> (r: Lzma2Result<PerformanceMetrics>)
        requires
            old(self).wf(),
        ensures
            final(self).wf(),
            r matches Ok(m) ==> m.compression_ratio == spec_compression_ratio(
                m.total_bytes_processed,
                m.compressed_bytes,
            ) && m.cache_metrics.hit_ratio == spec_hit_ratio(
                m.cache_metrics.hits,
                m.cache_metrics.misses,
            ) && m.literal_count == 0 && m.match_hits == 0,
    {
        let mut metrics = PerformanceMetrics::default();
        let base = self.registers.performance_counters;
        metrics.total_bytes_processed = match self.port.read_register(base) {
            Ok(v) => v,
            Err(e) => {
                return Err(e);
            },
        };
        metrics.compressed_bytes = match self.port.read_register(base + 4) {
            Ok(v) => v,
            Err(e) => {
                return Err(e);
            },
        };
        metrics.cycles = match self.port.read_register(base + 8) {
            Ok(v) => v,
            Err(e) => {
                return Err(e);
            },
        };
        metrics.cache_metrics.hits = match self.port.read_register(base + 12) {
            Ok(v) => v,
            Err(e) => {
                return Err(e);
            },
        };
        metrics.cache_metrics.misses = match self.port.read_register(base + 16) {
            Ok(v) => v,
            Err(e) => {
                return Err(e);
            },
        };
        metrics.calculate_compression_ratio();
        metrics.cache_metrics.calculate_hit_ratio();
        Ok(metrics)
    }
}

/// Build the fixed register map of the device generation.
fn default_register_map() -> (r: RegisterMap)
    ensures
        r == spec_register_map(),
{
    RegisterMap {
        control: 0x00,
        status: 0x04,
        input_data: 0x08,
        output_data: 0x0C,
        performance_counters: 0x20,
    }
}

/// A chunk index below the chunk count addresses at least one byte of the
/// buffer: `i < ceil(len / 32)` implies `i * 32 < len`.
proof fn lemma_chunk_index_in_range(len: nat, i: nat)
    requires
        i < spec_chunk_count(len, DECOMPRESS_CHUNK_SIZE as nat),
    ensures
        i * DECOMPRESS_CHUNK_SIZE < len,
{
    let cs = DECOMPRESS_CHUNK_SIZE as int;
    vstd::arithmetic::div_mod::lemma_fundamental_div_mod(len as int, cs);
    if len % (cs as nat) == 0 {
        vstd::arithmetic::mul::lemma_mul_inequality(i as int, len as int / cs - 1, cs);
    } else {
        vstd::arithmetic::mul::lemma_mul_inequality(i as int, len as int / cs, cs);
    }
}

} // verus!
