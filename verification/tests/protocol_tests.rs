//! Tests for the control protocol, driven through register-port test
//! doubles: validation ordering, polling outcomes, chunking and padding,
//! and metrics retrieval.

use lzma2_fpga::device::{DeviceConfig, DeviceManager, RegisterPort};
use lzma2_fpga::error::{ErrorExt, Lzma2Error, Lzma2Result};
use lzma2_fpga::protocol::Session;
use lzma2_fpga::transfer::TransferStrategy;

/// A port that must never be touched: every primitive panics.
struct PanicPort;

impl RegisterPort for PanicPort {
    fn read_register(&mut self, _offset: u64) -> Lzma2Result<u64> {
        panic!("register access during input validation");
    }

    fn write_register(&mut self, _offset: u64, _value: u64) -> Lzma2Result<()> {
        panic!("register access during input validation");
    }

    fn read_chunk(&mut self, _offset: u64, _buffer: &mut Vec<u8>) -> Lzma2Result<()> {
        panic!("register access during input validation");
    }

    fn write_chunk(&mut self, _offset: u64, _data: &[u8]) -> Lzma2Result<()> {
        panic!("register access during input validation");
    }

    fn delay_micros(&mut self, _micros: u64) {
        panic!("register access during input validation");
    }
}

/// A scripted port: successive status reads return the scripted words (the
/// last one repeating), the auxiliary error-code register returns a fixed
/// code, performance counters return fixed values, chunk reads fill the
/// buffer with a marker byte, and every write and delay is recorded.
struct ScriptedPort {
    statuses: Vec<u64>,
    error_code: u64,
    status_reads: u32,
    delay_calls: Vec<u64>,
    reg_writes: Vec<(u64, u64)>,
    chunk_writes: Vec<(u64, Vec<u8>)>,
    chunk_reads: u32,
}

impl ScriptedPort {
    fn with_statuses(statuses: Vec<u64>, error_code: u64) -> Self {
        ScriptedPort {
            statuses,
            error_code,
            status_reads: 0,
            delay_calls: Vec::new(),
            reg_writes: Vec::new(),
            chunk_writes: Vec::new(),
            chunk_reads: 0,
        }
    }

    /// Completion bit set on the very first poll.
    fn completing() -> Self {
        Self::with_statuses(vec![0x1], 0)
    }

    /// Neither the completion nor the error bit is ever set.
    fn silent() -> Self {
        Self::with_statuses(vec![0x0], 0)
    }
}

impl RegisterPort for ScriptedPort {
    fn read_register(&mut self, offset: u64) -> Lzma2Result<u64> {
        match offset {
            // Status register.
            0x04 => {
                let idx = self.status_reads as usize;
                self.status_reads += 1;
                let clamped = if idx < self.statuses.len() { idx } else { self.statuses.len() - 1 };
                Ok(self.statuses[clamped])
            }
            // Auxiliary error-code register at status + 4.
            0x08 => Ok(self.error_code),
            // Performance counters.
            0x20 => Ok(1000),
            0x24 => Ok(250),
            0x28 => Ok(5),
            0x2C => Ok(80),
            0x30 => Ok(20),
            _ => Ok(0),
        }
    }

    fn write_register(&mut self, offset: u64, value: u64) -> Lzma2Result<()> {
        self.reg_writes.push((offset, value));
        Ok(())
    }

    fn read_chunk(&mut self, _offset: u64, buffer: &mut Vec<u8>) -> Lzma2Result<()> {
        self.chunk_reads += 1;
        for b in buffer.iter_mut() {
            *b = 0xAB;
        }
        Ok(())
    }

    fn write_chunk(&mut self, offset: u64, data: &[u8]) -> Lzma2Result<()> {
        self.chunk_writes.push((offset, data.to_vec()));
        Ok(())
    }

    fn delay_micros(&mut self, micros: u64) {
        self.delay_calls.push(micros);
    }
}

/// A port whose register accesses all fail.
struct BrokenPort;

impl RegisterPort for BrokenPort {
    fn read_register(&mut self, _offset: u64) -> Lzma2Result<u64> {
        Err(Lzma2Error::DeviceAccessError)
    }

    fn write_register(&mut self, _offset: u64, _value: u64) -> Lzma2Result<()> {
        Err(Lzma2Error::DeviceAccessError)
    }

    fn read_chunk(&mut self, _offset: u64, _buffer: &mut Vec<u8>) -> Lzma2Result<()> {
        Err(Lzma2Error::DeviceAccessError)
    }

    fn write_chunk(&mut self, _offset: u64, _data: &[u8]) -> Lzma2Result<()> {
        Err(Lzma2Error::DeviceAccessError)
    }

    fn delay_micros(&mut self, _micros: u64) {}
}

#[test]
fn test_compress_rejects_wrong_size_before_any_register_access() {
    let mut session = Session::new(PanicPort);
    for len in [0usize, 100, 32767, 32769] {
        let input = vec![0u8; len];
        let result = session.compress(&input);
        match result {
            Err(Lzma2Error::InputValidationError(_)) => {}
            other => panic!("expected a validation error, got {:?}", other.map(|v| v.len())),
        }
    }
    let err = session.compress(&vec![0u8; 100]).unwrap_err();
    assert_eq!(err.context(), Some("Input size must be 32KB. Current size: 100"));
    assert!(!err.is_recoverable());
}

#[test]
fn test_decompress_rejects_empty_before_any_register_access() {
    let mut session = Session::new(PanicPort);
    let empty: Vec<u8> = Vec::new();
    let err = session.decompress(&empty).unwrap_err();
    match &err {
        Lzma2Error::InputValidationError(_) => {}
        other => panic!("expected a validation error, got {:?}", other),
    }
    assert_eq!(err.context(), Some("Compressed data is empty"));
    assert!(!err.is_recoverable());
}

#[test]
fn test_compress_completes_after_one_poll() {
    let mut session = Session::new(ScriptedPort::completing());
    let input = vec![7u8; 32 * 1024];
    let output = session.compress(&input).expect("compression should complete");
    assert_eq!(output.len(), 32 * 1024);
    assert!(output.iter().all(|&b| b == 0xAB));
    assert_eq!(session.port().status_reads, 1);
    // 32768 bytes in 256-byte chunks: 128 input writes; 128 output reads.
    assert_eq!(session.port().chunk_writes.len(), 128);
    assert_eq!(session.port().chunk_reads, 128);
}

#[test]
fn test_decompress_completes_after_one_poll() {
    let mut session = Session::new(ScriptedPort::completing());
    let input = vec![9u8; 64];
    let output = session.decompress(&input).expect("decompression should complete");
    assert_eq!(output.len(), 32 * 1024);
    assert_eq!(session.port().status_reads, 1);
}

#[test]
fn test_timeout_after_exactly_one_thousand_polls() {
    let mut session = Session::new(ScriptedPort::silent());
    let input = vec![0u8; 32 * 1024];
    let err = session.compress(&input).unwrap_err();
    assert!(matches!(err, Lzma2Error::TimeoutError));
    assert!(err.is_recoverable());
    assert_eq!(session.port().status_reads, 1000);
    // One reset hold plus one delay per poll, each of 10 microseconds.
    assert_eq!(session.port().delay_calls.len(), 1001);
    assert!(session.port().delay_calls.iter().all(|&m| m == 10));
}

#[test]
fn test_processing_error_carries_decoded_code() {
    // The error bit appears on the third poll; the code register holds 42.
    let mut session = Session::new(ScriptedPort::with_statuses(vec![0, 0, 0x10000], 42));
    let input = vec![0u8; 32 * 1024];
    let err = session.compress(&input).unwrap_err();
    match &err {
        Lzma2Error::ProcessingError(_) => {}
        other => panic!("expected a processing error, got {:?}", other),
    }
    assert_eq!(err.context(), Some("Processing error: Error code 42"));
    assert!(!err.is_recoverable());
    assert_eq!(session.port().status_reads, 3);
}

#[test]
fn test_completion_bit_wins_over_error_bit() {
    let mut session = Session::new(ScriptedPort::with_statuses(vec![0x10001], 7));
    let input = vec![0u8; 32 * 1024];
    assert!(session.compress(&input).is_ok());
}

#[test]
fn test_decompress_pads_final_chunk_and_bounds_offsets() {
    let mut session = Session::new(ScriptedPort::completing());
    let input: Vec<u8> = (1u8..=50).collect();
    session.decompress(&input).expect("decompression should complete");

    // 50 bytes in 32-byte chunks: two writes, at input_data + 0 and + 32.
    let writes = &session.port().chunk_writes;
    assert_eq!(writes.len(), 2);
    assert_eq!(writes[0].0, 0x08);
    assert_eq!(writes[1].0, 0x08 + 32);
    let expected_first: Vec<u8> = (1u8..=32).collect();
    assert_eq!(writes[0].1, expected_first);
    let mut expected_last: Vec<u8> = (33u8..=50).collect();
    expected_last.resize(32, 0);
    assert_eq!(writes[1].1, expected_last);
    // No write reaches beyond input_data + ceil(50/32) * 32.
    for (offset, data) in writes {
        assert!(offset + data.len() as u64 <= 0x08 + 64);
    }
}

#[test]
fn test_compress_writes_sequence_control_values() {
    let mut session = Session::new(ScriptedPort::completing());
    let input = vec![0u8; 32 * 1024];
    session.compress(&input).expect("compression should complete");
    // Reset bit set, reset cleared, then the start bit.
    let writes = &session.port().reg_writes;
    assert_eq!(writes[0], (0x00, 1 << 31));
    assert_eq!(writes[1], (0x00, 0));
    assert_eq!(writes[2], (0x00, 1));
    assert_eq!(writes.len(), 3);
}

#[test]
fn test_decompress_sets_mode_bit() {
    let mut session = Session::new(ScriptedPort::completing());
    let input = vec![1u8; 32];
    session.decompress(&input).expect("decompression should complete");
    let writes = &session.port().reg_writes;
    assert_eq!(writes[2], (0x00, (1 << 0) | (1 << 16)));
}

#[test]
fn test_unsupported_strategy_is_refused() {
    let config = DeviceConfig { vendor_id: 0x1234, device_id: 0x5678, bar_index: 0 };
    let mut session = Session::with_config(config, TransferStrategy::Dma, ScriptedPort::completing());
    let err = session.compress(&vec![0u8; 32 * 1024]).unwrap_err();
    match &err {
        Lzma2Error::TransferError(_) => {}
        other => panic!("expected a transfer error, got {:?}", other),
    }
    assert_eq!(err.context(), Some("Unsupported transfer strategy"));
    assert!(err.is_recoverable());
    // The strategy is checked before any chunk write.
    assert!(session.port().chunk_writes.is_empty());

    let config = DeviceConfig { vendor_id: 0x1234, device_id: 0x5678, bar_index: 0 };
    let mut session =
        Session::with_config(config, TransferStrategy::Streaming, ScriptedPort::completing());
    let err = session.decompress(&vec![1u8; 16]).unwrap_err();
    assert_eq!(err.context(), Some("Unsupported transfer strategy"));
}

#[test]
fn test_register_failure_aborts_immediately() {
    let mut session = Session::new(BrokenPort);
    let err = session.compress(&vec![0u8; 32 * 1024]).unwrap_err();
    assert!(matches!(err, Lzma2Error::DeviceAccessError));
    assert!(!err.is_recoverable());
    let err = session.decompress(&vec![1u8; 8]).unwrap_err();
    assert!(matches!(err, Lzma2Error::DeviceAccessError));
    let err = session.get_performance_metrics().unwrap_err();
    assert!(matches!(err, Lzma2Error::DeviceAccessError));
}

#[test]
fn test_get_performance_metrics_derives_ratios() {
    let mut session = Session::new(ScriptedPort::completing());
    let metrics = session.get_performance_metrics().expect("metrics should be read");
    assert_eq!(metrics.total_bytes_processed, 1000);
    assert_eq!(metrics.compressed_bytes, 250);
    assert_eq!(metrics.cycles, 5);
    assert_eq!(metrics.cache_metrics.hits, 80);
    assert_eq!(metrics.cache_metrics.misses, 20);
    let ratio =
        metrics.compression_ratio.numerator as f32 / metrics.compression_ratio.denominator as f32;
    assert_eq!(ratio, 0.25);
    let hit_ratio = metrics.cache_metrics.hit_ratio.numerator as f32
        / metrics.cache_metrics.hit_ratio.denominator as f32;
    assert_eq!(hit_ratio, 0.8);
    assert_eq!(metrics.literal_count, 0);
    assert_eq!(metrics.match_hits, 0);
}

#[test]
fn test_select_first_device() {
    let err = DeviceManager::select_first_device(Vec::<u32>::new()).unwrap_err();
    match &err {
        Lzma2Error::DeviceInitError(_) => {}
        other => panic!("expected an initialization error, got {:?}", other),
    }
    assert_eq!(err.context(), Some("No LZMA2 compression devices found"));
    assert!(!err.is_recoverable());

    let first = DeviceManager::select_first_device(vec![10u32, 20, 30]).unwrap();
    assert_eq!(first, 10);
}

#[test]
fn test_session_accessors() {
    let session = Session::new(ScriptedPort::completing());
    assert_eq!(session.config().vendor_id, 0x1234);
    assert_eq!(session.config().device_id, 0x5678);
    assert_eq!(session.config().bar_index, 0);
    let port = session.into_port();
    assert_eq!(port.status_reads, 0);
}
