//! Transfer engine: the chunking policy that maps a byte buffer to a
//! sequence of offset-sized register writes and reads, plus caller-driven
//! transfer statistics.

use vstd::prelude::*;
use vstd::slice::slice_subrange;
use crate::error::Lzma2Result;
use crate::metrics::Ratio;
use crate::utils::ByteSliceExt;

verus! {

/// Data transfer strategies. A session holds exactly one strategy for its
/// lifetime; only the memory-mapped strategy is implemented in full, and a
/// transfer request under either other strategy fails with a transfer error.
#[derive(Debug, Clone, Copy, PartialEq, Eq, Structural)]
pub enum TransferStrategy {
    /// Memory-mapped I/O transfer.
    Mmio,
    /// Direct memory access transfer.
    Dma,
    /// Streaming transfer.
    Streaming,
}

/// The chunk size best suited to each strategy.
pub open spec fn spec_optimal_chunk_size(s: TransferStrategy) -> usize {
    match s {
        TransferStrategy::Mmio => 256usize,
        TransferStrategy::Dma => 4096usize,
        TransferStrategy::Streaming => 1024usize,
    }
}

impl TransferStrategy {
    /// Determine the optimal chunk size for this strategy.
    pub fn optimal_chunk_size(&self) -> (r: usize)
        ensures
            r == spec_optimal_chunk_size(*self),
    {
        match self {
            TransferStrategy::Mmio => 256,
            TransferStrategy::Dma => 4096,
            TransferStrategy::Streaming => 1024,
        }
    }
}

/// Capability interface for moving data to and from a device; implemented by
/// device backends.
pub trait DataTransfer {
    /// Transfer input data to the device.
    fn transfer_input(&self, data: &[u8]) -> Lzma2Result<()>;

    /// Read output data from the device.
    fn read_output(&self) -> Lzma2Result<Vec<u8>>;
}

/// Configuration for data transfer.
#[derive(Debug, Clone)]
pub struct TransferConfig {
    /// Selected transfer strategy.
    pub strategy: TransferStrategy,
    /// Maximum transfer chunk size.
    pub chunk_size: usize,
    /// Buffer size for streaming transfers.
    pub buffer_size: usize,
}

impl Default for TransferConfig {
    /// The memory-mapped strategy, 256-byte chunks, a 32 KiB buffer.
    fn default() -> (r: Self)
        ensures
            r.strategy == TransferStrategy::Mmio,
            r.chunk_size == 256,
            r.buffer_size == 32768,
    {
        TransferConfig { strategy: TransferStrategy::Mmio, chunk_size: 256, buffer_size: 32 * 1024 }
    }
}

/// The bandwidth, in megabytes per second, of a transfer of `bytes` bytes
/// taking `nanos` nanoseconds: `bytes / 1e6` megabytes over `nanos / 1e9`
/// seconds, that is `bytes * 1000 / nanos`; zero when the duration is zero.
pub open spec fn spec_bandwidth(bytes: u64, nanos: u64) -> Ratio {
    if nanos > 0 {
        Ratio { numerator: (bytes * 1000) as u128, denominator: nanos as u128 }
    } else {
        Ratio { numerator: 0, denominator: 1 }
    }
}

/// Transfer performance metrics, accumulated across recorded transfers.
/// Durations are in nanoseconds; the bandwidth is the rate of the most
/// recently recorded transfer, as an exact ratio in megabytes per second.
#[derive(Debug, Clone)]
pub struct TransferMetrics {
    /// Total bytes transferred.
    pub total_bytes: u64,
    /// Accumulated transfer duration, in nanoseconds.
    pub transfer_time_nanos: u64,
    /// Bandwidth of the last recorded transfer, in megabytes per second.
    pub bandwidth: Ratio,
    /// Number of recorded transfers.
    pub chunk_count: u64,
}

impl Default for TransferMetrics {
    /// All totals zero; the bandwidth of an empty history is zero.
    fn default() -> (r: Self)
        ensures
            r.total_bytes == 0,
            r.transfer_time_nanos == 0,
            r.bandwidth == (Ratio { numerator: 0, denominator: 1 }),
            r.chunk_count == 0,
    {
        TransferMetrics {
            total_bytes: 0,
            transfer_time_nanos: 0,
            bandwidth: Ratio { numerator: 0, denominator: 1 },
            chunk_count: 0,
        }
    }
}

/// Transfer statistics collector, owned and driven by the caller of the
/// transfer engine; totals are never reset automatically.
pub struct TransferStatistics {
    metrics: TransferMetrics,
}

impl TransferStatistics {
    /// The accumulated metrics.
    pub closed spec fn spec_metrics(self) -> TransferMetrics {
        self.metrics
    }

    /// Create a new statistics collector with zeroed totals.
    pub fn new() -> (r: Self)
        ensures
            r.spec_metrics() == (TransferMetrics {
                total_bytes: 0,
                transfer_time_nanos: 0,
                bandwidth: Ratio { numerator: 0, denominator: 1 },
                chunk_count: 0,
            }),
    {
        TransferStatistics { metrics: TransferMetrics::default() }
    }

    /// Record one logical transfer of `bytes` bytes taking `duration_nanos`
    /// nanoseconds: totals grow, the counter advances by one, and the
    /// bandwidth is recomputed from this transfer alone.
    pub fn record_transfer(&mut self, bytes: u64, duration_nanos: u64)
        requires
            old(self).spec_metrics().total_bytes + bytes <= u64::MAX,
            old(self).spec_metrics().transfer_time_nanos + duration_nanos <= u64::MAX,
            old(self).spec_metrics().chunk_count < u64::MAX,
        ensures
            final(self).spec_metrics() == (TransferMetrics {
                total_bytes: (old(self).spec_metrics().total_bytes + bytes) as u64,
                transfer_time_nanos: (old(self).spec_metrics().transfer_time_nanos
                    + duration_nanos) as u64,
                bandwidth: spec_bandwidth(bytes, duration_nanos),
                chunk_count: (old(self).spec_metrics().chunk_count + 1) as u64,
            }),
    {
        self.metrics.total_bytes = self.metrics.total_bytes + bytes;
        self.metrics.transfer_time_nanos = self.metrics.transfer_time_nanos + duration_nanos;
        self.metrics.chunk_count = self.metrics.chunk_count + 1;
        self.metrics.bandwidth = if duration_nanos > 0 {
            Ratio { numerator: bytes as u128 * 1000, denominator: duration_nanos as u128 }
        } else {
            Ratio { numerator: 0, denominator: 1 }
        };
    }

    /// Get the current transfer metrics.
    pub fn get_metrics(&self) -> (r: &TransferMetrics)
        ensures
            *r == self.spec_metrics(),
    {
        &self.metrics
    }
}

/// The number of chunks needed to carry `len` bytes in `chunk_size`-byte
/// chunks, the last chunk possibly short: `len / chunk_size`, rounded up.
pub open spec fn spec_chunk_count(len: nat, chunk_size: nat) -> nat
    recommends
        chunk_size > 0,
{
    len / chunk_size + if len % chunk_size == 0 {
        0nat
    } else {
        1nat
    }
}

/// The `index`-th `chunk_size`-byte chunk of `data`, zero-padded up to the
/// full chunk size where `data` ends inside it.
pub open spec fn spec_padded_chunk(data: Seq<u8>, chunk_size: nat, index: nat) -> Seq<u8> {
    Seq::new(
        chunk_size,
        |j: int|
            if index * chunk_size + j < data.len() {
                data[index * chunk_size + j]
            } else {
                0u8
            },
    )
}

/// Compute the number of chunks needed to carry `len` bytes in
/// `chunk_size`-byte chunks.
pub fn chunk_count(len: usize, chunk_size: usize) -> (r: usize)
    requires
        chunk_size > 0,
        spec_chunk_count(len as nat, chunk_size as nat) <= usize::MAX,
    ensures
        r == spec_chunk_count(len as nat, chunk_size as nat),
{
    let q = len / chunk_size;
    if len % chunk_size == 0 {
        q
    } else {
        q + 1
    }
}

/// Cut the `index`-th `chunk_size`-byte chunk out of `data`, zero-padding
/// the final, possibly short, chunk up to the full chunk size.
pub fn padded_chunk(data: &[u8], chunk_size: usize, index: usize) -> (r: Vec<u8>)
    requires
        chunk_size > 0,
        index * chunk_size < data@.len(),
    ensures
        r@ == spec_padded_chunk(data@, chunk_size as nat, index as nat),
        r@.len() == chunk_size,
{
    let len = data.len();
    let start = index * chunk_size;
    let avail = len - start;
    let end = if avail < chunk_size {
        data.len()
    } else {
        start + chunk_size
    };
    let chunk = slice_subrange(data, start, end);
    let r = chunk.pad_or_truncate(chunk_size);
    proof {
        assert(r@ =~= spec_padded_chunk(data@, chunk_size as nat, index as nat));
    }
    r
}

} // verus!
