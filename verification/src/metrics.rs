//! Performance metrics derived from the device's counter registers.
//!
//! Ratios are represented exactly, as numerator/denominator pairs, so their
//! derivation rules can be stated and checked precisely; presentation layers
//! may turn a [`Ratio`] into a floating-point value when displaying it.

use vstd::prelude::*;

verus! {

/// An exact ratio with value `numerator / denominator`.
#[derive(Debug, Clone, Copy, PartialEq, Eq, Structural)]
pub struct Ratio {
    pub numerator: u128,
    pub denominator: u128,
}

/// The cache hit ratio derived from hit and miss counts: `hits / (hits +
/// misses)` when any access was counted, zero otherwise.
pub open spec fn spec_hit_ratio(hits: u64, misses: u64) -> Ratio {
    if hits + misses > 0 {
        Ratio { numerator: hits as u128, denominator: (hits + misses) as u128 }
    } else {
        Ratio { numerator: 0, denominator: 1 }
    }
}

/// The compression ratio derived from byte counters: `compressed / total`
/// when any byte was processed, and the neutral ratio one otherwise ("no
/// compression applied yet" reports 1, not an error).
pub open spec fn spec_compression_ratio(total: u64, compressed: u64) -> Ratio {
    if total > 0 {
        Ratio { numerator: compressed as u128, denominator: total as u128 }
    } else {
        Ratio { numerator: 1, denominator: 1 }
    }
}

/// Cache performance metrics.
#[derive(Debug, Clone)]
pub struct CacheMetrics {
    /// Total cache hits.
    pub hits: u64,
    /// Total cache misses.
    pub misses: u64,
    /// Cache hit ratio; derived from `hits` and `misses`, never stored
    /// independently of them.
    pub hit_ratio: Ratio,
}

impl CacheMetrics {
    /// Recompute the hit ratio from the current hit and miss counts.
    pub fn calculate_hit_ratio(&mut self)
        ensures
            *final(self) == (CacheMetrics {
                hit_ratio: spec_hit_ratio(old(self).hits, old(self).misses),
                ..*old(self)
            }),
    {
        let total: u128 = self.hits as u128 + self.misses as u128;
        self.hit_ratio = if total > 0 {
            Ratio { numerator: self.hits as u128, denominator: total }
        } else {
            Ratio { numerator: 0, denominator: 1 }
        };
    }
}

impl Default for CacheMetrics {
    /// All counters zero; the ratio of an empty history is zero.
    fn default() -> (r: Self)
        ensures
            r.hits == 0,
            r.misses == 0,
            r.hit_ratio == (Ratio { numerator: 0, denominator: 1 }),
    {
        CacheMetrics { hits: 0, misses: 0, hit_ratio: Ratio { numerator: 0, denominator: 1 } }
    }
}

/// Comprehensive performance metrics for a compression device: a derived,
/// read-only snapshot, recomputed on every query.
#[derive(Debug, Clone)]
pub struct PerformanceMetrics {
    /// Total bytes processed.
    pub total_bytes_processed: u64,
    /// Compressed bytes generated.
    pub compressed_bytes: u64,
    /// Compression ratio; derived from the two byte counters.
    pub compression_ratio: Ratio,
    /// Total clock cycles used.
    pub cycles: u64,
    /// Cache performance metrics.
    pub cache_metrics: CacheMetrics,
    /// Number of literal bytes encoded.
    pub literal_count: u64,
    /// Number of match hits during compression.
    pub match_hits: u64,
}

impl PerformanceMetrics {
    /// Recompute the compression ratio from the current byte counters.
    pub fn calculate_compression_ratio(&mut self)
        ensures
            *final(self) == (PerformanceMetrics {
                compression_ratio: spec_compression_ratio(
                    old(self).total_bytes_processed,
                    old(self).compressed_bytes,
                ),
                ..*old(self)
            }),
    {
        self.compression_ratio = if self.total_bytes_processed > 0 {
            Ratio {
                numerator: self.compressed_bytes as u128,
                denominator: self.total_bytes_processed as u128,
            }
        } else {
            Ratio { numerator: 1, denominator: 1 }
        };
    }
}

impl Default for PerformanceMetrics {
    /// All counters zero; the neutral compression ratio is one.
    fn default() -> (r: Self)
        ensures
            r.total_bytes_processed == 0,
            r.compressed_bytes == 0,
            r.compression_ratio == (Ratio { numerator: 1, denominator: 1 }),
            r.cycles == 0,
            r.cache_metrics.hits == 0,
            r.cache_metrics.misses == 0,
            r.cache_metrics.hit_ratio == (Ratio { numerator: 0, denominator: 1 }),
            r.literal_count == 0,
            r.match_hits == 0,
    {
        PerformanceMetrics {
            total_bytes_processed: 0,
            compressed_bytes: 0,
            compression_ratio: Ratio { numerator: 1, denominator: 1 },
            cycles: 0,
            cache_metrics: CacheMetrics::default(),
            literal_count: 0,
            match_hits: 0,
        }
    }
}

} // verus!
