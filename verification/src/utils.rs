//! Utilities: operation timing, byte-slice helpers, decimal rendering for
//! error messages, and the standalone CRC32 integrity check.

use vstd::prelude::*;
use vstd::string::StringExecFns;

verus! {

/// Declares std's monotonic clock reading so it can stand in a field; the
/// driver never inspects the value itself.
#[verifier::external_type_specification]
#[verifier::external_body]
pub struct ExInstant(std::time::Instant);

/// Relies on `std::time::Instant::now`: a reading of the monotonic clock.
/// Nothing is promised of the value, which depends on the time of the call.
pub assume_specification[ std::time::Instant::now ]() -> std::time::Instant;

/// Relies on `std::time::Instant::elapsed`: the time since the reading was
/// taken. Nothing is promised of the value, which depends on the time of the
/// call.
pub assume_specification[ std::time::Instant::elapsed ](
    i: &std::time::Instant,
) -> std::time::Duration;

/// Relies on `std::time::Duration::as_nanos`: the duration expressed in
/// nanoseconds. Nothing is promised of the value: the duration itself is
/// opaque here.
pub assume_specification[ std::time::Duration::as_nanos ](d: &std::time::Duration) -> u128;

/// Utility for timing operations against the monotonic clock.
pub struct Stopwatch {
    start: std::time::Instant,
}

impl Stopwatch {
    /// Create and start a new stopwatch.
    pub fn start() -> Self {
        Self { start: std::time::Instant::now() }
    }

    /// Elapsed time since the stopwatch was started, in nanoseconds,
    /// saturating at `u64::MAX`. The value depends on the clock, so nothing
    /// is stated of it.
    pub fn stop(&self) -> u64 {
        let nanos = self.start.elapsed().as_nanos();
        if nanos > u64::MAX as u128 {
            u64::MAX
        } else {
            nanos as u64
        }
    }
}

/// Byte slice utilities.
pub trait ByteSliceExt {
    /// Whether the slice is entirely zero.
    fn is_zero(&self) -> bool;

    /// The index of the first non-zero byte, if any.
    fn first_non_zero_index(&self) -> Option<usize>;

    /// A copy padded with zeros, or truncated, to exactly `length` bytes.
    fn pad_or_truncate(&self, length: usize) -> Vec<u8>;
}

impl ByteSliceExt for [u8] {
    fn is_zero(&self) -> (r: bool)
        ensures
            r == (forall|i: int| 0 <= i < self@.len() ==> self@[i] == 0),
    {
        let mut idx: usize = 0;
        while idx < self.len()
            invariant
                idx <= self@.len(),
                forall|i: int| 0 <= i < idx ==> self@[i] == 0,
            decreases self@.len() - idx,
        {
            if self[idx] != 0 {
                return false;
            }
            idx = idx + 1;
        }
        true
    }

    fn first_non_zero_index(&self) -> (r: Option<usize>)
        ensures
            r matches Some(i) ==> i < self@.len() && self@[i as int] != 0 && (forall|j: int|
                0 <= j < i ==> self@[j] == 0),
            r is None ==> forall|j: int| 0 <= j < self@.len() ==> self@[j] == 0,
    {
        let mut idx: usize = 0;
        while idx < self.len()
            invariant
                idx <= self@.len(),
                forall|j: int| 0 <= j < idx ==> self@[j] == 0,
            decreases self@.len() - idx,
        {
            if self[idx] != 0 {
                return Some(idx);
            }
            idx = idx + 1;
        }
        None
    }

    fn pad_or_truncate(&self, length: usize) -> (r: Vec<u8>)
        ensures
            r@.len() == length,
            forall|i: int| 0 <= i < length && i < self@.len() ==> r@[i] == self@[i],
            forall|i: int| self@.len() <= i < length ==> r@[i] == 0,
    {
        let mut result: Vec<u8> = Vec::new();
        let take = if self.len() < length {
            self.len()
        } else {
            length
        };
        let mut idx: usize = 0;
        while idx < take
            invariant
                idx <= take,
                take <= self@.len(),
                take <= length,
                result@.len() == idx,
                forall|i: int| 0 <= i < idx ==> result@[i] == self@[i],
            decreases take - idx,
        {
            result.push(self[idx]);
            idx = idx + 1;
        }
        while result.len() < length
            invariant
                take <= result@.len() <= length,
                take == if self@.len() < length {
                    self@.len() as int
                } else {
                    length as int
                },
                forall|i: int| 0 <= i < take ==> result@[i] == self@[i],
                forall|i: int| take <= i < result@.len() ==> result@[i] == 0,
            decreases length - result@.len(),
        {
            result.push(0);
        }
        result
    }
}

/// The character for a single decimal digit.
pub open spec fn spec_digit(d: nat) -> char {
    if d == 0 {
        '0'
    } else if d == 1 {
        '1'
    } else if d == 2 {
        '2'
    } else if d == 3 {
        '3'
    } else if d == 4 {
        '4'
    } else if d == 5 {
        '5'
    } else if d == 6 {
        '6'
    } else if d == 7 {
        '7'
    } else if d == 8 {
        '8'
    } else {
        '9'
    }
}

/// The decimal rendering of `v`, most significant digit first, with no
/// leading zeros (a lone zero for `v == 0`).
pub open spec fn spec_decimal(v: nat) -> Seq<char>
    decreases v,
{
    if v < 10 {
        seq![spec_digit(v)]
    } else {
        spec_decimal(v / 10) + seq![spec_digit(v % 10)]
    }
}

/// The one-character string for a decimal digit.
fn digit_to_string(d: u64) -> (s: String)
    requires
        d < 10,
    ensures
        s@ == seq![spec_digit(d as nat)],
{
    let lit: &str = if d == 0 {
        "0"
    } else if d == 1 {
        "1"
    } else if d == 2 {
        "2"
    } else if d == 3 {
        "3"
    } else if d == 4 {
        "4"
    } else if d == 5 {
        "5"
    } else if d == 6 {
        "6"
    } else if d == 7 {
        "7"
    } else if d == 8 {
        "8"
    } else {
        "9"
    };
    proof {
        reveal_strlit("0");
        reveal_strlit("1");
        reveal_strlit("2");
        reveal_strlit("3");
        reveal_strlit("4");
        reveal_strlit("5");
        reveal_strlit("6");
        reveal_strlit("7");
        reveal_strlit("8");
        reveal_strlit("9");
        assert(lit@ =~= seq![spec_digit(d as nat)]);
    }
    String::from_str(lit)
}

/// Render `v` in decimal, matching `spec_decimal`.
pub fn u64_to_decimal(v: u64) -> (s: String)
    ensures
        s@ == spec_decimal(v as nat),
    decreases v,
{
    if v < 10 {
        digit_to_string(v)
    } else {
        let mut s = u64_to_decimal(v / 10);
        let d = digit_to_string(v % 10);
        s.append(d.as_str());
        s
    }
}

/// CRC32 calculator with a configurable polynomial and initial value,
/// usable by callers for payload integrity checking; it is not wired into
/// the compression protocol itself.
pub struct Crc32 {
    polynomial: u32,
    initial_value: u32,
}

/// One round of the reflected bit-at-a-time CRC step: shift right, and fold
/// in the polynomial when the low bit was set.
pub open spec fn spec_crc32_round(poly: u32, crc: u32) -> u32 {
    if crc & 1 == 1 {
        (crc >> 1) ^ poly
    } else {
        crc >> 1
    }
}

/// `n` successive CRC rounds.
pub open spec fn spec_crc32_rounds(poly: u32, crc: u32, n: nat) -> u32
    decreases n,
{
    if n == 0 {
        crc
    } else {
        spec_crc32_round(poly, spec_crc32_rounds(poly, crc, (n - 1) as nat))
    }
}

/// The CRC accumulator after absorbing `data`: each byte is folded into the
/// low bits and run through eight rounds.
pub open spec fn spec_crc32_acc(poly: u32, init: u32, data: Seq<u8>) -> u32
    decreases data.len(),
{
    if data.len() == 0 {
        init
    } else {
        spec_crc32_rounds(poly, spec_crc32_acc(poly, init, data.drop_last()) ^ (data.last() as u32), 8)
    }
}

/// The CRC32 of `data`: the accumulator with the final complement applied.
pub open spec fn spec_crc32(poly: u32, init: u32, data: Seq<u8>) -> u32 {
    !spec_crc32_acc(poly, init, data)
}

/// Whether `reference` is the CRC32 of `data`: the decision `verify` returns.
pub open spec fn spec_crc32_matches(poly: u32, init: u32, data: Seq<u8>, reference: u32) -> bool {
    spec_crc32(poly, init, data) == reference
}

impl Crc32 {
    /// The polynomial this calculator folds in.
    pub closed spec fn spec_polynomial(self) -> u32 {
        self.polynomial
    }

    /// The initial accumulator value.
    pub closed spec fn spec_initial(self) -> u32 {
        self.initial_value
    }

    /// Create a new CRC32 calculator.
    pub fn new(polynomial: u32, initial_value: u32) -> (r: Self)
        ensures
            r.spec_polynomial() == polynomial,
            r.spec_initial() == initial_value,
    {
        Self { polynomial, initial_value }
    }

    /// Calculate the CRC32 of a byte slice.
    pub fn calculate(&self, data: &[u8]) -> (r: u32)
        ensures
            r == spec_crc32(self.spec_polynomial(), self.spec_initial(), data@),
    {
        let mut crc = self.initial_value;
        let mut i: usize = 0;
        while i < data.len()
            invariant
                i <= data@.len(),
                crc == spec_crc32_acc(self.polynomial, self.initial_value, data@.subrange(0, i as int)),
            decreases data@.len() - i,
        {
            crc = crc ^ (data[i] as u32);
            let ghost folded = crc;
            let mut b: usize = 0;
            while b < 8
                invariant
                    b <= 8,
                    crc == spec_crc32_rounds(self.polynomial, folded, b as nat),
                decreases 8 - b,
            {
                crc = if crc & 1 == 1 {
                    (crc >> 1) ^ self.polynomial
                } else {
                    crc >> 1
                };
                b = b + 1;
            }
            proof {
                assert(data@.subrange(0, (i + 1) as int).drop_last() =~= data@.subrange(0, i as int));
                assert(data@.subrange(0, (i + 1) as int).last() == data@[i as int]);
            }
            i = i + 1;
        }
        proof {
            assert(data@.subrange(0, data@.len() as int) =~= data@);
        }
        !crc
    }

    /// Verify a byte slice against a reference CRC.
    pub fn verify(&self, data: &[u8], reference_crc: u32) -> (r: bool)
        ensures
            r == spec_crc32_matches(self.spec_polynomial(), self.spec_initial(), data@, reference_crc),
    {
        self.calculate(data) == reference_crc
    }
}

/// CRC32 round trip: for every byte sequence, the checksum computed from the
/// data verifies against that same data, and the checksum with its lowest
/// bit flipped does not.
pub proof fn lemma_crc32_roundtrip(poly: u32, init: u32, data: Seq<u8>)
    ensures
        spec_crc32_matches(poly, init, data, spec_crc32(poly, init, data)),
        !spec_crc32_matches(poly, init, data, spec_crc32(poly, init, data) ^ 1),
{
    let c = spec_crc32(poly, init, data);
    assert(c ^ 1 != c) by (bit_vector);
}

} // verus!
