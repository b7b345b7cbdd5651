//! Memory metering for one sandboxed run.
//!
//! The engine asks the meter before it creates or grows a linear memory. A
//! request above the ceiling is denied in place, so the hosted program sees an
//! allocation failure, and the denial is remembered for the run's report.

use vstd::prelude::*;

verus! {

/// Bytes in one mebibyte.
pub const BYTES_PER_MB: u64 = 1_048_576;

/// The byte ceiling that stands for a limit given in mebibytes, held at
/// `u64::MAX` where the product does not fit.
pub open spec fn ceiling_bytes_of(memory_mb: u64) -> u64 {
    if memory_mb * BYTES_PER_MB > u64::MAX {
        u64::MAX
    } else {
        (memory_mb * BYTES_PER_MB) as u64
    }
}

/// Whole mebibytes needed to hold `bytes`, rounded up.
pub open spec fn megabytes(bytes: u64) -> u64 {
    if bytes % BYTES_PER_MB == 0 {
        bytes / BYTES_PER_MB
    } else {
        (bytes / BYTES_PER_MB + 1) as u64
    }
}

/// Whether a request for `desired` bytes fits both the ceiling and the
/// memory's own declared maximum.
pub open spec fn grantable(ceiling: u64, desired: u64, maximum: Option<u64>) -> bool {
    desired <= ceiling && match maximum {
        Some(max) => desired <= max,
        None => true,
    }
}

/// Tracks the linear memory of one run against a ceiling.
#[derive(Debug)]
pub struct MemoryMeter {
    ceiling_bytes: u64,
    peak_bytes: u64,
    denied: bool,
}

impl MemoryMeter {
    #[verifier::type_invariant]
    spec fn within_ceiling(self) -> bool {
        self.peak_bytes <= self.ceiling_bytes
    }

    /// The ceiling in bytes.
    pub closed spec fn ceiling(&self) -> u64 {
        self.ceiling_bytes
    }

    /// The largest size granted so far, in bytes.
    pub closed spec fn peak(&self) -> u64 {
        self.peak_bytes
    }

    /// Whether a request was turned down because of the ceiling.
    pub closed spec fn denied(&self) -> bool {
        self.denied
    }

    /// A meter with nothing granted yet and a ceiling of `memory_mb`
    /// mebibytes.
    pub fn new(memory_mb: u64) -> (m: Self)
        ensures
            m.ceiling() == ceiling_bytes_of(memory_mb),
            m.peak() == 0,
            !m.denied(),
    {
        let ceiling_bytes = if memory_mb > u64::MAX / BYTES_PER_MB {
            u64::MAX
        } else {
            memory_mb * BYTES_PER_MB
        };
        MemoryMeter { ceiling_bytes, peak_bytes: 0, denied: false }
    }

    /// Decides one request to bring a memory to `desired` bytes. It is
    /// granted when it fits the ceiling and the memory's own `maximum`. A
    /// request above the ceiling is recorded as a denial; a granted one
    /// raises the peak if it is the largest so far.
    pub fn request(&mut self, desired: u64, maximum: Option<u64>) -> (granted: bool)
        ensures
            granted == grantable(old(self).ceiling(), desired, maximum),
            final(self).ceiling() == old(self).ceiling(),
            final(self).denied() == (old(self).denied() || desired > old(self).ceiling()),
            final(self).peak() == if granted && desired > old(self).peak() {
                desired
            } else {
                old(self).peak()
            },
    {
        proof {
            use_type_invariant(&*self);
        }
        if desired > self.ceiling_bytes {
            self.denied = true;
            return false;
        }
        let fits = match maximum {
            Some(max) => desired <= max,
            None => true,
        };
        if fits && desired > self.peak_bytes {
            self.peak_bytes = desired;
        }
        fits
    }

    /// The largest size granted so far, in bytes. It never exceeds the
    /// ceiling.
    pub fn peak_bytes(&self) -> (bytes: u64)
        ensures
            bytes == self.peak(),
            bytes <= self.ceiling(),
    {
        proof {
            use_type_invariant(self);
        }
        self.peak_bytes
    }

    /// The ceiling in bytes.
    pub fn ceiling_bytes(&self) -> (bytes: u64)
        ensures
            bytes == self.ceiling(),
    {
        self.ceiling_bytes
    }

    /// Whether any request was turned down because of the ceiling.
    pub fn was_denied(&self) -> (denied: bool)
        ensures
            denied == self.denied(),
    {
        self.denied
    }
}

/// Rounds a byte count up to whole mebibytes.
pub fn to_megabytes(bytes: u64) -> (mb: u64)
    ensures
        mb == megabytes(bytes),
{
    if bytes % BYTES_PER_MB == 0 {
        bytes / BYTES_PER_MB
    } else {
        bytes / BYTES_PER_MB + 1
    }
}

/// A peak that stays under the byte ceiling of a limit rounds up to no more
/// mebibytes than the limit.
pub proof fn lemma_peak_within_limit(peak: u64, memory_mb: u64)
    requires
        peak <= ceiling_bytes_of(memory_mb),
    ensures
        megabytes(peak) <= memory_mb,
{
    let m = BYTES_PER_MB as int;
    let q = peak as int / m;
    assert(BYTES_PER_MB == 1_048_576);
    if memory_mb * BYTES_PER_MB > u64::MAX {
        assert(q <= u64::MAX / 1_048_576);
        assert(memory_mb > u64::MAX / 1_048_576) by (nonlinear_arith)
            requires
                memory_mb * 1_048_576 > u64::MAX,
        ;
        assert(u64::MAX % 1_048_576 != 0);
        if peak % BYTES_PER_MB != 0 {
            assert(q + 1 <= memory_mb);
        }
    } else {
        assert(peak <= memory_mb * 1_048_576);
        if peak % BYTES_PER_MB == 0 {
            assert(q <= memory_mb) by (nonlinear_arith)
                requires
                    q * 1_048_576 <= peak,
                    peak <= memory_mb * 1_048_576,
                    q >= 0,
            ;
        } else {
            assert(q + 1 <= memory_mb) by (nonlinear_arith)
                requires
                    q * 1_048_576 < peak,
                    peak <= memory_mb * 1_048_576,
                    q >= 0,
                    peak == q * 1_048_576 + (peak % 1_048_576),
                    0 < peak % 1_048_576 < 1_048_576,
            ;
        }
    }
}

/// The meter is what the engine consults for every memory and table of a
/// store.
impl wasmtime::ResourceLimiter for MemoryMeter {
    /// Answers the engine's question whether a linear memory may be created
    /// with, or grown to, `desired` bytes.
    fn memory_growing(&mut self, current: usize, desired: usize, maximum: Option<usize>) -> (r:
        Result<bool, anyhow::Error>)
        ensures
            r matches Ok(granted) && granted == grantable(
                old(self).ceiling(),
                desired as u64,
                match maximum {
                    Some(max) => Some(max as u64),
                    None => None,
                },
            ),
            final(self).ceiling() == old(self).ceiling(),
            final(self).denied() == (old(self).denied() || desired > old(self).ceiling()),
    {
        let max = match maximum {
            Some(max) => Some(max as u64),
            None => None,
        };
        Ok(self.request(desired as u64, max))
    }

    /// Tables are not metered: growth is allowed up to the table's own
    /// maximum.
    fn table_growing(&mut self, current: usize, desired: usize, maximum: Option<usize>) -> (r:
        Result<bool, anyhow::Error>)
        ensures
            r matches Ok(granted) && granted == match maximum {
                Some(max) => desired <= max,
                None => true,
            },
            *final(self) == *old(self),
    {
        match maximum {
            Some(max) => Ok(desired <= max),
            None => Ok(true),
        }
    }
}

} // verus!
