//! Segment-boundary detection for long-running downloads. A segmenter is
//! configured with exactly one threshold, by elapsed time or by
//! accumulated byte size, and is evaluated on every received data unit.

use vstd::prelude::*;

verus! {

/// The caller-facing segment configuration: exactly one of the two
/// thresholds, by construction.
#[derive(Clone, Copy, Debug, PartialEq, Eq, Structural)]
pub enum PySegment {
    /// Close the current segment once this many seconds have elapsed.
    Time { time: u64 },
    /// Close the current segment once this many bytes have accumulated.
    Size { size: u64 },
}

/// Boundary detector for one download stream.
///
/// With a size threshold, a write that brings the bytes accumulated since
/// the last boundary to the threshold or beyond closes the current
/// segment; the accumulation then restarts at zero. With a time
/// threshold, the first write observed at or after the threshold has
/// elapsed since the last boundary closes the current segment.
#[derive(Debug)]
pub struct Segmenter {
    limit: PySegment,
    /// Bytes seen since the last boundary (size mode).
    bytes_since: u64,
    /// Clock reading at the last boundary, in milliseconds (time mode).
    boundary_at_ms: u64,
}

impl Segmenter {
    /// Which threshold this segmenter was configured with.
    pub closed spec fn limit(self) -> PySegment {
        self.limit
    }

    /// Bytes accumulated since the last boundary.
    pub closed spec fn bytes_since(self) -> u64 {
        self.bytes_since
    }

    /// Clock reading at the last boundary, in milliseconds.
    pub closed spec fn boundary_at_ms(self) -> u64 {
        self.boundary_at_ms
    }

    /// The configured threshold is positive, and a time threshold in
    /// milliseconds fits the clock's type.
    pub open spec fn threshold_wf(limit: PySegment) -> bool {
        match limit {
            PySegment::Time { time } => 1 <= time && time * 1000 <= u64::MAX,
            PySegment::Size { size } => 1 <= size,
        }
    }

    /// Well-formedness: established by `new`, preserved by `observe`.
    /// The tally of bytes since the last boundary stays strictly below
    /// a size threshold — a segment never outlives the write that
    /// reaches it — and is unused under a time threshold.
    pub open spec fn wf(self) -> bool {
        &&& Self::threshold_wf(self.limit())
        &&& (match self.limit() {
            PySegment::Size { size } => self.bytes_since() < size,
            PySegment::Time { time } => self.bytes_since() == 0,
        })
    }

    /// Start segmenting at clock reading `now_ms`.
    pub fn new(limit: PySegment, now_ms: u64) -> (s: Segmenter)
        requires
            Self::threshold_wf(limit),
        ensures
            s.wf(),
            s.limit() == limit,
            s.bytes_since() == 0,
            s.boundary_at_ms() == now_ms,
    {
        Segmenter { limit, bytes_since: 0, boundary_at_ms: now_ms }
    }

    /// Whether a write of `len` bytes observed at clock reading `now_ms`
    /// closes the current segment.
    ///
    /// Size mode: true exactly when the bytes accumulated since the last
    /// boundary, this write included, reach or exceed the threshold — and
    /// never before. Time mode: true exactly when the threshold or more
    /// has elapsed since the last boundary.
    pub open spec fn closes_segment(self, now_ms: u64, len: u64) -> bool {
        match self.limit() {
            PySegment::Time { time } => self.boundary_at_ms() + time * 1000 <= now_ms,
            PySegment::Size { size } => size <= self.bytes_since() + len,
        }
    }

    /// Observe one received data unit of `len` bytes at clock reading
    /// `now_ms`. Returns true when the write closes the current segment:
    /// the triggering write itself still belongs to the segment it
    /// closes, and the next write opens the new one.
    pub fn observe(&mut self, now_ms: u64, len: u64) -> (boundary: bool)
        requires
            old(self).wf(),
            old(self).boundary_at_ms() <= now_ms,
        ensures
            final(self).wf(),
            boundary == old(self).closes_segment(now_ms, len),
            final(self).limit() == old(self).limit(),
            final(self).boundary_at_ms() == (if boundary {
                now_ms
            } else {
                old(self).boundary_at_ms()
            }),
            (match old(self).limit() {
                PySegment::Size { size } => final(self).bytes_since() == (if boundary {
                    0int
                } else {
                    old(self).bytes_since() + len
                }),
                PySegment::Time { time } => final(self).bytes_since() == old(self).bytes_since(),
            }),
    {
        match self.limit {
            PySegment::Time { time } => {
                let elapsed = now_ms - self.boundary_at_ms;
                if elapsed >= time * 1000 {
                    self.boundary_at_ms = now_ms;
                    true
                } else {
                    false
                }
            }
            PySegment::Size { size } => {
                let total = saturating_add_u64(self.bytes_since, len);
                if total >= size {
                    self.bytes_since = 0;
                    self.boundary_at_ms = now_ms;
                    true
                } else {
                    self.bytes_since = total;
                    false
                }
            }
        }
    }
}

/// `a + b`, capped at `u64::MAX`. The cap keeps every threshold
/// comparison exact: a capped sum can only arise when the true sum
/// already exceeds any representable threshold.
fn saturating_add_u64(a: u64, b: u64) -> (r: u64)
    ensures
        a + b <= u64::MAX ==> r == a + b,
        a + b > u64::MAX ==> r == u64::MAX,
{
    if a <= u64::MAX - b {
        a + b
    } else {
        u64::MAX
    }
}

} // verus!
