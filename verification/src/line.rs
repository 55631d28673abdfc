//! CDN upload-line selection. A fixed set of named endpoints is probed
//! concurrently by the transport; this module holds the verified
//! selection rule: lowest observed latency wins, ties go to the earliest
//! candidate, and with no response at all a fixed default applies.
//! Probing is best-effort and purely advisory — a poor choice degrades
//! performance, not correctness — so probe failures never abort an
//! operation.

use vstd::prelude::*;

verus! {

/// The named CDN upload endpoints compiled into the client.
#[derive(Clone, Copy, Debug, PartialEq, Eq, PartialOrd, Ord, Structural)]
pub enum UploadLine {
    Bda2,
    Ws,
    Qn,
    Bldsa,
    Tx,
    Txa,
    Bda,
}

/// The line used when probing yields no usable answer.
pub const DEFAULT_LINE: UploadLine = UploadLine::Bda2;

/// The observed outcome of probing one candidate endpoint.
#[derive(Clone, Copy, Debug)]
pub struct ProbeSample {
    pub line: UploadLine,
    /// Round-trip latency in milliseconds; `None` when the probe timed
    /// out or failed, which counts as a non-response, not an error.
    pub latency_ms: Option<u64>,
}

/// Whether latency `a` beats latency `b`: a response beats a
/// non-response, and a strictly lower round trip beats a higher one.
pub open spec fn faster(a: Option<u64>, b: Option<u64>) -> bool {
    match (a, b) {
        (Some(x), Some(y)) => x < y,
        (Some(x), None) => true,
        (None, _) => false,
    }
}

/// The sample probing selects: the first responding sample that no later
/// sample strictly beats. `None` when nothing responded.
pub open spec fn spec_best(samples: Seq<ProbeSample>) -> Option<ProbeSample>
    decreases samples.len(),
{
    if samples.len() == 0 {
        None
    } else {
        let rest = spec_best(samples.drop_last());
        let last = samples.last();
        match rest {
            None => if last.latency_ms is Some {
                Some(last)
            } else {
                None
            },
            Some(b) => if faster(last.latency_ms, b.latency_ms) {
                Some(last)
            } else {
                Some(b)
            },
        }
    }
}

/// Whether sample `x` responded at least as fast as latency `b`.
pub open spec fn responds_within(x: ProbeSample, b: Option<u64>) -> bool {
    x.latency_ms is Some && !faster(b, x.latency_ms)
}

/// Law: the selected sample responded, stands at an index every earlier
/// responding candidate is strictly slower than — ties go to the
/// earliest candidate — and no responding candidate anywhere strictly
/// beats it. When nothing is selected, no candidate responded at all.
pub proof fn lemma_spec_best_minimal(samples: Seq<ProbeSample>)
    ensures
        (match spec_best(samples) {
            Some(b) => {
                &&& b.latency_ms is Some
                &&& exists|i: int|
                    0 <= i < samples.len() && samples[i] == b && (forall|j: int|
                        0 <= j < i ==> !responds_within(#[trigger] samples[j], b.latency_ms))
                &&& forall|i: int|
                    0 <= i < samples.len() ==> !faster(samples[i].latency_ms, b.latency_ms)
            },
            None => forall|i: int| 0 <= i < samples.len() ==> samples[i].latency_ms is None,
        }),
    decreases samples.len(),
{
    if samples.len() > 0 {
        let rest = samples.drop_last();
        lemma_spec_best_minimal(rest);
        assert forall|i: int| 0 <= i < rest.len() implies samples[i] == rest[i] by {}
        match spec_best(samples) {
            Some(b) => {
                if spec_best(rest) matches Some(p) && b == p {
                    let j = choose|j: int|
                        0 <= j < rest.len() && rest[j] == b && (forall|k: int|
                            0 <= k < j ==> !responds_within(#[trigger] rest[k], b.latency_ms));
                    assert(samples[j] == b && (forall|k: int|
                        0 <= k < j ==> !responds_within(#[trigger] samples[k], b.latency_ms)));
                } else {
                    let last = samples.len() - 1;
                    assert(samples[last] == b);
                    assert forall|k: int| 0 <= k < last implies !responds_within(
                        #[trigger] samples[k],
                        b.latency_ms,
                    ) by {}
                }
            },
            None => {},
        }
    }
}

/// The line probing settles on: the selected sample's line, or the
/// fixed default when nothing responded.
pub open spec fn spec_selected(samples: Seq<ProbeSample>) -> UploadLine {
    match spec_best(samples) {
        Some(b) => b.line,
        None => DEFAULT_LINE,
    }
}

/// The line the operation uses: an explicit caller choice wins,
/// otherwise the probe outcomes decide.
pub open spec fn spec_chosen(explicit: Option<UploadLine>, samples: Seq<ProbeSample>) -> UploadLine {
    match explicit {
        Some(l) => l,
        None => spec_selected(samples),
    }
}

/// Select the upload line from the probe outcomes: the lowest observed
/// latency among the endpoints that responded, ties to the earliest
/// candidate, and the fixed default when none responded.
pub fn select_line(samples: &Vec<ProbeSample>) -> (r: UploadLine)
    ensures
        r == spec_selected(samples@),
{
    let mut best: Option<ProbeSample> = None;
    let mut i: usize = 0;
    while i < samples.len()
        invariant
            i <= samples.len(),
            (match spec_best(samples@.take(i as int)) {
                Some(b) => best == Some(b),
                None => best is None,
            }),
        decreases samples.len() - i,
    {
        let cur = samples[i];
        proof {
            assert(samples@.take(i + 1).drop_last() =~= samples@.take(i as int));
            assert(samples@.take(i + 1).last() == samples@[i as int]);
        }
        match best {
            None => {
                if cur.latency_ms.is_some() {
                    best = Some(cur);
                }
            },
            Some(b) => {
                let replace = match (cur.latency_ms, b.latency_ms) {
                    (Some(x), Some(y)) => x < y,
                    (Some(_), None) => true,
                    (None, _) => false,
                };
                if replace {
                    best = Some(cur);
                }
            },
        }
        i = i + 1;
    }
    proof {
        assert(samples@.take(samples@.len() as int) =~= samples@);
    }
    match best {
        Some(b) => b.line,
        None => DEFAULT_LINE,
    }
}

/// The line the operation uses: an explicit caller choice skips probing
/// entirely; otherwise the probe outcomes decide.
pub fn choose_line(explicit: Option<UploadLine>, samples: &Vec<ProbeSample>) -> (r: UploadLine)
    ensures
        r == spec_chosen(explicit, samples@),
{
    match explicit {
        Some(l) => l,
        None => select_line(samples),
    }
}

} // verus!
