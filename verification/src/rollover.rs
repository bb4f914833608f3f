//! Timestamps that survive the wrap-around of a narrow cycle counter.
//!
//! A stream's events carry the low bits of a free-running cycle counter, in a
//! field of 8, 16, 32 or 64 bits. A tracker remembers the last raw value and
//! how often the counter has wrapped, and gives each raw value its place on
//! one growing time line.

use vstd::prelude::*;
use vstd::arithmetic::power2::{lemma2_to64, lemma2_to64_rest, pow2};
use crate::types::Timestamp;

verus! {

/// The width of a timestamp field that a tracker can follow.
pub open spec fn supported_width(size_bits: nat) -> bool {
    size_bits == 8 || size_bits == 16 || size_bits == 32 || size_bits == 64
}

/// The number of values of a counter of a supported width: 2 to the power of
/// the width (see [`lemma_modulus_is_power_of_two`]).
pub open spec fn modulus(size_bits: nat) -> nat {
    if size_bits == 8 {
        0x100
    } else if size_bits == 16 {
        0x1_0000
    } else if size_bits == 32 {
        0x1_0000_0000
    } else {
        0x1_0000_0000_0000_0000
    }
}

/// For each supported width W, `modulus(W)` is 2^W.
pub proof fn lemma_modulus_is_power_of_two(size_bits: nat)
    requires
        supported_width(size_bits),
    ensures
        modulus(size_bits) == pow2(size_bits),
{
    lemma2_to64();
    lemma2_to64_rest();
}

/// What a tracker holds: the width of the counter, the last raw value reduced
/// to that width, and the number of wrap-arounds seen so far.
pub ghost struct RolloverView {
    pub size_bits: nat,
    pub lower: u64,
    pub upper: u64,
}

impl RolloverView {
    /// The width is supported and the last raw value fits in it.
    pub open spec fn wf(self) -> bool {
        &&& supported_width(self.size_bits)
        &&& self.lower < modulus(self.size_bits)
    }

    /// A tracker that has seen nothing yet.
    pub open spec fn start(size_bits: nat) -> RolloverView {
        RolloverView { size_bits, lower: 0, upper: 0 }
    }

    /// Whether the raw value `cycles` shows that the counter has wrapped: it
    /// is below the last one. A 64-bit counter is taken never to wrap.
    pub open spec fn wrapped(self, cycles: Timestamp) -> bool {
        self.size_bits != 64 && cycles < self.lower
    }

    /// The tracker after the raw value `cycles`: the raw value, reduced to
    /// the counter's width, is the last one, and a wrap is counted. The wrap
    /// count is held in 64 bits, so it wraps itself after 2^64 wraps; no
    /// place that fits 64 bits needs that many.
    pub open spec fn advance(self, cycles: Timestamp) -> RolloverView {
        RolloverView {
            size_bits: self.size_bits,
            lower: (cycles as nat % modulus(self.size_bits)) as u64,
            upper: if self.wrapped(cycles) {
                if self.upper == u64::MAX {
                    0
                } else {
                    (self.upper + 1) as u64
                }
            } else {
                self.upper
            },
        }
    }

    /// The place of the last raw value on the growing time line, as far as
    /// the tracker knows it: the wrap count times the modulus, plus the raw
    /// value.
    pub open spec fn place(self) -> nat {
        self.upper as nat * modulus(self.size_bits) + self.lower as nat
    }

    /// The place of the last raw value as a timestamp: the place itself
    /// where it fits 64 bits, its low 64 bits where it does not. For a
    /// 64-bit counter it is the raw value.
    pub open spec fn timestamp(self) -> Timestamp {
        if self.size_bits == 64 {
            self.lower
        } else {
            (self.place() % 0x1_0000_0000_0000_0000) as u64
        }
    }
}

/// The tracker after a run of raw values.
pub open spec fn feed(t: RolloverView, samples: Seq<Timestamp>) -> RolloverView
    decreases samples.len(),
{
    if samples.len() == 0 {
        t
    } else {
        feed(t, samples.drop_last()).advance(samples.last())
    }
}

/// How often a run of raw values wraps: the number of values that are below
/// their predecessor, `prev` being the predecessor of the first.
pub open spec fn wrap_count(prev: Timestamp, samples: Seq<Timestamp>) -> nat
    decreases samples.len(),
{
    if samples.len() == 0 {
        0
    } else {
        let before = samples.drop_last();
        let last_prev = if before.len() == 0 {
            prev
        } else {
            before.last()
        };
        wrap_count(prev, before) + if samples.last() < last_prev {
            1nat
        } else {
            0nat
        }
    }
}

/// Where a run of raw values ends on the growing time line, for a counter
/// that stood at the tracker `t` before the run: the last raw value plus the
/// modulus for each wrap, those before the run and those within it.
pub open spec fn place_after(t: RolloverView, samples: Seq<Timestamp>) -> nat {
    (t.upper as nat + wrap_count(t.lower, samples)) * modulus(t.size_bits) + (if samples.len()
        == 0 {
        t.lower as nat
    } else {
        samples.last() as nat
    })
}

/// The error of [`RolloverTracker::new`]: the width is none of 8, 16, 32, 64.
#[derive(Clone, Copy, Debug, PartialEq, Eq, Structural)]
pub struct UnsupportedTimestampFieldType {}

/// Follows the raw timestamps of one stream.
#[derive(Debug)]
pub struct RolloverTracker {
    size_bits: u32,
    lower: u64,
    upper: u64,
}

impl View for RolloverTracker {
    type V = RolloverView;

    closed spec fn view(&self) -> RolloverView {
        RolloverView { size_bits: self.size_bits as nat, lower: self.lower, upper: self.upper }
    }
}

impl RolloverTracker {
    #[verifier::type_invariant]
    spec fn inv(self) -> bool {
        self@.wf()
    }

    /// A tracker for a timestamp field of `size_bits` bits that has seen
    /// nothing yet, or the error where that width is not supported.
    pub fn new(size_bits: usize) -> (r: Result<RolloverTracker, UnsupportedTimestampFieldType>)
        ensures
            supported_width(size_bits as nat) <==> r is Ok,
            r matches Ok(t) ==> t@ == RolloverView::start(size_bits as nat),
    {
        if size_bits == 8 || size_bits == 16 || size_bits == 32 || size_bits == 64 {
            Ok(RolloverTracker { size_bits: size_bits as u32, lower: 0, upper: 0 })
        } else {
            Err(UnsupportedTimestampFieldType {  })
        }
    }

    /// Takes the next raw value and returns its place on the growing time
    /// line. A raw value below the last one counts as a wrap. The place is
    /// exact as long as it fits 64 bits (see [`lemma_places`]); beyond that
    /// its low 64 bits are returned.
    pub fn elapsed(&mut self, cycles: Timestamp) -> (t: Timestamp)
        ensures
            final(self)@ == old(self)@.advance(cycles),
            t == final(self)@.timestamp(),
    {
        proof {
            use_type_invariant(&*self);
        }
        if self.size_bits == 64 {
            self.lower = cycles;
        } else {
            let m: u64 = if self.size_bits == 8 {
                0x100
            } else if self.size_bits == 16 {
                0x1_0000
            } else {
                0x1_0000_0000
            };
            if cycles < self.lower {
                self.upper = if self.upper == u64::MAX {
                    0
                } else {
                    self.upper + 1
                };
            }
            self.lower = cycles % m;
        }
        self.as_timestamp()
    }

    /// The place of the last raw value on the growing time line.
    pub fn as_timestamp(&self) -> (t: Timestamp)
        ensures
            t == self@.timestamp(),
    {
        proof {
            use_type_invariant(self);
        }
        if self.size_bits == 64 {
            self.lower
        } else {
            let wide: u128 = if self.size_bits == 8 {
                (self.upper as u128) * 0x100 + (self.lower as u128)
            } else if self.size_bits == 16 {
                (self.upper as u128) * 0x1_0000 + (self.lower as u128)
            } else {
                (self.upper as u128) * 0x1_0000_0000 + (self.lower as u128)
            };
            let low: u128 = wide % 0x1_0000_0000_0000_0000u128;
            low as u64
        }
    }
}

/// A well-formed tracker stays well-formed.
pub proof fn lemma_advance_wf(t: RolloverView, cycles: Timestamp)
    requires
        t.wf(),
    ensures
        t.advance(cycles).wf(),
        t.advance(cycles).size_bits == t.size_bits,
{
}

/// The tracker after two runs, one after the other, is the tracker after the
/// one run that they make together.
pub proof fn lemma_feed_add(t: RolloverView, first: Seq<Timestamp>, second: Seq<Timestamp>)
    ensures
        feed(feed(t, first), second) == feed(t, first + second),
    decreases second.len(),
{
    if second.len() == 0 {
        assert(first + second =~= first);
    } else {
        assert((first + second).drop_last() =~= first + second.drop_last());
        lemma_feed_add(t, first, second.drop_last());
    }
}

/// Where a run ends on the time line is not before where any of its prefixes
/// ends: the time line only grows.
pub proof fn lemma_place_after_grows(t: RolloverView, samples: Seq<Timestamp>, i: int, j: int)
    requires
        t.wf(),
        forall|k: int| 0 <= k < samples.len() ==> samples[k] < modulus(t.size_bits),
        0 <= i <= j <= samples.len(),
    ensures
        place_after(t, samples.take(i)) <= place_after(t, samples.take(j)),
    decreases j - i,
{
    if i < j {
        lemma_place_after_grows(t, samples, i, j - 1);
        let m = modulus(t.size_bits);
        let upto = samples.take(j);
        let before = samples.take(j - 1);
        assert(upto.drop_last() =~= before);
        let k = t.upper as nat + wrap_count(t.lower, before);
        assert((k + 1) * m == k * m + m) by (nonlinear_arith);
        if j - 1 > 0 {
            assert(before.last() == samples[j - 2]);
        }
        assert(upto.last() == samples[j - 1]);
    }
}

/// The places of a tracker, from any well-formed tracker of 8, 16 or 32 bits
/// on. After a run of raw values that each fit the counter's width, the
/// tracker holds the last raw value and has counted each wrap of the run
/// once, and its timestamp is the last raw value plus the modulus for each
/// wrap so far. This holds whenever that place fits 64 bits.
pub proof fn lemma_places(t: RolloverView, samples: Seq<Timestamp>)
    requires
        t.wf(),
        t.size_bits != 64,
        forall|k: int| 0 <= k < samples.len() ==> samples[k] < modulus(t.size_bits),
        place_after(t, samples) <= u64::MAX,
    ensures
        feed(t, samples).wf(),
        feed(t, samples).size_bits == t.size_bits,
        feed(t, samples).upper == t.upper + wrap_count(t.lower, samples),
        samples.len() > 0 ==> feed(t, samples).lower == samples.last(),
        feed(t, samples).place() == place_after(t, samples),
        feed(t, samples).timestamp() == place_after(t, samples),
    decreases samples.len(),
{
    let m = modulus(t.size_bits);
    if samples.len() > 0 {
        let before = samples.drop_last();
        assert(before =~= samples.take(samples.len() - 1));
        assert(samples =~= samples.take(samples.len() as int));
        lemma_place_after_grows(t, samples, samples.len() - 1, samples.len() as int);
        lemma_places(t, before);
        let f = feed(t, before);
        let k = t.upper as nat + wrap_count(t.lower, samples);
        assert(k <= k * m) by (nonlinear_arith)
            requires
                m >= 1,
        ;
        assert(f.lower == if before.len() == 0 {
            t.lower
        } else {
            before.last()
        });
    }
}

/// A 64-bit counter is not corrected: the timestamp is the raw value.
pub proof fn lemma_full_width(t: RolloverView, cycles: Timestamp)
    requires
        t.size_bits == 64,
    ensures
        t.advance(cycles).timestamp() == cycles,
        t.advance(cycles).upper == t.upper,
{
}

/// The timestamps that a tracker of 8, 16 or 32 bits gives to a run of raw
/// values never go back, neither within the run nor against the timestamp
/// before it, whenever the place at the end of the run fits 64 bits.
pub proof fn lemma_timestamps_never_go_back(
    t: RolloverView,
    samples: Seq<Timestamp>,
    i: int,
    j: int,
)
    requires
        t.wf(),
        t.size_bits != 64,
        forall|k: int| 0 <= k < samples.len() ==> samples[k] < modulus(t.size_bits),
        place_after(t, samples) <= u64::MAX,
        0 <= i <= j <= samples.len(),
    ensures
        feed(t, samples.take(i)).timestamp() <= feed(t, samples.take(j)).timestamp(),
{
    assert(samples =~= samples.take(samples.len() as int));
    lemma_place_after_grows(t, samples, i, j);
    lemma_place_after_grows(t, samples, j, samples.len() as int);
    lemma_places(t, samples.take(i));
    lemma_places(t, samples.take(j));
}

/// After a run of raw values that each fit the counter's width W of 8, 16 or
/// 32 bits and that wrap `k` times, a tracker that started fresh stands at
/// the last raw value plus `k` times 2^W, whenever that fits 64 bits.
pub proof fn lemma_elapsed_after_wraps(size_bits: nat, samples: Seq<Timestamp>)
    requires
        size_bits == 8 || size_bits == 16 || size_bits == 32,
        samples.len() > 0,
        forall|i: int| 0 <= i < samples.len() ==> samples[i] < pow2(size_bits),
        samples.last() + wrap_count(0, samples) * pow2(size_bits) <= u64::MAX,
    ensures
        feed(RolloverView::start(size_bits), samples).timestamp() == samples.last() + wrap_count(
            0,
            samples,
        ) * pow2(size_bits),
        feed(RolloverView::start(size_bits), samples).upper == wrap_count(0, samples),
        feed(RolloverView::start(size_bits), samples).lower == samples.last(),
{
    lemma_modulus_is_power_of_two(size_bits);
    lemma_places(RolloverView::start(size_bits), samples);
}

/// The timestamps that a fresh tracker gives to a run of raw values never go
/// back, under the conditions of [`lemma_elapsed_after_wraps`].
pub proof fn lemma_elapsed_non_decreasing(size_bits: nat, samples: Seq<Timestamp>, i: int, j: int)
    requires
        size_bits == 8 || size_bits == 16 || size_bits == 32,
        samples.len() > 0,
        forall|i: int| 0 <= i < samples.len() ==> samples[i] < pow2(size_bits),
        samples.last() + wrap_count(0, samples) * pow2(size_bits) <= u64::MAX,
        0 <= i <= j <= samples.len(),
    ensures
        feed(RolloverView::start(size_bits), samples.take(i)).timestamp() <= feed(
            RolloverView::start(size_bits),
            samples.take(j),
        ).timestamp(),
{
    lemma_modulus_is_power_of_two(size_bits);
    lemma_timestamps_never_go_back(RolloverView::start(size_bits), samples, i, j);
}

} // verus!
