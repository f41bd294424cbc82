//! Windowed aggregation: raw samples are collected into fixed-length windows
//! and each full window is reduced to one smoothed record.

use vstd::prelude::*;
use vstd::relations::{sorted_by, total_ordering};
use vstd::seq_lib::{lemma_sorted_unique, to_multiset_build, to_multiset_insert};
use vstd::arithmetic::div_mod::{lemma_fundamental_div_mod, lemma_fundamental_div_mod_converse};

verus! {

/// Sum of a sequence of readings.
pub open spec fn sum(s: Seq<u16>) -> int
    decreases s.len(),
{
    if s.len() == 0 {
        0
    } else {
        sum(s.drop_last()) + s.last() as int
    }
}

/// Arithmetic mean of a non-empty sequence, rounded down.
pub open spec fn mean_of(s: Seq<u16>) -> int {
    sum(s) / (s.len() as int)
}

proof fn lemma_sum_bounds(s: Seq<u16>)
    ensures
        0 <= sum(s) <= s.len() * 65535,
    decreases s.len(),
{
    if s.len() > 0 {
        lemma_sum_bounds(s.drop_last());
    }
}

/// Arithmetic mean of the readings, rounded down.
pub fn mean(values: &[u16]) -> (r: u16)
    requires
        values@.len() > 0,
    ensures
        r == mean_of(values@),
{
    let mut total: u128 = 0;
    let mut i: usize = 0;
    while i < values.len()
        invariant
            i <= values@.len(),
            total == sum(values@.subrange(0, i as int)),
            total <= i * 65535,
        decreases values@.len() - i,
    {
        proof {
            assert(values@.subrange(0, i + 1).drop_last() =~= values@.subrange(0, i as int));
        }
        total = total + values[i] as u128;
        i = i + 1;
    }
    proof {
        assert(values@.subrange(0, i as int) =~= values@);
        lemma_sum_bounds(values@);
        assert(sum(values@) / (values@.len() as int) <= 65535) by (nonlinear_arith)
            requires
                0 <= sum(values@) <= values@.len() * 65535,
                values@.len() > 0,
        ;
    }
    (total / (values.len() as u128)) as u16
}

/// The order in which readings are ranked for the median.
pub open spec fn ascending() -> spec_fn(u16, u16) -> bool {
    |a: u16, b: u16| a <= b
}

/// The reading at the middle position of the sorted sequence.
pub open spec fn median_of(s: Seq<u16>) -> u16 {
    s.sort_by(ascending())[s.len() as int / 2]
}

proof fn lemma_ascending_is_total()
    ensures
        total_ordering(ascending()),
{
}

/// The median is the middle reading of any ascending rearrangement of the
/// readings.
pub proof fn lemma_median_of_sorted(s: Seq<u16>, t: Seq<u16>)
    requires
        sorted_by(t, ascending()),
        t.to_multiset() == s.to_multiset(),
    ensures
        median_of(s) == t[s.len() as int / 2],
{
    lemma_ascending_is_total();
    s.lemma_sort_by_ensures(ascending());
    lemma_sorted_unique(t, s.sort_by(ascending()), ascending());
}

/// The readings in ascending order.
fn sorted_copy(values: &[u16]) -> (r: Vec<u16>)
    ensures
        sorted_by(r@, ascending()),
        r@.to_multiset() == values@.to_multiset(),
        r@.len() == values@.len(),
{
    let mut out: Vec<u16> = Vec::new();
    let mut i: usize = 0;
    proof {
        broadcast use vstd::seq_lib::group_to_multiset_ensures;

        assert(values@.subrange(0, 0) =~= out@);
    }
    while i < values.len()
        invariant
            i <= values@.len(),
            out@.len() == i,
            sorted_by(out@, ascending()),
            out@.to_multiset() == values@.subrange(0, i as int).to_multiset(),
        decreases values@.len() - i,
    {
        let x = values[i];
        let mut j: usize = 0;
        while j < out.len() && out[j] <= x
            invariant
                j <= out@.len(),
                forall|k: int| 0 <= k < j ==> out@[k] <= x,
            decreases out@.len() - j,
        {
            j = j + 1;
        }
        let ghost before = out@;
        out.insert(j, x);
        proof {
            assert(forall|k: int| j <= k < before.len() ==> x < before[k]) by {
                if j < before.len() {
                    assert(x < before[j as int]);
                    assert(forall|k: int| j <= k < before.len() ==> ascending()(before[j as int], before[k]));
                }
            }
            assert(sorted_by(out@, ascending())) by {
                assert forall|a: int, b: int| 0 <= a < b < out@.len() implies #[trigger] ascending()(out@[a], out@[b]) by {
                    if b < j {
                        assert(ascending()(before[a], before[b]));
                    } else if b == j {
                    } else if a < j {
                    } else if a == j {
                    } else {
                        assert(ascending()(before[a - 1], before[b - 1]));
                    }
                }
            }
            to_multiset_insert(before, j as int, x);
            assert(values@.subrange(0, i + 1) =~= values@.subrange(0, i as int).push(x));
            to_multiset_build(values@.subrange(0, i as int), x);
        }
        i = i + 1;
    }
    proof {
        assert(values@.subrange(0, i as int) =~= values@);
    }
    out
}

/// The reading at the middle position of the sorted readings.
pub fn median(values: &[u16]) -> (r: u16)
    requires
        values@.len() > 0,
    ensures
        r == median_of(values@),
{
    let sorted = sorted_copy(values);
    proof {
        lemma_median_of_sorted(values@, sorted@);
    }
    sorted[values.len() / 2]
}

/// Default number of samples in one window.
pub const WINDOW_LEN: usize = 5;

/// One collection of the published readings: temperature in sixteenths of a
/// degree Celsius, brightness in hundredths of a percent, CO2 in ppm and TVOC
/// in ppb.
#[derive(Clone, Copy, Debug, PartialEq, Eq, Structural)]
pub struct Sample {
    pub temperature: u16,
    pub brightness: u16,
    pub co2: u16,
    pub tvoc: u16,
}

/// The smoothed values of one full window: the means of the continuous
/// quantities and the medians of the count-like ones, in the units of
/// [`Sample`].
#[derive(Clone, Copy, Debug, PartialEq, Eq, Structural)]
pub struct Summary {
    pub temperature: u16,
    pub brightness: u16,
    pub co2: u16,
    pub tvoc: u16,
}

/// A measured quantity, naming one field of a [`Sample`].
#[derive(Clone, Copy, Debug, PartialEq, Eq, Structural)]
pub enum Quantity {
    Temperature,
    Brightness,
    Co2,
    Tvoc,
}

pub open spec fn reading(s: Sample, q: Quantity) -> u16 {
    match q {
        Quantity::Temperature => s.temperature,
        Quantity::Brightness => s.brightness,
        Quantity::Co2 => s.co2,
        Quantity::Tvoc => s.tvoc,
    }
}

/// The readings of one quantity across a run of samples.
pub open spec fn series(w: Seq<Sample>, q: Quantity) -> Seq<u16> {
    w.map_values(|s: Sample| reading(s, q))
}

/// Reduction of one full window.
pub open spec fn summarize(w: Seq<Sample>) -> Summary {
    Summary {
        temperature: mean_of(series(w, Quantity::Temperature)) as u16,
        brightness: mean_of(series(w, Quantity::Brightness)) as u16,
        co2: median_of(series(w, Quantity::Co2)),
        tvoc: median_of(series(w, Quantity::Tvoc)),
    }
}

/// One sample arrives at a window of length `w` that holds `pending`: the
/// samples held afterwards, and the full window if this sample filled it.
pub open spec fn window_step(pending: Seq<Sample>, w: nat, s: Sample) -> (Seq<Sample>, Option<
    Seq<Sample>,
>) {
    let filled = pending.push(s);
    if filled.len() >= w {
        (Seq::empty(), Some(filled))
    } else {
        (filled, None)
    }
}

/// Samples fed one by one, in order, to an empty window of length `w`: the
/// samples still held, and the full windows in the order they were emitted.
pub open spec fn feed(w: nat, samples: Seq<Sample>) -> (Seq<Sample>, Seq<Seq<Sample>>)
    decreases samples.len(),
{
    if samples.len() == 0 {
        (Seq::empty(), Seq::empty())
    } else {
        let before = feed(w, samples.drop_last());
        let step = window_step(before.0, w, samples.last());
        match step.1 {
            Some(full) => (step.0, before.1.push(full)),
            None => (step.0, before.1),
        }
    }
}

/// N samples fed to an empty window of length W give exactly N / W (rounded
/// down) full windows; the i-th is made of samples i * W up to (i + 1) * W in
/// arrival order, and the samples since the last full window are all that the
/// window still holds.
pub proof fn lemma_feed_windows(w: nat, samples: Seq<Sample>)
    requires
        w > 0,
    ensures
        feed(w, samples).1.len() == samples.len() / w,
        forall|i: int|
            0 <= i < samples.len() / w ==> #[trigger] feed(w, samples).1[i] == samples.subrange(
                i * w,
                i * w + w,
            ),
        feed(w, samples).0 == samples.subrange(((samples.len() / w) * w) as int, samples.len() as int),
    decreases samples.len(),
{
    let n = samples.len() as int;
    let wi = w as int;
    if n == 0 {
        assert(samples.subrange(0, 0) =~= Seq::<Sample>::empty());
    } else {
        let prev = samples.drop_last();
        let m = n - 1;
        lemma_feed_windows(w, prev);
        let q = m / wi;
        let r = m % wi;
        lemma_fundamental_div_mod(m, wi);
        assert(m == q * wi + r);
        assert(0 <= r < wi);
        assert(q >= 0) by (nonlinear_arith)
            requires
                m >= 0,
                wi > 0,
                q == m / wi,
        ;
        assert(0 <= q * wi) by (nonlinear_arith)
            requires
                q >= 0,
                wi > 0,
        ;
        let before = feed(w, prev);
        assert(before.0 == prev.subrange(q * wi, m));
        assert(before.0.push(samples.last()) =~= samples.subrange(q * wi, n));
        assert forall|i: int| 0 <= i < q implies #[trigger] before.1[i] == samples.subrange(
            i * wi,
            i * wi + wi,
        ) by {
            assert(i * wi + wi <= q * wi) by (nonlinear_arith)
                requires
                    i < q,
                    wi > 0,
            ;
            assert(before.1[i] == prev.subrange(i * wi, i * wi + wi));
            assert(prev.subrange(i * wi, i * wi + wi) =~= samples.subrange(i * wi, i * wi + wi));
        }
        if r + 1 == wi {
            assert((q + 1) * wi == q * wi + wi) by (nonlinear_arith);
            lemma_fundamental_div_mod_converse(n, wi, q + 1, 0);
            assert(samples.subrange(n, n) =~= Seq::<Sample>::empty());
        } else {
            lemma_fundamental_div_mod_converse(n, wi, q, r + 1);
        }
    }
}

/// A window of samples that is reduced each time it fills.
pub struct Aggregator {
    len: usize,
    pending: Vec<Sample>,
}

impl Aggregator {
    /// The number of samples in a full window.
    pub closed spec fn window_len(&self) -> nat {
        self.len as nat
    }

    /// The samples collected since the last full window, oldest first.
    pub closed spec fn pending(&self) -> Seq<Sample> {
        self.pending@
    }

    pub open spec fn wf(&self) -> bool {
        &&& self.window_len() > 0
        &&& self.pending().len() < self.window_len()
    }

    /// An empty window of `len` samples.
    pub fn new(len: usize) -> (r: Aggregator)
        requires
            len > 0,
        ensures
            r.wf(),
            r.window_len() == len,
            r.pending() == Seq::<Sample>::empty(),
    {
        Aggregator { len, pending: Vec::new() }
    }

    /// Adds one sample; when it fills the window, returns the window's
    /// summary and empties the window.
    pub fn push(&mut self, s: Sample) -> (r: Option<Summary>)
        requires
            old(self).wf(),
        ensures
            final(self).wf(),
            final(self).window_len() == old(self).window_len(),
            final(self).pending() == window_step(old(self).pending(), old(self).window_len(), s).0,
            r == match window_step(old(self).pending(), old(self).window_len(), s).1 {
                Some(full) => Some(summarize(full)),
                None => None,
            },
    {
        self.pending.push(s);
        if self.pending.len() >= self.len {
            let r = summary(self.pending.as_slice());
            self.pending = Vec::new();
            Some(r)
        } else {
            None
        }
    }
}

/// The readings of quantity `q` in `samples`.
fn column(samples: &[Sample], q: Quantity) -> (r: Vec<u16>)
    ensures
        r@ == series(samples@, q),
{
    let mut out: Vec<u16> = Vec::new();
    let mut i: usize = 0;
    while i < samples.len()
        invariant
            i <= samples@.len(),
            out@ =~= series(samples@.subrange(0, i as int), q),
        decreases samples@.len() - i,
    {
        let s = samples[i];
        let v = match q {
            Quantity::Temperature => s.temperature,
            Quantity::Brightness => s.brightness,
            Quantity::Co2 => s.co2,
            Quantity::Tvoc => s.tvoc,
        };
        out.push(v);
        i = i + 1;
        assert(series(samples@.subrange(0, i as int), q) =~= series(
            samples@.subrange(0, i - 1),
            q,
        ).push(v));
    }
    assert(samples@.subrange(0, i as int) =~= samples@);
    out
}

/// Reduction of one full window of samples.
pub fn summary(samples: &[Sample]) -> (r: Summary)
    requires
        samples@.len() > 0,
    ensures
        r == summarize(samples@),
{
    let t = column(samples, Quantity::Temperature);
    let b = column(samples, Quantity::Brightness);
    let c = column(samples, Quantity::Co2);
    let v = column(samples, Quantity::Tvoc);
    Summary {
        temperature: mean(t.as_slice()),
        brightness: mean(b.as_slice()),
        co2: median(c.as_slice()),
        tvoc: median(v.as_slice()),
    }
}

} // verus!
