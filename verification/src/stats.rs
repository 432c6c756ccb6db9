//! Frame-time statistics of the benchmark mode.

use vstd::prelude::*;

verus! {

/// Every element is at most the next one.
pub open spec fn ascending(s: Seq<u64>) -> bool {
    forall|i: int, j: int| 0 <= i <= j < s.len() ==> s[i] <= s[j]
}

/// The sum of the elements.
pub open spec fn seq_sum(s: Seq<u64>) -> int
    decreases s.len(),
{
    if s.len() == 0 {
        0
    } else {
        seq_sum(s.drop_last()) + s.last()
    }
}

/// Calls `slice::sort_unstable`, which sorts in ascending order: the same
/// elements, each as often as before, in ascending order.
#[verifier::external_body]
fn sort_ascending(v: &mut Vec<u64>)
    ensures
        final(v)@.to_multiset() == old(v)@.to_multiset(),
        ascending(final(v)@),
{
    v.sort_unstable();
}

/// The integer part of a benchmark report: the median and the 99th
/// percentile frame, the total time and the number of frames, all in
/// microseconds of whole frames.
#[derive(Debug, Clone, Copy, PartialEq, Eq, Structural)]
pub struct FrameSummary {
    pub frames: usize,
    pub p50_us: u64,
    pub p99_us: u64,
    pub total_us: u64,
}

/// The index of the 99th-percentile frame among `n` sorted frames.
pub open spec fn p99_index(n: int) -> int {
    if n * 99 / 100 < n - 1 { n * 99 / 100 } else { n - 1 }
}

/// Frame times of the benchmark mode, in microseconds.
#[derive(Debug, Clone, PartialEq, Eq)]
pub struct FrameStats {
    pub times_us: Vec<u64>,
}

impl FrameStats {
    /// No frame measured yet.
    pub fn new() -> (s: Self)
        ensures
            s.times_us@ == Seq::<u64>::empty(),
    {
        FrameStats { times_us: Vec::new() }
    }

    /// Records the time of one frame.
    pub fn record(&mut self, micros: u64)
        ensures
            final(self).times_us@ == old(self).times_us@.push(micros),
    {
        self.times_us.push(micros);
    }

    /// Sorts the recorded times and sums them up: `None` when no frame was
    /// measured; otherwise the frame count, the median (the middle element
    /// of the sorted times), the 99th percentile (the element at
    /// `n * 99 / 100`, or the last) and the total.
    pub fn summary(&mut self) -> (r: Option<FrameSummary>)
        requires
            seq_sum(old(self).times_us@) <= u64::MAX,
            old(self).times_us@.len() * 99 <= usize::MAX,
        ensures
            final(self).times_us@.to_multiset() == old(self).times_us@.to_multiset(),
            ascending(final(self).times_us@),
            old(self).times_us@.len() == 0 <==> r is None,
            r matches Some(s) ==> {
                let t = final(self).times_us@;
                let n = t.len() as int;
                &&& s.frames == n
                &&& s.p50_us == t[n / 2]
                &&& s.p99_us == t[p99_index(n)]
                &&& s.total_us == seq_sum(old(self).times_us@)
            },
    {
        let n = self.times_us.len();
        proof {
            broadcast use vstd::seq_lib::group_to_multiset_ensures;
        }
        if n == 0 {
            return None;
        }
        let mut total: u64 = 0;
        let mut i: usize = 0;
        while i < n
            invariant
                n == self.times_us@.len(),
                i <= n,
                total == seq_sum(self.times_us@.take(i as int)),
                seq_sum(self.times_us@) <= u64::MAX,
            decreases n - i,
        {
            proof {
                lemma_prefix_sum_bounded(self.times_us@, (i + 1) as int);
                assert(self.times_us@.take(i + 1).drop_last() == self.times_us@.take(i as int));
            }
            total = total + self.times_us[i];
            i = i + 1;
        }
        proof {
            assert(self.times_us@.take(n as int) == self.times_us@);
        }
        let ghost before = self.times_us@;
        sort_ascending(&mut self.times_us);
        proof {
            broadcast use vstd::seq_lib::group_to_multiset_ensures;
            assert(before.to_multiset().len() == before.len());
            assert(self.times_us@.to_multiset().len() == self.times_us@.len());
        }
        let half = n / 2;
        let high = n * 99 / 100;
        let p99_at = if high < n - 1 { high } else { n - 1 };
        Some(FrameSummary {
            frames: n,
            p50_us: self.times_us[half],
            p99_us: self.times_us[p99_at],
            total_us: total,
        })
    }
}

/// A prefix of a sequence of non-negative numbers sums to at most the whole.
pub proof fn lemma_prefix_sum_bounded(s: Seq<u64>, k: int)
    requires
        0 <= k <= s.len(),
    ensures
        seq_sum(s.take(k)) <= seq_sum(s),
        seq_sum(s.take(k)) >= 0,
    decreases s.len(),
{
    if s.len() == 0 {
        assert(s.take(k) == s);
    } else if k == s.len() {
        assert(s.take(k) == s);
        lemma_sum_nonneg(s);
    } else {
        assert(s.drop_last().take(k) == s.take(k));
        lemma_prefix_sum_bounded(s.drop_last(), k);
    }
}

/// A sum of `u64`s is not negative.
pub proof fn lemma_sum_nonneg(s: Seq<u64>)
    ensures
        seq_sum(s) >= 0,
    decreases s.len(),
{
    if s.len() > 0 {
        lemma_sum_nonneg(s.drop_last());
    }
}

/// How the frames reach the screen.
#[derive(Debug, Clone, Copy, PartialEq, Eq, Structural)]
pub enum PresentMode {
    AutoVsync,
    AutoNoVsync,
    Fifo,
    FifoRelaxed,
    Immediate,
    Mailbox,
}

/// Present modes that wait for the display: their frame times measure the
/// display's refresh, not the cost of drawing.
pub open spec fn vsync_capped_spec(mode: PresentMode) -> bool {
    mode == PresentMode::AutoVsync || mode == PresentMode::Fifo || mode == PresentMode::FifoRelaxed
}

/// Whether frame times under this present mode are capped by the display.
pub fn is_vsync_capped(mode: PresentMode) -> (r: bool)
    ensures
        r == vsync_capped_spec(mode),
{
    match mode {
        PresentMode::AutoVsync | PresentMode::Fifo | PresentMode::FifoRelaxed => true,
        _ => false,
    }
}

/// The frame-time ceiling: a median of at most 8 ms and a 99th percentile
/// of at most 16 ms.
pub fn meets_ceiling(summary: &FrameSummary) -> (r: bool)
    ensures
        r == (summary.p50_us <= 8000 && summary.p99_us <= 16000),
{
    summary.p50_us <= 8000 && summary.p99_us <= 16000
}

/// In a summary the median never exceeds the 99th percentile, and both are
/// frames that were measured (between the fastest and the slowest).
pub proof fn law_median_never_exceeds_p99(t: Seq<u64>)
    requires
        t.len() > 0,
        ascending(t),
    ensures
        0 <= t.len() as int / 2 <= p99_index(t.len() as int) < t.len(),
        t[t.len() as int / 2] <= t[p99_index(t.len() as int)],
        t[0] <= t[t.len() as int / 2],
        t[p99_index(t.len() as int)] <= t[t.len() - 1],
{
    let n = t.len() as int;
    assert(n / 2 <= n * 99 / 100) by (nonlinear_arith)
        requires
            n > 0,
    ;
    assert(n / 2 < n) by (nonlinear_arith)
        requires
            n > 0,
    ;
}

} // verus!
