//! From the raw back-EMF samples of one measuring window to one value.
use vstd::prelude::*;
use vstd::relations::{sorted_by, total_ordering};

verus! {

/// Number of samples in one measuring window (about 10us each).
pub const N_SAMPLE: usize = 18;

/// Number of peak samples to reject, against commutator noise.
pub const N_REJECT: usize = 2;

/// The order of samples by size.
pub open spec fn by_size() -> spec_fn(u16, u16) -> bool {
    |a: u16, b: u16| a <= b
}

/// The samples from the lowest to the highest.
pub open spec fn ascending(samples: Seq<u16>) -> Seq<u16> {
    samples.sort_by(by_size())
}

/// The sum of the samples.
pub open spec fn sum(samples: Seq<u16>) -> nat
    decreases samples.len(),
{
    if samples.len() == 0 {
        0
    } else {
        sum(samples.drop_last()) + samples.last() as nat
    }
}

/// The mean of all samples but the `N_REJECT` highest, rounded down.
pub open spec fn mean_without_peaks(samples: Seq<u16>) -> int {
    sum(ascending(samples).take(samples.len() - N_REJECT)) as int / (samples.len() - N_REJECT)
}

/// The mean of the samples of one window, without the `N_REJECT` highest.
pub fn average_bemf(window: [u16; N_SAMPLE]) -> (bemf: u16)
    ensures
        bemf == mean_without_peaks(window@),
{
    let mut samples: [u16; N_SAMPLE] = window;
    proof {
        lemma_ascending(window@);
        assert(samples@.take(N_SAMPLE as int) =~= window@);
        assert(ascending(window@).take(N_SAMPLE as int) =~= ascending(window@));
    }
    // drop the highest sample N_REJECT times
    for i in 0..N_REJECT
        invariant
            ascending(window@).len() == N_SAMPLE,
            ascending(samples@.take(N_SAMPLE - i)) == ascending(window@).take(N_SAMPLE - i),
    {
        let last: usize = (N_SAMPLE - 1) - i;
        // find the index of the largest value
        let mut max_idx: usize = 0;
        for j in 0..(N_SAMPLE - i)
            invariant
                i < N_REJECT,
                max_idx < N_SAMPLE - i,
                forall|k: int| 0 <= k < j ==> samples@[k] <= samples@[max_idx as int],
        {
            if samples[j] > samples[max_idx] {
                max_idx = j;
            }
        }
        let ghost live = samples@.take(N_SAMPLE - i);
        // copy the current end into the position of the largest, which is thereby discarded
        samples[max_idx] = samples[last];
        proof {
            assert(samples@.take(last as int) =~= live.update(
                max_idx as int,
                live.last(),
            ).drop_last());
            lemma_drop_highest(live, max_idx as int);
            assert(ascending(window@).take(N_SAMPLE - i).drop_last() =~= ascending(window@).take(
                last as int,
            ));
        }
    }
    let mut total: u32 = 0;
    for i in 0..(N_SAMPLE - N_REJECT)
        invariant
            total == sum(samples@.take(i as int)),
            total <= i * 65535,
    {
        assert(samples@.take(i + 1).drop_last() =~= samples@.take(i as int));
        total = total + samples[i] as u32;
    }
    proof {
        let kept = samples@.take(N_SAMPLE - N_REJECT);
        lemma_ascending(kept);
        lemma_sum_of_permutation(kept, ascending(kept));
    }
    (total / ((N_SAMPLE - N_REJECT) as u32)) as u16
}

/// Sorting keeps the samples and puts them in order.
proof fn lemma_ascending(samples: Seq<u16>)
    ensures
        total_ordering(by_size()),
        sorted_by(ascending(samples), by_size()),
        ascending(samples).to_multiset() == samples.to_multiset(),
        ascending(samples).len() == samples.len(),
{
    broadcast use vstd::seq_lib::group_to_multiset_ensures;

    samples.lemma_sort_by_ensures(by_size());
    assert(ascending(samples).to_multiset().len() == ascending(samples).len());
    assert(samples.to_multiset().len() == samples.len());
}

/// Replacing a highest sample by the last one and dropping the end leaves the lowest samples.
proof fn lemma_drop_highest(samples: Seq<u16>, highest: int)
    requires
        0 <= highest < samples.len(),
        forall|k: int| 0 <= k < samples.len() ==> samples[k] <= samples[highest],
    ensures
        ascending(samples.update(highest, samples.last()).drop_last()) == ascending(
            samples,
        ).drop_last(),
{
    broadcast use vstd::seq_lib::group_to_multiset_ensures;

    let rest = samples.update(highest, samples.last()).drop_last();
    let body = samples.drop_last();
    let peak = samples[highest];
    assert(samples =~= body.push(samples.last()));
    assert(samples.to_multiset() =~= body.to_multiset().insert(samples.last()));
    if highest == samples.len() - 1 {
        assert(rest =~= body);
    } else {
        assert(rest =~= body.remove(highest).insert(highest, samples.last()));
        assert(body.to_multiset().count(peak) > 0);
    }
    assert(rest.to_multiset().insert(peak) =~= samples.to_multiset());
    lemma_ascending(samples);
    lemma_ascending(rest);
    let sorted = ascending(rest).push(peak);
    assert(sorted.to_multiset() =~= samples.to_multiset());
    assert forall|i: int, j: int| 0 <= i < j < sorted.len() implies #[trigger] by_size()(
        sorted[i],
        sorted[j],
    ) by {
        if j == sorted.len() - 1 {
            assert(ascending(rest).contains(sorted[i]));
            assert(ascending(rest).to_multiset().count(sorted[i]) > 0);
            assert(rest.contains(sorted[i]));
            let k = choose|k: int| 0 <= k < rest.len() && rest[k] == sorted[i];
            assert(rest[k] == samples[k] || rest[k] == samples.last());
        } else {
            assert(by_size()(ascending(rest)[i], ascending(rest)[j]));
        }
    }
    vstd::seq_lib::lemma_sorted_unique(sorted, ascending(samples), by_size());
    assert(ascending(samples).drop_last() =~= ascending(rest));
}

/// A sum does not depend on the order.
proof fn lemma_sum_of_permutation(a: Seq<u16>, b: Seq<u16>)
    requires
        a.to_multiset() == b.to_multiset(),
    ensures
        sum(a) == sum(b),
    decreases a.len(),
{
    broadcast use vstd::seq_lib::group_to_multiset_ensures;

    assert(a.to_multiset().len() == a.len() && b.to_multiset().len() == b.len());
    if a.len() > 0 {
        let x = a.last();
        assert(a.contains(x));
        assert(a.to_multiset().count(x) > 0);
        assert(b.contains(x));
        let i = choose|i: int| 0 <= i < b.len() && b[i] == x;
        assert(a =~= a.drop_last().push(x));
        assert(a.drop_last().to_multiset() =~= a.to_multiset().remove(x));
        assert(b.remove(i).to_multiset() =~= b.to_multiset().remove(x));
        lemma_sum_of_permutation(a.drop_last(), b.remove(i));
        lemma_sum_without(b, i);
    }
}

/// Taking one sample out takes its size off the sum.
proof fn lemma_sum_without(samples: Seq<u16>, i: int)
    requires
        0 <= i < samples.len(),
    ensures
        sum(samples) == sum(samples.remove(i)) + samples[i],
    decreases samples.len(),
{
    if i == samples.len() - 1 {
        assert(samples.remove(i) =~= samples.drop_last());
    } else {
        lemma_sum_without(samples.drop_last(), i);
        assert(samples.remove(i).drop_last() =~= samples.drop_last().remove(i));
        assert(samples.remove(i).last() == samples.last());
    }
}

/// No sample of `low` is above any sample of `high`.
pub open spec fn all_below(low: Seq<u16>, high: Seq<u16>) -> bool {
    forall|i: int, j: int| 0 <= i < low.len() && 0 <= j < high.len() ==> low[i] <= high[j]
}

/// However the samples are ordered, and whichever of several equal samples are taken for the
/// peaks: the mean is that of the samples that are left once `N_REJECT` samples, none of them
/// smaller than any other sample, are taken away.
pub proof fn lemma_mean_of_kept(samples: Seq<u16>, kept: Seq<u16>, peaks: Seq<u16>)
    requires
        samples.to_multiset() == (kept + peaks).to_multiset(),
        peaks.len() == N_REJECT,
        kept.len() > 0,
        all_below(kept, peaks),
    ensures
        mean_without_peaks(samples) == sum(kept) as int / kept.len() as int,
{
    broadcast use vstd::seq_lib::group_to_multiset_ensures;

    lemma_ascending(samples);
    lemma_ascending(kept);
    lemma_ascending(peaks);
    let sorted = ascending(kept) + ascending(peaks);
    vstd::seq_lib::lemma_multiset_commutative(kept, peaks);
    vstd::seq_lib::lemma_multiset_commutative(ascending(kept), ascending(peaks));
    assert(sorted.to_multiset() =~= samples.to_multiset());
    assert forall|i: int, j: int| 0 <= i < j < sorted.len() implies #[trigger] by_size()(
        sorted[i],
        sorted[j],
    ) by {
        let split = kept.len() as int;
        if j < split {
            assert(by_size()(ascending(kept)[i], ascending(kept)[j]));
        } else if i >= split {
            assert(by_size()(ascending(peaks)[i - split], ascending(peaks)[j - split]));
        } else {
            let low = ascending(kept)[i];
            let high = ascending(peaks)[j - split];
            assert(ascending(kept).contains(low) && ascending(peaks).contains(high));
            assert(ascending(kept).to_multiset().count(low) > 0);
            assert(ascending(peaks).to_multiset().count(high) > 0);
            assert(kept.contains(low) && peaks.contains(high));
        }
    }
    vstd::seq_lib::lemma_sorted_unique(sorted, ascending(samples), by_size());
    assert(samples.len() == sorted.len()) by {
        assert(samples.to_multiset().len() == samples.len());
    }
    assert(ascending(samples).take(samples.len() - N_REJECT) =~= ascending(kept));
    lemma_sum_of_permutation(kept, ascending(kept));
}

/// The size of the peaks does not count, as long as they are peaks.
pub proof fn lemma_peaks_do_not_count(kept: Seq<u16>, peaks: Seq<u16>, other_peaks: Seq<u16>)
    requires
        kept.len() > 0,
        peaks.len() == N_REJECT,
        other_peaks.len() == N_REJECT,
        all_below(kept, peaks),
        all_below(kept, other_peaks),
    ensures
        mean_without_peaks(kept + peaks) == mean_without_peaks(kept + other_peaks),
{
    lemma_mean_of_kept(kept + peaks, kept, peaks);
    lemma_mean_of_kept(kept + other_peaks, kept, other_peaks);
}

/// The mean lies within the range of the samples that are left.
pub proof fn lemma_mean_within_range(kept: Seq<u16>, peaks: Seq<u16>, low: u16, high: u16)
    requires
        kept.len() > 0,
        peaks.len() == N_REJECT,
        all_below(kept, peaks),
        forall|i: int| 0 <= i < kept.len() ==> low <= #[trigger] kept[i] <= high,
    ensures
        low <= mean_without_peaks(kept + peaks) <= high,
{
    lemma_mean_of_kept(kept + peaks, kept, peaks);
    lemma_sum_bounds(kept, low, high);
    let n = kept.len() as int;
    let total = sum(kept) as int;
    assert(low <= total / n <= high) by (nonlinear_arith)
        requires
            n > 0,
            n * low <= total <= n * high,
    ;
}

/// A sum lies within the range of its parts, times their number.
proof fn lemma_sum_bounds(samples: Seq<u16>, low: u16, high: u16)
    requires
        forall|i: int| 0 <= i < samples.len() ==> low <= #[trigger] samples[i] <= high,
    ensures
        samples.len() * low <= sum(samples) <= samples.len() * high,
    decreases samples.len(),
{
    if samples.len() > 0 {
        lemma_sum_bounds(samples.drop_last(), low, high);
        let n = samples.len() as int;
        assert(n * low == (n - 1) * low + low && n * high == (n - 1) * high + high)
            by (nonlinear_arith);
        assert(low <= samples[n - 1] <= high);
    }
}

/// A window whose samples are none of them lower never has a lower mean.
pub proof fn lemma_mean_rises(low: Seq<u16>, high: Seq<u16>)
    requires
        low.len() == high.len(),
        low.len() > N_REJECT,
        forall|i: int| 0 <= i < low.len() ==> low[i] <= high[i],
    ensures
        mean_without_peaks(low) <= mean_without_peaks(high),
{
    lemma_ascending(low);
    lemma_ascending(high);
    lemma_ascending_rises(low, high);
    let n = low.len() - N_REJECT;
    lemma_sum_rises(ascending(low).take(n), ascending(high).take(n));
    let a = sum(ascending(low).take(n)) as int;
    let b = sum(ascending(high).take(n)) as int;
    assert(a / n <= b / n) by (nonlinear_arith)
        requires
            a <= b,
            n > 0,
    ;
}

/// Larger parts make a larger sum.
proof fn lemma_sum_rises(low: Seq<u16>, high: Seq<u16>)
    requires
        low.len() == high.len(),
        forall|i: int| 0 <= i < low.len() ==> low[i] <= high[i],
    ensures
        sum(low) <= sum(high),
    decreases low.len(),
{
    if low.len() > 0 {
        lemma_sum_rises(low.drop_last(), high.drop_last());
    }
}

/// Raising samples lowers none of the samples in order.
proof fn lemma_ascending_rises(low: Seq<u16>, high: Seq<u16>)
    requires
        low.len() == high.len(),
        forall|i: int| 0 <= i < low.len() ==> low[i] <= high[i],
    ensures
        ascending(low).len() == low.len(),
        ascending(high).len() == low.len(),
        forall|i: int| 0 <= i < low.len() ==> ascending(low)[i] <= ascending(high)[i],
    decreases low.len(),
{
    lemma_ascending(low);
    lemma_ascending(high);
    if low.len() > 0 {
        // take away a highest of the higher samples, and the sample below it
        let top = ascending(high).len() - 1;
        let k = lemma_sorted_from(high, top);
        lemma_without(high, k, top);
        let j = lemma_sorted_at(low, k);
        lemma_without(low, k, j);
        lemma_ascending_rises(low.remove(k), high.remove(k));
        assert forall|i: int| 0 <= i < low.len() implies ascending(low)[i] <= ascending(high)[i] by {
            if i < top {
                assert(ascending(low.remove(k))[i] <= ascending(high.remove(k))[i]);
                if i >= j {
                    assert(by_size()(ascending(low)[i], ascending(low)[i + 1]));
                }
            } else {
                let m = lemma_sorted_from(low, top);
                let n = lemma_sorted_at(high, m);
                if n < top {
                    assert(by_size()(ascending(high)[n], ascending(high)[top]));
                }
            }
        }
    }
}

/// Where in the window a sample in order comes from.
proof fn lemma_sorted_from(samples: Seq<u16>, j: int) -> (i: int)
    requires
        0 <= j < samples.len(),
    ensures
        0 <= i < samples.len(),
        samples[i] == ascending(samples)[j],
{
    broadcast use vstd::seq_lib::group_to_multiset_ensures;

    lemma_ascending(samples);
    let x = ascending(samples)[j];
    assert(ascending(samples).contains(x));
    assert(ascending(samples).to_multiset().count(x) > 0);
    assert(samples.contains(x));
    choose|i: int| 0 <= i < samples.len() && samples[i] == x
}

/// Where a sample of the window comes to stand in order.
proof fn lemma_sorted_at(samples: Seq<u16>, i: int) -> (j: int)
    requires
        0 <= i < samples.len(),
    ensures
        0 <= j < samples.len(),
        ascending(samples)[j] == samples[i],
{
    broadcast use vstd::seq_lib::group_to_multiset_ensures;

    lemma_ascending(samples);
    let x = samples[i];
    assert(samples.contains(x));
    assert(samples.to_multiset().count(x) > 0);
    assert(ascending(samples).contains(x));
    choose|j: int| 0 <= j < samples.len() && ascending(samples)[j] == x
}

/// Taking a sample out before or after sorting is the same.
proof fn lemma_without(samples: Seq<u16>, i: int, j: int)
    requires
        0 <= i < samples.len(),
        0 <= j < samples.len(),
        ascending(samples)[j] == samples[i],
    ensures
        ascending(samples.remove(i)) == ascending(samples).remove(j),
{
    broadcast use vstd::seq_lib::group_to_multiset_ensures;

    lemma_ascending(samples);
    lemma_ascending(samples.remove(i));
    let sorted = ascending(samples).remove(j);
    assert(sorted.to_multiset() =~= samples.remove(i).to_multiset());
    assert forall|a: int, b: int| 0 <= a < b < sorted.len() implies #[trigger] by_size()(
        sorted[a],
        sorted[b],
    ) by {
        let c = if a < j {
            a
        } else {
            a + 1
        };
        let d = if b < j {
            b
        } else {
            b + 1
        };
        assert(by_size()(ascending(samples)[c], ascending(samples)[d]));
    }
    vstd::seq_lib::lemma_sorted_unique(sorted, ascending(samples.remove(i)), by_size());
}

/// The mean of a window of 18 samples: take any two of them that are none of them smaller than any
/// other sample. The mean is a 16th of what the others add up to, rounded down.
pub proof fn lemma_window_mean(window: Seq<u16>, first: int, second: int)
    requires
        window.len() == 18,
        0 <= first < second < 18,
        forall|i: int|
            0 <= i < 18 && i != first && i != second ==> #[trigger] window[i] <= window[first]
                && window[i] <= window[second],
    ensures
        N_SAMPLE == 18,
        ({
            let all = window.fold_left(0int, |total: int, sample: u16| total + sample);
            let others = all - window[first] - window[second];
            let mean = mean_without_peaks(window);
            16 * mean <= others < 16 * mean + 16
        }),
{
    broadcast use vstd::seq_lib::group_to_multiset_ensures;

    let shorter = window.remove(second);
    let kept = shorter.remove(first);
    let peaks = seq![window[second], window[first]];
    assert(shorter[first] == window[first]);
    assert(kept + peaks =~= kept.push(window[second]).push(window[first]));
    assert(kept.to_multiset() =~= shorter.to_multiset().remove(window[first]));
    assert(shorter.to_multiset() =~= window.to_multiset().remove(window[second]));
    assert(window.contains(window[second]) && shorter.contains(window[first]));
    assert(window.to_multiset().count(window[second]) > 0);
    assert(shorter.to_multiset().count(window[first]) > 0);
    assert(window.to_multiset() =~= (kept + peaks).to_multiset());
    assert forall|i: int, j: int| 0 <= i < kept.len() && 0 <= j < peaks.len() implies kept[i]
        <= peaks[j] by {
        let k = if i < first {
            i
        } else if i + 1 < second {
            i + 1
        } else {
            i + 2
        };
        assert(kept[i] == window[k]);
    }
    lemma_mean_of_kept(window, kept, peaks);
    lemma_sum_without(window, second);
    lemma_sum_without(shorter, first);
    lemma_sum_is_total(window);
}

/// The sum is what the samples add up to.
pub proof fn lemma_sum_is_total(samples: Seq<u16>)
    ensures
        sum(samples) == samples.fold_left(0int, |total: int, sample: u16| total + sample),
    decreases samples.len(),
{
    if samples.len() > 0 {
        lemma_sum_is_total(samples.drop_last());
    }
}

} // verus!
