//! Aggregate statistics over the recorded trial: mean and median reaction
//! delay, mean and peak angular error, and the qualitative rating table.

use vstd::prelude::*;
use vstd::seq_lib::lemma_sorted_unique;
use vstd::relations::sorted_by;
use crate::vec::Vec3I;
use crate::sample::DataPoint;
use crate::angle::{angle3_spec, angle_between_3d};

verus! {

/// The order the delay statistics sort by.
pub open spec fn delay_le(a: i64, b: i64) -> bool {
    a <= b
}

/// The delays in ascending order.
pub open spec fn sorted_delays(ds: Seq<i64>) -> Seq<i64> {
    ds.sort_by(|a: i64, b: i64| a <= b)
}

/// Every delay is within a nonnegative, bounded range (the matching
/// window guarantees far less than this).
pub open spec fn delays_bounded(ds: Seq<i64>) -> bool {
    forall|k: int| 0 <= k < ds.len() ==> 0 <= #[trigger] ds[k] <= 1000000000
}

/// The sum of the first `i` delays.
pub open spec fn delay_sum(ds: Seq<i64>, i: int) -> int
    decreases i,
{
    if i <= 0 {
        0
    } else {
        delay_sum(ds, i - 1) + ds[i - 1]
    }
}

/// The mean delay in microseconds, rounded down.
pub open spec fn mean_delay_spec(ds: Seq<i64>) -> int {
    delay_sum(ds, ds.len() as int) / ds.len() as int
}

/// The median delay in microseconds: the middle of the sorted delays, or
/// the average of the two middle values when the count is even.
pub open spec fn median_delay_spec(ds: Seq<i64>) -> int {
    let sd = sorted_delays(ds);
    let n = ds.len() as int;
    if n % 2 == 0 {
        (sd[n / 2 - 1] + sd[n / 2]) / 2
    } else {
        sd[n / 2] as int
    }
}

/// Insertion sort, in place; afterwards the vector holds its old
/// elements in ascending order.
#[verifier::loop_isolation(false)]
pub fn sort_i64(v: &mut Vec<i64>)
    ensures
        final(v)@ == sorted_delays(old(v)@),
        final(v)@.to_multiset() == old(v)@.to_multiset(),
        sorted_by(final(v)@, |a: i64, b: i64| a <= b),
        final(v)@.len() == old(v)@.len(),
{
    let ghost leq = |a: i64, b: i64| a <= b;
    let n = v.len();
    if n > 1 {
        let mut i: usize = 1;
        while i < n
            invariant
                n == v@.len(),
                1 <= i <= n,
                v@.to_multiset() == old(v)@.to_multiset(),
                sorted_by(v@.take(i as int), leq),
            decreases n - i,
        {
            let x = v[i];
            let mut j: usize = i;
            while j > 0 && v[j - 1] > x
                invariant
                    0 <= j <= i < n,
                    n == v@.len(),
                    v@.to_multiset() == old(v)@.to_multiset(),
                    v@[j as int] == x,
                    sorted_by(v@.take(j as int), leq),
                    forall|k: int| j < k <= i ==> #[trigger] v@[k] > x,
                    forall|k: int, l: int| #![trigger v@[k], v@[l]]
                        j < k < l <= i ==> v@[k] <= v@[l],
                    forall|k: int, l: int| #![trigger v@[k], v@[l]]
                        0 <= k < j && j < l <= i ==> v@[k] <= v@[l],
                decreases j,
            {
                let prev = v[j - 1];
                let cur = v[j];
                let ghost before = v@;
                v.set(j - 1, cur);
                v.set(j, prev);
                proof {
                    broadcast use vstd::seq_lib::group_to_multiset_ensures;
                    broadcast use vstd::multiset::group_multiset_axioms;

                    assert(v@ == before.update(j - 1 as int, cur).update(j as int, prev));
                    assert(before.to_multiset().contains(before[j - 1 as int]));
                    assert(v@.to_multiset() =~= before.to_multiset());
                    assert(v@.take(j - 1 as int) =~= before.take(j - 1 as int));
                    assert forall|k: int, l: int| #![trigger v@[k], v@[l]]
                        0 <= k < l < j - 1 implies leq(
                        v@.take(j - 1 as int)[k],
                        v@.take(j - 1 as int)[l],
                    ) by {
                        assert(leq(before.take(j as int)[k], before.take(j as int)[l]));
                    }
                    assert(sorted_by(v@.take(j - 1 as int), leq));
                    assert forall|k: int| #![trigger v@[k]] 0 <= k < j - 1 implies v@[k]
                        <= prev by {
                        assert(leq(before.take(j as int)[k], before.take(j as int)[j - 1]));
                        assert(before.take(j as int)[k] == before[k]);
                        assert(before.take(j as int)[j - 1] == before[j - 1]);
                        assert(v@[k] == before[k]);
                    }
                }
                j = j - 1;
            }
            proof {
                assert forall|k: int, l: int| #![trigger v@[k], v@[l]]
                    0 <= k < l <= i implies leq(v@[k], v@[l]) by {
                    if l < j {
                        assert(leq(v@.take(j as int)[k], v@.take(j as int)[l]));
                        assert(v@.take(j as int)[k] == v@[k]);
                        assert(v@.take(j as int)[l] == v@[l]);
                    } else if l == j {
                        assert(j > 0);
                        assert(v@[j - 1] <= x);
                        assert(v@[l] == x);
                        if k < j - 1 {
                            assert(leq(v@.take(j as int)[k], v@.take(j as int)[j - 1]));
                            assert(v@.take(j as int)[k] == v@[k]);
                            assert(v@.take(j as int)[j - 1] == v@[j - 1]);
                            assert(v@[k] <= v@[j - 1]);
                        }
                    } else if k == j {
                        assert(v@[k] == x);
                        assert(v@[l] > x);
                    } else if k < j {
                        assert(v@[k] <= v@[l]);
                    } else {
                        assert(v@[k] <= v@[l]);
                    }
                }
                assert forall|k: int, l: int| #![trigger v@[k], v@[l]]
                    0 <= k < l < i + 1 implies leq(
                    v@.take(i + 1 as int)[k],
                    v@.take(i + 1 as int)[l],
                ) by {
                    assert(leq(v@[k], v@[l]));
                }
                assert(sorted_by(v@.take(i + 1 as int), leq));
            }
            i = i + 1;
        }
    }
    proof {
        assert(v@.take(n as int) =~= v@);
        assert(sorted_by(v@, leq));
        old(v)@.lemma_sort_by_ensures(leq);
        assert(v@.to_multiset() == old(v)@.sort_by(leq).to_multiset());
        lemma_sorted_unique(v@, old(v)@.sort_by(leq), leq);
        assert(v@ =~= old(v)@.sort_by(leq));
    }
}

/// The mean of a nonempty list of bounded delays, rounded down
/// (microseconds).
pub fn mean_delay_us(delays: &Vec<i64>) -> (r: i64)
    requires
        0 < delays@.len() <= 1000000,
        delays_bounded(delays@),
    ensures
        r == mean_delay_spec(delays@),
        0 <= r <= 1000000000,
{
    let n = delays.len();
    let mut sum: i64 = 0;
    let mut k: usize = 0;
    while k < n
        invariant
            n == delays@.len(),
            delays_bounded(delays@),
            n <= 1000000,
            0 <= k <= n,
            sum == delay_sum(delays@, k as int),
            0 <= sum <= k * 1000000000,
        decreases n - k,
    {
        sum = sum + delays[k];
        k = k + 1;
    }
    let m = sum / (n as i64);
    proof {
        crate::trig::lemma_tdiv_bound(sum as int, n as int, 1000000000);
    }
    m
}

/// The median of a nonempty list of bounded delays (microseconds).
pub fn median_delay_us(delays: &Vec<i64>) -> (r: i64)
    requires
        delays@.len() > 0,
        delays_bounded(delays@),
    ensures
        r == median_delay_spec(delays@),
{
    let ghost leq = |a: i64, b: i64| a <= b;
    let mut sorted: Vec<i64> = delays.clone();
    proof {
        assert(sorted@ =~= delays@);
    }
    sort_i64(&mut sorted);
    let n = sorted.len();
    proof {
        delays@.lemma_sort_by_ensures(leq);
        assert forall|k: int| 0 <= k < sorted@.len() implies 0 <= #[trigger] sorted@[k]
            <= 1000000000 by {
            assert(sorted@.contains(sorted@[k]));
            assert(delays@.contains(sorted@[k]));
            let w = choose|w: int| 0 <= w < delays@.len() && delays@[w] == sorted@[k];
            assert(0 <= delays@[w] <= 1000000000);
        }
    }
    if n % 2 == 0 {
        (sorted[n / 2 - 1] + sorted[n / 2]) / 2
    } else {
        sorted[n / 2]
    }
}

/// The angular error of one sample: the angle in whole degrees between
/// the target's bearing from the camera and the aim direction.
pub open spec fn sample_error_deg(p: DataPoint) -> int {
    let target_dir = Vec3I {
        x: (p.target_pos.x - p.camera_pos.x) as i64,
        y: (p.target_pos.y - p.camera_pos.y) as i64,
        z: (p.target_pos.z - p.camera_pos.z) as i64,
    };
    angle3_spec(target_dir, p.crosshair_dir)
}

/// The angle in whole degrees between a target bearing and an aim
/// direction, with degenerate directions counting as zero error.
pub fn calculate_angular_error(target_position: Vec3I, crosshair_direction: Vec3I) -> (r: u64)
    requires
        target_position.x > i64::MIN,
        target_position.y > i64::MIN,
        target_position.z > i64::MIN,
        crosshair_direction.x > i64::MIN,
        crosshair_direction.y > i64::MIN,
        crosshair_direction.z > i64::MIN,
    ensures
        r == angle3_spec(target_position, crosshair_direction),
        r <= 180,
{
    angle_between_3d(target_position, crosshair_direction)
}

/// The sum of the first `i` samples' angular errors.
pub open spec fn error_sum(s: Seq<DataPoint>, i: int) -> int
    decreases i,
{
    if i <= 0 {
        0
    } else {
        error_sum(s, i - 1) + sample_error_deg(s[i - 1])
    }
}

/// The mean angular error in whole degrees over every sample, rounded
/// down; zero for an empty series.
pub open spec fn mean_error_spec(s: Seq<DataPoint>) -> int {
    if s.len() == 0 {
        0
    } else {
        error_sum(s, s.len() as int) / s.len() as int
    }
}

/// The largest angular error over the first `i` samples.
pub open spec fn peak_error_upto(s: Seq<DataPoint>, i: int) -> int
    decreases i,
{
    if i <= 0 {
        0
    } else {
        let prev = peak_error_upto(s, i - 1);
        let e = sample_error_deg(s[i - 1]);
        if e > prev {
            e
        } else {
            prev
        }
    }
}

/// The peak angular error in whole degrees over every sample.
pub open spec fn peak_error_spec(s: Seq<DataPoint>) -> int {
    peak_error_upto(s, s.len() as int)
}

/// The mean angular error over every recorded sample, rounded down to
/// whole degrees.
pub fn calculate_average_angular_error_simple(data: &Vec<DataPoint>) -> (r: u64)
    requires
        crate::sample::valid_series(data@),
    ensures
        r == mean_error_spec(data@),
        r <= 180,
{
    let n = data.len();
    if n == 0 {
        return 0;
    }
    let mut sum: u64 = 0;
    let mut k: usize = 0;
    while k < n
        invariant
            crate::sample::valid_series(data@),
            n == data@.len(),
            0 <= k <= n,
            sum == error_sum(data@, k as int),
            0 <= sum <= k * 180,
        decreases n - k,
    {
        let p = data[k];
        let target_dir = Vec3I {
            x: p.target_pos.x - p.camera_pos.x,
            y: p.target_pos.y - p.camera_pos.y,
            z: p.target_pos.z - p.camera_pos.z,
        };
        let e = angle_between_3d(target_dir, p.crosshair_dir);
        sum = sum + e;
        k = k + 1;
    }
    let m = sum / (n as u64);
    proof {
        assert(m <= 180) by (nonlinear_arith)
            requires
                sum <= n * 180,
                n >= 1,
                m == sum / (n as u64),
        {
        }
    }
    m
}

/// The largest angular error over every recorded sample.
pub fn calculate_peak_angular_error_simple(data: &Vec<DataPoint>) -> (r: u64)
    requires
        crate::sample::valid_series(data@),
    ensures
        r == peak_error_spec(data@),
        r <= 180,
{
    let n = data.len();
    let mut peak: u64 = 0;
    let mut k: usize = 0;
    while k < n
        invariant
            crate::sample::valid_series(data@),
            n == data@.len(),
            0 <= k <= n,
            peak == peak_error_upto(data@, k as int),
            peak <= 180,
        decreases n - k,
    {
        let p = data[k];
        let target_dir = Vec3I {
            x: p.target_pos.x - p.camera_pos.x,
            y: p.target_pos.y - p.camera_pos.y,
            z: p.target_pos.z - p.camera_pos.z,
        };
        let e = angle_between_3d(target_dir, p.crosshair_dir);
        if e > peak {
            peak = e;
        }
        k = k + 1;
    }
    peak
}

/// The rating a mean delay earns, as a sequence of characters.
pub open spec fn rating_spec(mean_delay_us: int) -> Seq<char> {
    if mean_delay_us < 125000 {
        "Supreme"@
    } else if mean_delay_us < 135000 {
        "Grandmaster"@
    } else if mean_delay_us < 150000 {
        "Master"@
    } else if mean_delay_us < 165000 {
        "Diamond"@
    } else if mean_delay_us < 180000 {
        "Platinum"@
    } else if mean_delay_us < 200000 {
        "Gold"@
    } else if mean_delay_us < 220000 {
        "Silver"@
    } else if mean_delay_us < 250000 {
        "Bronze"@
    } else {
        "Keep practicing"@
    }
}

/// The qualitative rating for a mean reaction delay in microseconds: a
/// fixed ordered threshold table, each band exclusive of its upper bound.
pub fn rating_for_delay(mean_delay_us: i64) -> (r: &'static str)
    ensures
        r@ == rating_spec(mean_delay_us as int),
{
    if mean_delay_us < 125000 {
        "Supreme"
    } else if mean_delay_us < 135000 {
        "Grandmaster"
    } else if mean_delay_us < 150000 {
        "Master"
    } else if mean_delay_us < 165000 {
        "Diamond"
    } else if mean_delay_us < 180000 {
        "Platinum"
    } else if mean_delay_us < 200000 {
        "Gold"
    } else if mean_delay_us < 220000 {
        "Silver"
    } else if mean_delay_us < 250000 {
        "Bronze"
    } else {
        "Keep practicing"
    }
}

} // verus!
