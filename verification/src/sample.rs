//! The recorded time series: one data point per simulation tick, and the
//! direction-change events the analysis derives from it.

use vstd::prelude::*;
use crate::math::{abs, tdiv, div_trunc, sqrt_spec, lemma_sqrt_spec_bracket, lemma_mul_bound,
    isqrt, mul_wide};
use crate::vec::{Vec2I, Vec3I, lemma_square_nonneg};

verus! {

/// The position-coordinate range a valid data point keeps (milliunits).
pub const SAMPLE_POS_LIMIT: i64 = 1000000000;

/// The direction-coordinate range a valid data point keeps (milliunits;
/// a unit direction has coordinates within 1000).
pub const SAMPLE_DIR_LIMIT: i64 = 1000000;

/// The timestamp range a valid data point keeps (microseconds; one day).
pub const SAMPLE_TIME_LIMIT: i64 = 86400000000;

/// The longest series the analysis accepts.
pub const SERIES_LEN_LIMIT: usize = 1000000;

/// One recorded sample: the time since trial start, the world positions
/// of target and camera, the aim direction, and the target and crosshair
/// projected onto the frozen local right/up plane.
#[derive(Clone, Copy, PartialEq, Eq, Structural, Debug)]
pub struct DataPoint {
    pub time_us: i64,
    pub target_pos: Vec3I,
    pub crosshair_dir: Vec3I,
    pub camera_pos: Vec3I,
    pub target_x: i64,
    pub target_y: i64,
    pub crosshair_x: i64,
    pub crosshair_y: i64,
}

/// A detected target direction change: when it happened and the target's
/// new planar direction, normalized to milliunit scale.
#[derive(Clone, Copy, PartialEq, Eq, Structural, Debug)]
pub struct DirectionChange {
    pub time_us: i64,
    pub target_new_direction: Vec2I,
}

impl DataPoint {
    /// Every field is within the fixed-point ranges the analysis relies
    /// on.
    pub open spec fn valid(self) -> bool {
        &&& 0 <= self.time_us <= SAMPLE_TIME_LIMIT
        &&& self.target_pos.bounded(SAMPLE_POS_LIMIT as int)
        &&& self.camera_pos.bounded(SAMPLE_POS_LIMIT as int)
        &&& self.crosshair_dir.bounded(SAMPLE_DIR_LIMIT as int)
        &&& abs(self.target_x as int) <= SAMPLE_POS_LIMIT
        &&& abs(self.target_y as int) <= SAMPLE_POS_LIMIT
        &&& abs(self.crosshair_x as int) <= SAMPLE_DIR_LIMIT
        &&& abs(self.crosshair_y as int) <= SAMPLE_DIR_LIMIT
    }

    /// The target's local right/up projection as a planar point.
    pub open spec fn target_local(self) -> Vec2I {
        Vec2I { x: self.target_x, y: self.target_y }
    }

    /// The crosshair's local right/up projection as a planar point.
    pub open spec fn crosshair_local(self) -> Vec2I {
        Vec2I { x: self.crosshair_x, y: self.crosshair_y }
    }
}

/// A well-formed recorded series: bounded length, every point valid, and
/// timestamps nondecreasing.
pub open spec fn valid_series(s: Seq<DataPoint>) -> bool {
    &&& s.len() <= SERIES_LEN_LIMIT
    &&& forall|i: int| 0 <= i < s.len() ==> (#[trigger] s[i]).valid()
    &&& forall|i: int, j: int|
        0 <= i <= j < s.len() ==> #[trigger] s[i].time_us <= #[trigger] s[j].time_us
}

/// The first index at or after `from` whose timestamp is at least `t`;
/// the length if there is none.
pub open spec fn idx_first_at_or_after(s: Seq<DataPoint>, t: int, from: int) -> int
    decreases s.len() - from,
{
    if from < 0 || from >= s.len() {
        s.len() as int
    } else if s[from].time_us >= t {
        from
    } else {
        idx_first_at_or_after(s, t, from + 1)
    }
}

/// Where the search lands: at or past `from`, at a timestamp at least
/// `t`, and past only smaller timestamps.
pub proof fn lemma_idx_first_props(s: Seq<DataPoint>, t: int, from: int)
    requires
        0 <= from <= s.len(),
    ensures
        from <= idx_first_at_or_after(s, t, from) <= s.len(),
        idx_first_at_or_after(s, t, from) < s.len() ==> s[idx_first_at_or_after(s, t, from)].time_us >= t,
        forall|j: int|
            from <= j < idx_first_at_or_after(s, t, from) ==> #[trigger] s[j].time_us < t,
    decreases s.len() - from,
{
    if from < s.len() && s[from].time_us < t {
        lemma_idx_first_props(s, t, from + 1);
    }
}

/// The executable search for the first timestamp at or least `t`.
pub fn find_first_at_or_after(data: &Vec<DataPoint>, t: i64) -> (r: usize)
    ensures
        r == idx_first_at_or_after(data@, t as int, 0),
        r <= data@.len(),
{
    let n = data.len();
    let mut i: usize = 0;
    while i < n
        invariant
            0 <= i <= n,
            n == data@.len(),
            idx_first_at_or_after(data@, t as int, 0) == idx_first_at_or_after(
                data@,
                t as int,
                i as int,
            ),
        decreases n - i,
    {
        if data[i].time_us >= t {
            return i;
        }
        i = i + 1;
    }
    n
}

/// A planar vector scaled to milliunit length: each coordinate times 1000
/// over the integer length, rounded toward zero; zero stays zero.
pub open spec fn normalize_milli_spec(v: Vec2I) -> Vec2I {
    let n = sqrt_spec(v.norm2_spec() as nat) as int;
    if n == 0 {
        Vec2I { x: 0i64, y: 0i64 }
    } else {
        Vec2I { x: tdiv(v.x * 1000, n) as i64, y: tdiv(v.y * 1000, n) as i64 }
    }
}

/// A coordinate is never larger in magnitude than the vector's integer
/// length.
proof fn lemma_coord_le_norm(v: Vec2I)
    requires
        v.norm2_spec() >= 0,
    ensures
        abs(v.x as int) <= sqrt_spec(v.norm2_spec() as nat) as int,
        abs(v.y as int) <= sqrt_spec(v.norm2_spec() as nat) as int,
{
    lemma_sqrt_spec_bracket(v.norm2_spec() as nat);
    let n = sqrt_spec(v.norm2_spec() as nat) as int;
    lemma_square_nonneg(v.x as int);
    lemma_square_nonneg(v.y as int);
    if abs(v.x as int) > n {
        lemma_mul_bound(n + 1, n + 1, abs(v.x as int), abs(v.x as int));
        assert(abs(v.x as int) * abs(v.x as int) == v.x * v.x) by (nonlinear_arith);
        assert(false);
    }
    if abs(v.y as int) > n {
        lemma_mul_bound(n + 1, n + 1, abs(v.y as int), abs(v.y as int));
        assert(abs(v.y as int) * abs(v.y as int) == v.y * v.y) by (nonlinear_arith);
        assert(false);
    }
}

/// Normalization to milliunit scale, as the specification states it.
pub fn normalize_milli(v: Vec2I) -> (r: Vec2I)
    requires
        v.bounded(4000000000000),
    ensures
        r == normalize_milli_spec(v),
        r.bounded(1000),
{
    let m2: i128 = v.norm2();
    proof {
        lemma_mul_bound(v.x as int, v.x as int, 4000000000000, 4000000000000);
        lemma_mul_bound(v.y as int, v.y as int, 4000000000000, 4000000000000);
    }
    let n: u128 = isqrt(m2 as u128);
    if n == 0 {
        Vec2I { x: 0, y: 0 }
    } else {
        proof {
            assert(n <= 6000000000000) by (nonlinear_arith)
                requires
                    n * n <= m2,
                    m2 <= 32000000000000000000000000,
                    n >= 0,
            {
            }
            lemma_coord_le_norm(v);
            crate::math::lemma_mul_bound(v.x as int, 1000, n as int, 1000);
            crate::math::lemma_mul_bound(v.y as int, 1000, n as int, 1000);
            crate::trig::lemma_tdiv_bound(v.x * 1000, n as int, 1000);
            crate::trig::lemma_tdiv_bound(v.y * 1000, n as int, 1000);
        }
        let xs: i128 = mul_wide(v.x, 1000);
        let ys: i128 = mul_wide(v.y, 1000);
        let x = div_trunc(xs as i64, n as i64);
        let y = div_trunc(ys as i64, n as i64);
        Vec2I { x, y }
    }
}

} // verus!
