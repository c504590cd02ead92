//! Unit and coordinate-system conversion between the table's native
//! space and the simulation's.
//!
//! Native lengths are counts of a milli-VPU (one thousandth of a
//! Visual Pinball unit); simulation lengths are micrometres.  One VPU
//! is 0.53975 mm, so one milli-VPU is 2159/4000 of a micrometre, an
//! exact ratio in lowest terms.  Conversions round toward negative
//! infinity, and are exact on whole multiples of 4000 milli-VPU.
//!
//! The table's native coordinate system has its origin at the top left
//! with y growing downward; the simulation has its origin at the table
//! centre with y growing upward.  The transform between the two is a
//! translation to the centre of the declared bounds followed by a flip
//! of the y axis.

use vstd::prelude::*;

verus! {

/// Largest native length (in milli-VPU) the conversions accept;
/// far beyond any real table, it only keeps `i64` products in range.
pub const MAX_MVPU: i64 = 0x100_0000_0000;

/// Largest simulation length (in micrometres) the conversions accept.
pub const MAX_UM: i64 = 0x100_0000_0000;

/// Largest coordinate (in milli-VPU) a table point or bound may have;
/// keeps every translated coordinate within the conversions' range.
pub const MAX_COORD: i64 = 0x40_0000_0000;

/// A native length scaled by 2159/4000, rounded toward negative infinity.
pub open spec fn mvpu_to_um_spec(n: int) -> int {
    if n >= 0 {
        (n * 2159) / 4000
    } else {
        -(((-n) * 2159 + 3999) / 4000)
    }
}

/// A simulation length scaled by 4000/2159, rounded toward negative infinity.
pub open spec fn um_to_mvpu_spec(m: int) -> int {
    if m >= 0 {
        (m * 4000) / 2159
    } else {
        -(((-m) * 4000 + 2158) / 2159)
    }
}

/// Converts a native length to simulation micrometres.
pub fn mvpu_to_um(n: i64) -> (r: i64)
    requires
        -MAX_MVPU <= n <= MAX_MVPU,
    ensures
        r == mvpu_to_um_spec(n as int),
        n >= 0 ==> 0 <= r <= n,
        n < 0 ==> n <= r <= 0,
{
    proof {
        lemma_scale_shrinks(n as int);
    }
    if n >= 0 {
        (n * 2159) / 4000
    } else {
        let m = -n;
        -((m * 2159 + 3999) / 4000)
    }
}

/// Converts a simulation length back to native milli-VPU.
pub fn um_to_mvpu(m: i64) -> (r: i64)
    requires
        -MAX_UM <= m <= MAX_UM,
    ensures
        r == um_to_mvpu_spec(m as int),
{
    if m >= 0 {
        (m * 4000) / 2159
    } else {
        let p = -m;
        -((p * 4000 + 2158) / 2159)
    }
}

/// A native length that is a whole multiple of 4000 milli-VPU (four
/// VPU) converts to micrometres and back without loss.
pub proof fn lemma_unit_round_trip(n: int)
    requires
        n % 4000 == 0,
    ensures
        um_to_mvpu_spec(mvpu_to_um_spec(n)) == n,
{
    let k = n / 4000;
    assert(n == 4000 * k);
    if n >= 0 {
        assert((4000 * k * 2159) / 4000 == 2159 * k) by (nonlinear_arith)
            requires
                k >= 0,
        ;
        assert((2159 * k * 4000) / 2159 == 4000 * k) by (nonlinear_arith)
            requires
                k >= 0,
        ;
    } else {
        let j = -k;
        assert(j > 0);
        assert(-n == 4000 * j);
        assert((4000 * j * 2159 + 3999) / 4000 == 2159 * j) by (nonlinear_arith)
            requires
                j > 0,
        ;
        assert(mvpu_to_um_spec(n) == -(2159 * j));
        assert((2159 * j * 4000 + 2158) / 2159 == 4000 * j) by (nonlinear_arith)
            requires
                j > 0,
        ;
        assert(um_to_mvpu_spec(-(2159 * j)) == -(4000 * j));
    }
}

/// The scaling toward micrometres never grows a magnitude: the ratio
/// is below one.
pub proof fn lemma_scale_shrinks(n: int)
    ensures
        n >= 0 ==> 0 <= mvpu_to_um_spec(n) <= n,
        n < 0 ==> n <= mvpu_to_um_spec(n) <= 0,
{
    if n >= 0 {
        assert(0 <= (n * 2159) / 4000 <= n) by (nonlinear_arith)
            requires
                n >= 0,
        ;
    } else {
        let m = -n;
        assert(0 <= (m * 2159 + 3999) / 4000 <= m) by (nonlinear_arith)
            requires
                m > 0,
        ;
    }
}

/// Computes the quotient of `a` by a positive divisor, rounded toward
/// negative infinity, matching the mathematical division of the
/// specification language.
pub fn floor_div(a: i64, b: i64) -> (r: i64)
    requires
        0 < b <= 0x1_0000_0000_0000,
        -0x4000_0000_0000_0000 <= a <= 0x4000_0000_0000_0000,
    ensures
        r == a as int / b as int,
{
    if a >= 0 {
        a / b
    } else {
        let m = -a;
        let q = (m + b - 1) / b;
        proof {
            assert(q == (m + b - 1) as int / (b as int));
            vstd::arithmetic::div_mod::lemma_fundamental_div_mod(m + b - 1, b as int);
            let s = (m + b - 1) % (b as int);
            assert(a as int == (-(q as int)) * (b as int) + (b - 1 - s)) by (nonlinear_arith)
                requires
                    m + b - 1 == q * b + s && a == -m,
            ;
            vstd::arithmetic::div_mod::lemma_fundamental_div_mod_converse_div(
                a as int,
                b as int,
                -(q as int),
                b - 1 - s,
            );
        }
        -q
    }
}

/// A point in native table coordinates (milli-VPU, origin at the top
/// left, y growing downward).
#[derive(Clone, Copy, PartialEq, Eq, Structural, Debug)]
pub struct NativePoint {
    pub x: i64,
    pub y: i64,
}

/// A point in simulation coordinates (micrometres, origin at the table
/// centre, y growing upward).
#[derive(Clone, Copy, PartialEq, Eq, Structural, Debug)]
pub struct SimPoint {
    pub x: i64,
    pub y: i64,
}

/// The table's declared extents in native milli-VPU.
#[derive(Clone, Copy, PartialEq, Eq, Structural, Debug)]
pub struct TableBounds {
    pub left: i64,
    pub top: i64,
    pub right: i64,
    pub bottom: i64,
}

impl TableBounds {
    /// Bounds describe a real table: positive extent both ways, within
    /// the range the conversions accept.
    pub open spec fn well_formed(self) -> bool {
        &&& -MAX_COORD < self.left < self.right < MAX_COORD
        &&& -MAX_COORD < self.top < self.bottom < MAX_COORD
    }

    /// The midpoint of the bounds, rounded toward negative infinity.
    pub open spec fn center_spec(self) -> NativePoint {
        NativePoint {
            x: floor_half_spec(self.left + self.right) as i64,
            y: floor_half_spec(self.top + self.bottom) as i64,
        }
    }

    /// The table's width in native milli-VPU.
    pub open spec fn width_spec(self) -> int {
        self.right - self.left
    }

    /// The table's depth in native milli-VPU.
    pub open spec fn depth_spec(self) -> int {
        self.bottom - self.top
    }

    /// Computes the midpoint of the bounds.
    pub fn center(&self) -> (c: NativePoint)
        requires
            self.well_formed(),
        ensures
            c == self.center_spec(),
            -MAX_COORD <= c.x <= MAX_COORD,
            -MAX_COORD <= c.y <= MAX_COORD,
    {
        NativePoint { x: floor_half(self.left + self.right), y: floor_half(self.top + self.bottom) }
    }

    /// The table's width in native milli-VPU.
    pub fn width(&self) -> (w: i64)
        requires
            self.well_formed(),
        ensures
            w == self.width_spec(),
            0 < w < 2 * MAX_COORD,
    {
        self.right - self.left
    }

    /// The table's depth in native milli-VPU.
    pub fn depth(&self) -> (d: i64)
        requires
            self.well_formed(),
        ensures
            d == self.depth_spec(),
            0 < d < 2 * MAX_COORD,
    {
        self.bottom - self.top
    }
}

/// Half of a value, rounded toward negative infinity.
pub open spec fn floor_half_spec(v: int) -> int {
    if v >= 0 {
        v / 2
    } else {
        -(((-v) + 1) / 2)
    }
}

/// Computes half of a value, rounded toward negative infinity.
pub fn floor_half(v: i64) -> (r: i64)
    requires
        i64::MIN + 1 < v,
    ensures
        r == floor_half_spec(v as int),
{
    if v >= 0 {
        v / 2
    } else {
        let p = -v;
        -((p + 1) / 2)
    }
}

/// Where a native point lands in simulation space: translated so the
/// centre of the bounds becomes the origin, y flipped, then scaled to
/// micrometres.
pub open spec fn to_sim_spec(p: NativePoint, bounds: TableBounds) -> SimPoint {
    SimPoint {
        x: mvpu_to_um_spec(p.x - bounds.center_spec().x) as i64,
        y: mvpu_to_um_spec(bounds.center_spec().y - p.y) as i64,
    }
}

/// Applies the table-to-simulation transform to a native point.
pub fn to_sim(p: NativePoint, bounds: TableBounds) -> (s: SimPoint)
    requires
        bounds.well_formed(),
        -MAX_COORD <= p.x <= MAX_COORD,
        -MAX_COORD <= p.y <= MAX_COORD,
    ensures
        s == to_sim_spec(p, bounds),
        -2 * MAX_COORD <= s.x <= 2 * MAX_COORD,
        -2 * MAX_COORD <= s.y <= 2 * MAX_COORD,
{
    let c = bounds.center();
    SimPoint { x: mvpu_to_um(p.x - c.x), y: mvpu_to_um(c.y - p.y) }
}

/// The table-to-simulation transform sends the midpoint of the
/// declared bounds to the simulation origin.
pub proof fn lemma_center_maps_to_origin(bounds: TableBounds)
    requires
        bounds.well_formed(),
    ensures
        to_sim_spec(bounds.center_spec(), bounds) == (SimPoint { x: 0, y: 0 }),
{
}

} // verus!
