//! The zodiac: the circle cut into equal, named sectors.

use crate::units::{normalize, Angle, FULL_TURN};
use vstd::prelude::*;

verus! {

/// The sector that holds `angle` when the circle is cut into `count` equal
/// sectors, numbered from zero at zero degrees: the angle is brought into
/// one turn and divided by the sector's width, rounding down.
pub open spec fn sector_index(angle: Angle, count: int) -> int {
    (angle.normalized().microdegrees * count) / (FULL_TURN as int)
}

/// The least whole number of microdegrees that lies in sector `i` or above,
/// of `count` equal sectors: `i * 360 / count` degrees, rounded up to a
/// microdegree.
pub open spec fn sector_start(i: int, count: int) -> int {
    (i * FULL_TURN + count - 1) / count
}

/// `x / d` is at least `i` exactly when `x` is at least `i * d`.
proof fn lemma_floor_at_least(x: int, d: int, i: int)
    requires
        d > 0,
    ensures
        (x / d >= i) <==> (x >= i * d),
{
    vstd::arithmetic::div_mod::lemma_fundamental_div_mod(x, d);
    vstd::arithmetic::div_mod::lemma_mod_bound(x, d);
    let q = x / d;
    assert(x == d * q + x % d);
    if q >= i {
        assert(d * q >= d * i) by (nonlinear_arith)
            requires
                d > 0,
                q >= i,
        ;
        assert(d * i == i * d) by (nonlinear_arith);
    } else {
        assert(d * (q + 1) <= d * i) by (nonlinear_arith)
            requires
                d > 0,
                q + 1 <= i,
        ;
        assert(d * (q + 1) == d * q + d) by (nonlinear_arith);
        assert(d * i == i * d) by (nonlinear_arith);
    }
}

/// A whole number is at least `y / n` rounded up exactly when `n` times it
/// is at least `y`.
proof fn lemma_ceil_at_most(y: int, n: int, a: int)
    requires
        n > 0,
    ensures
        ((y + n - 1) / n <= a) <==> (y <= a * n),
{
    // (y + n - 1) / n <= a  <==>  !((y + n - 1) / n >= a + 1)
    //                       <==>  !(y + n - 1 >= (a + 1) * n)
    lemma_floor_at_least(y + n - 1, n, a + 1);
    assert((a + 1) * n == a * n + n) by (nonlinear_arith);
}

/// Every angle falls in one of the `count` sectors.
pub proof fn lemma_sector_in_bounds(angle: Angle, count: int)
    requires
        count >= 1,
    ensures
        0 <= sector_index(angle, count) < count,
{
    let a = angle.normalized().microdegrees as int;
    let t = FULL_TURN as int;
    assert(0 <= a < t);
    lemma_floor_at_least(a * count, t, 0);
    lemma_floor_at_least(a * count, t, count);
    assert(a * count >= 0) by (nonlinear_arith)
        requires
            a >= 0,
            count >= 1,
    ;
    assert(a * count < count * t) by (nonlinear_arith)
        requires
            0 <= a < t,
            count >= 1,
    ;
}

/// Turning an angle by a full circle leaves it in the same sector.
pub proof fn lemma_sector_periodic(a: Angle, b: Angle, count: int)
    requires
        b.microdegrees == a.microdegrees + FULL_TURN,
    ensures
        sector_index(a, count) == sector_index(b, count),
{
    crate::units::lemma_normalize_periodic(a, b);
}

/// The sectors' starts climb from zero degrees to the full turn.
pub proof fn lemma_sector_start_monotonic(i: int, j: int, count: int)
    requires
        count >= 1,
        0 <= i <= j,
    ensures
        sector_start(0, count) == 0,
        sector_start(count, count) == FULL_TURN,
        0 <= sector_start(i, count) <= sector_start(j, count),
        j <= count ==> sector_start(j, count) <= FULL_TURN,
{
    let t = FULL_TURN as int;
    // start(0) == 0 and start(count) == t
    lemma_ceil_at_most(0, count, 0);
    lemma_ceil_at_most(0, count, -1);
    lemma_ceil_at_most(count * t, count, t);
    lemma_ceil_at_most(count * t, count, t - 1);
    assert(t * count == count * t) by (nonlinear_arith);
    assert((t - 1) * count == count * t - count) by (nonlinear_arith);
    assert(-1 * count == -count) by (nonlinear_arith);
    // 0 <= start(i)
    lemma_ceil_at_most(i * t, count, -1);
    assert(i * t >= 0) by (nonlinear_arith)
        requires
            i >= 0,
            t >= 0,
    ;
    // start(i) <= start(j)
    let sj = sector_start(j, count);
    lemma_ceil_at_most(j * t, count, sj);
    lemma_ceil_at_most(i * t, count, sj);
    assert(i * t <= j * t) by (nonlinear_arith)
        requires
            i <= j,
            t >= 0,
    ;
    if j <= count {
        lemma_ceil_at_most(j * t, count, t);
        assert(j * t <= t * count) by (nonlinear_arith)
            requires
                j <= count,
                t >= 0,
        ;
    }
}

/// The sectors cut the circle without gap or overlap: an angle within one
/// turn lies in sector `i` exactly when it is at or past that sector's start
/// and before the next one's.
pub proof fn lemma_sector_range(angle: Angle, i: int, count: int)
    requires
        count >= 1,
        angle.is_normal(),
    ensures
        sector_index(angle, count) == i <==> sector_start(i, count) <= angle.microdegrees
            < sector_start(i + 1, count),
{
    let a = angle.microdegrees as int;
    let t = FULL_TURN as int;
    assert(angle.normalized().microdegrees == a);
    lemma_floor_at_least(a * count, t, i);
    lemma_floor_at_least(a * count, t, i + 1);
    lemma_ceil_at_most(i * t, count, a);
    lemma_ceil_at_most((i + 1) * t, count, a);
}

/// Each sector is as wide as the turn divided by the number of sectors:
/// exactly where that is a whole number of microdegrees, and otherwise that
/// width rounded down or up.
pub proof fn lemma_sector_width(i: int, count: int)
    requires
        count >= 1,
    ensures
        FULL_TURN as int / count <= sector_start(i + 1, count) - sector_start(i, count)
            <= FULL_TURN as int / count + 1,
        FULL_TURN as int % count == 0 ==> sector_start(i + 1, count) - sector_start(i, count)
            == FULL_TURN as int / count,
{
    let t = FULL_TURN as int;
    let w = t / count;
    let r = t % count;
    vstd::arithmetic::div_mod::lemma_fundamental_div_mod(t, count);
    vstd::arithmetic::div_mod::lemma_mod_bound(t, count);
    assert(t == count * w + r);
    let s0 = sector_start(i, count);
    let s1 = sector_start(i + 1, count);
    assert((i + 1) * t == i * t + t) by (nonlinear_arith);
    // s1 >= s0 + w: every whole number below s0 + w is below s1
    lemma_ceil_at_most(i * t, count, s0 - 1);
    lemma_ceil_at_most((i + 1) * t, count, s0 + w - 1);
    assert((s0 + w - 1) * count == (s0 - 1) * count + count * w) by (nonlinear_arith);
    // s1 <= s0 + w + 1, and s1 <= s0 + w where count divides the turn
    lemma_ceil_at_most(i * t, count, s0);
    lemma_ceil_at_most((i + 1) * t, count, s0 + w + 1);
    lemma_ceil_at_most((i + 1) * t, count, s0 + w);
    assert((s0 + w + 1) * count == s0 * count + count * w + count) by (nonlinear_arith);
    assert((s0 + w) * count == s0 * count + count * w) by (nonlinear_arith);
}

/// The zodiac names the same sector for two angles a whole turn apart.
pub proof fn lemma_sign_periodic(zodiac: &Zodiac, a: Angle, b: Angle, sign_a: &String, sign_b: &String)
    requires
        b.microdegrees == a.microdegrees + FULL_TURN,
        call_ensures(Zodiac::get_sign, (zodiac, a), sign_a),
        call_ensures(Zodiac::get_sign, (zodiac, b), sign_b),
    ensures
        sign_a@ == sign_b@,
{
    lemma_sector_periodic(a, b, zodiac@.len() as int);
}

/// The named sectors of the circle, in order from zero degrees. There is
/// always at least one.
pub struct Zodiac {
    signs: Vec<String>,
}

impl View for Zodiac {
    type V = Seq<Seq<char>>;

    /// The sectors' names, in order.
    closed spec fn view(&self) -> Seq<Seq<char>> {
        Seq::new(self.signs@.len(), |i: int| self.signs@[i]@)
    }
}

impl Zodiac {
    #[verifier::type_invariant]
    spec fn inv(&self) -> bool {
        self.signs@.len() >= 1
    }

    /// Whether sector `i` is the first that is named exactly `sign`.
    pub open spec fn first_named(&self, sign: Seq<char>, i: int) -> bool {
        &&& 0 <= i < self@.len()
        &&& self@[i] == sign
        &&& forall|j: int| 0 <= j < i ==> self@[j] != sign
    }

    /// The arc of sector `i`: from its start up to, and not including, the
    /// start of the next sector, or the full turn after the last.
    pub open spec fn arc(&self, i: int) -> (Angle, Angle) {
        (
            Angle { microdegrees: sector_start(i, self@.len() as int) as i64 },
            Angle { microdegrees: sector_start(i + 1, self@.len() as int) as i64 },
        )
    }

    /// At most one sector is the first of a given name.
    pub proof fn lemma_first_named_unique(&self, sign: Seq<char>, i: int, j: int)
        requires
            self.first_named(sign, i),
            self.first_named(sign, j),
        ensures
            i == j,
    {
    }

    /// The zodiac of the given sectors, the first starting at zero degrees.
    pub fn new(signs: Vec<String>) -> (z: Zodiac)
        requires
            signs@.len() >= 1,
        ensures
            z@.len() == signs@.len(),
            forall|i: int| 0 <= i < signs@.len() ==> z@[i] == signs@[i]@,
    {
        Zodiac { signs }
    }

    /// The sector that `angle` falls in, counted from zero.
    fn angle_to_index(&self, angle: Angle) -> (idx: usize)
        ensures
            idx == sector_index(angle, self@.len() as int),
            idx < self@.len(),
    {
        proof {
            use_type_invariant(self);
            lemma_sector_in_bounds(angle, self@.len() as int);
        }
        let a: u128 = normalize(angle).microdegrees as u128;
        let n: u128 = self.signs.len() as u128;
        assert(a * n <= 360_000_000 * 0x1_0000_0000_0000_0000) by (nonlinear_arith)
            requires
                a <= 360_000_000,
                n <= 0x1_0000_0000_0000_0000,
        ;
        let idx: u128 = (a * n) / (FULL_TURN as u128);
        idx as usize
    }

    /// Where sector `idx` starts; for `idx` one past the last sector, the
    /// full turn.
    fn index_to_angle(&self, idx: usize) -> (start: Angle)
        requires
            idx <= self@.len(),
        ensures
            start.microdegrees == sector_start(idx as int, self@.len() as int),
    {
        proof {
            use_type_invariant(self);
            lemma_sector_start_monotonic(idx as int, idx as int, self@.len() as int);
        }
        let n: u128 = self.signs.len() as u128;
        let i: u128 = idx as u128;
        assert(i * 360_000_000 <= 0x1_0000_0000_0000_0000 * 360_000_000) by (nonlinear_arith)
            requires
                i <= 0x1_0000_0000_0000_0000,
        ;
        let start: u128 = (i * (FULL_TURN as u128) + (n - 1)) / n;
        Angle { microdegrees: start as i64 }
    }

    /// Where each sector starts, in order.
    pub fn angles(&self) -> (starts: Vec<Angle>)
        ensures
            starts@.len() == self@.len(),
            forall|i: int|
                0 <= i < self@.len() ==> (#[trigger] starts@[i]).microdegrees == sector_start(
                    i,
                    self@.len() as int,
                ),
    {
        let mut angles: Vec<Angle> = Vec::new();
        let n: usize = self.signs.len();
        let mut i: usize = 0;
        while i < n
            invariant
                n == self@.len(),
                i <= n,
                angles@.len() == i,
                forall|k: int|
                    0 <= k < i ==> (#[trigger] angles@[k]).microdegrees == sector_start(
                        k,
                        self@.len() as int,
                    ),
            decreases n - i,
        {
            let start = self.index_to_angle(i);
            angles.push(start);
            i += 1;
        }
        angles
    }

    /// The name of the sector that `angle` falls in.
    pub fn get_sign(&self, angle: Angle) -> (sign: &String)
        ensures
            0 <= sector_index(angle, self@.len() as int) < self@.len(),
            sign@ == self@[sector_index(angle, self@.len() as int)],
    {
        let idx = self.angle_to_index(angle);
        &self.signs[idx]
    }

    /// The arc of the first sector named exactly `sign`: its start, and the
    /// start of the sector after it (the full turn after the last one).
    /// `None` if no sector has that name.
    pub fn get_angle_range(&self, sign: String) -> (range: Option<(Angle, Angle)>)
        ensures
            range is Some <==> self@.contains(sign@),
            range matches Some(arc) ==> exists|i: int| #[trigger] self.first_named(sign@, i) && arc == self.arc(i),
    {
        let n: usize = self.signs.len();
        let mut i: usize = 0;
        while i < n
            invariant
                n == self@.len(),
                i <= n,
                forall|j: int| 0 <= j < i ==> self@[j] != sign@,
            decreases n - i,
        {
            if sign == self.signs[i] {
                let start = self.index_to_angle(i);
                let end = self.index_to_angle(i + 1);
                assert(self.first_named(sign@, i as int));
                return Some((start, end));
            }
            i += 1;
        }
        None
    }
}

} // verus!
