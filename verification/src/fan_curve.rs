//! Temperature-to-speed fan curve.
//!
//! A curve is an ordered list of at least two calibration knots with
//! strictly increasing temperatures. Sampling interpolates linearly between
//! the two knots surrounding the requested temperature and clamps to the
//! boundary knot's speed outside the calibrated range, so the output never
//! leaves the calibrated envelope.

use vstd::arithmetic::div_mod::lemma_div_by_multiple;
use vstd::arithmetic::div_mod::lemma_div_is_ordered;
use vstd::arithmetic::div_mod::lemma_div_pos_is_pos;
use vstd::arithmetic::mul::lemma_mul_inequality;
use vstd::arithmetic::mul::lemma_mul_is_commutative;
use vstd::arithmetic::mul::lemma_mul_nonnegative;
use vstd::arithmetic::mul::lemma_mul_upper_bound;
use vstd::prelude::*;

use crate::decode::fan;
use crate::decode::fan::Power;
use crate::units::Ratio;
use crate::units::ThermodynamicTemperature;

verus! {

/// A fan curve error.
#[derive(Clone, Copy, Debug, PartialEq, Eq, Structural)]
pub enum Error {
    /// The knots cannot form a curve: fewer than two, or temperatures not
    /// strictly increasing.
    SplineError,
    /// A knot's speed was rejected.
    FanDecodeError(fan::Error),
}

/// A calibration knot: the speed the fan should run at a temperature.
#[derive(Clone, Copy, Debug, PartialEq, Eq, Structural)]
pub struct Knot {
    pub temperature: ThermodynamicTemperature,
    pub speed: Ratio,
}

/// A calibrated, immutable fan curve.
pub struct FanCurve {
    knots: Vec<Knot>,
}

/// Whether the knot temperatures are strictly increasing.
pub open spec fn spec_temps_strictly_increasing(knots: Seq<Knot>) -> bool {
    forall|i: int, j: int|
        #![trigger knots[i], knots[j]]
        0 <= i < j < knots.len() ==> knots[i].temperature.tenths_of_degree
            < knots[j].temperature.tenths_of_degree
}

/// Whether every knot speed lies in [0%, 100%].
pub open spec fn spec_speeds_valid(knots: Seq<Knot>) -> bool {
    forall|i: int|
        #![trigger knots[i]]
        0 <= i < knots.len() ==> 0 <= knots[i].speed.tenths_of_percent <= 1000
}

/// Whether the knot speeds never decrease as temperature rises.
pub open spec fn spec_speeds_non_decreasing(knots: Seq<Knot>) -> bool {
    forall|i: int, j: int|
        #![trigger knots[i], knots[j]]
        0 <= i < j < knots.len() ==> knots[i].speed.tenths_of_percent
            <= knots[j].speed.tenths_of_percent
}

/// Whether a knot list forms a valid curve.
pub open spec fn spec_wf(knots: Seq<Knot>) -> bool {
    &&& knots.len() >= 2
    &&& spec_temps_strictly_increasing(knots)
    &&& spec_speeds_valid(knots)
}

/// Linear interpolation between two knots at a temperature (in tenths of a
/// degree), in tenths of a percent, rounded toward the left knot's speed.
pub open spec fn spec_interpolate(k0: Knot, k1: Knot, t: int) -> int
    recommends
        k0.temperature.tenths_of_degree < k1.temperature.tenths_of_degree,
{
    let t0 = k0.temperature.tenths_of_degree as int;
    let t1 = k1.temperature.tenths_of_degree as int;
    let s0 = k0.speed.tenths_of_percent as int;
    let s1 = k1.speed.tenths_of_percent as int;
    if s1 >= s0 {
        s0 + (t - t0) * (s1 - s0) / (t1 - t0)
    } else {
        s0 - (t - t0) * (s0 - s1) / (t1 - t0)
    }
}

/// The speed sampled from a knot list at a temperature (both in tenths):
/// the first knot's speed at or below the first knot's temperature, the
/// last knot's speed above the last knot's temperature, and linear
/// interpolation in between.
pub open spec fn spec_sample(knots: Seq<Knot>, t: int) -> int
    decreases knots.len(),
{
    if knots.len() == 0 {
        0
    } else if knots.len() == 1 {
        knots[0].speed.tenths_of_percent as int
    } else if t <= knots[0].temperature.tenths_of_degree {
        knots[0].speed.tenths_of_percent as int
    } else if t <= knots[1].temperature.tenths_of_degree {
        spec_interpolate(knots[0], knots[1], t)
    } else {
        spec_sample(knots.skip(1), t)
    }
}

/// Dropping the first knot preserves the orderings of the rest.
proof fn lemma_skip_one(knots: Seq<Knot>)
    requires
        knots.len() >= 1,
    ensures
        spec_temps_strictly_increasing(knots) ==> spec_temps_strictly_increasing(knots.skip(1)),
        spec_speeds_valid(knots) ==> spec_speeds_valid(knots.skip(1)),
        spec_speeds_non_decreasing(knots) ==> spec_speeds_non_decreasing(knots.skip(1)),
{
    let rest = knots.skip(1);
    if spec_temps_strictly_increasing(knots) {
        assert forall|i: int, j: int|
            #![trigger rest[i], rest[j]]
            0 <= i < j < rest.len() implies rest[i].temperature.tenths_of_degree
            < rest[j].temperature.tenths_of_degree by {
            assert(rest[i] == knots[i + 1]);
            assert(rest[j] == knots[j + 1]);
        }
    }
    if spec_speeds_valid(knots) {
        assert forall|i: int| #![trigger rest[i]] 0 <= i < rest.len() implies 0
            <= rest[i].speed.tenths_of_percent <= 1000 by {
            assert(rest[i] == knots[i + 1]);
        }
    }
    if spec_speeds_non_decreasing(knots) {
        assert forall|i: int, j: int|
            #![trigger rest[i], rest[j]]
            0 <= i < j < rest.len() implies rest[i].speed.tenths_of_percent
            <= rest[j].speed.tenths_of_percent by {
            assert(rest[i] == knots[i + 1]);
            assert(rest[j] == knots[j + 1]);
        }
    }
}

/// The interpolated speed stays between the two knot speeds.
proof fn lemma_interpolate_in_range(k0: Knot, k1: Knot, t: int)
    requires
        k0.temperature.tenths_of_degree < k1.temperature.tenths_of_degree,
        k0.temperature.tenths_of_degree < t <= k1.temperature.tenths_of_degree,
    ensures
        k1.speed.tenths_of_percent >= k0.speed.tenths_of_percent ==> k0.speed.tenths_of_percent
            <= spec_interpolate(k0, k1, t) <= k1.speed.tenths_of_percent,
        k1.speed.tenths_of_percent < k0.speed.tenths_of_percent ==> k1.speed.tenths_of_percent
            <= spec_interpolate(k0, k1, t) <= k0.speed.tenths_of_percent,
{
    let t0 = k0.temperature.tenths_of_degree as int;
    let t1 = k1.temperature.tenths_of_degree as int;
    let s0 = k0.speed.tenths_of_percent as int;
    let s1 = k1.speed.tenths_of_percent as int;
    if s1 >= s0 {
        lemma_mul_nonnegative(t - t0, s1 - s0);
        lemma_div_pos_is_pos((t - t0) * (s1 - s0), t1 - t0);
        lemma_mul_inequality(t - t0, t1 - t0, s1 - s0);
        lemma_div_is_ordered((t - t0) * (s1 - s0), (t1 - t0) * (s1 - s0), t1 - t0);
        lemma_mul_is_commutative(t1 - t0, s1 - s0);
        lemma_div_by_multiple(s1 - s0, t1 - t0);
    } else {
        lemma_mul_nonnegative(t - t0, s0 - s1);
        lemma_div_pos_is_pos((t - t0) * (s0 - s1), t1 - t0);
        lemma_mul_inequality(t - t0, t1 - t0, s0 - s1);
        lemma_div_is_ordered((t - t0) * (s0 - s1), (t1 - t0) * (s0 - s1), t1 - t0);
        lemma_mul_is_commutative(t1 - t0, s0 - s1);
        lemma_div_by_multiple(s0 - s1, t1 - t0);
    }
}

/// Within one segment, interpolation never decreases as the temperature
/// rises, provided the right knot's speed is at least the left knot's.
proof fn lemma_interpolate_monotonic(k0: Knot, k1: Knot, ta: int, tb: int)
    requires
        k0.temperature.tenths_of_degree < k1.temperature.tenths_of_degree,
        k0.speed.tenths_of_percent <= k1.speed.tenths_of_percent,
        k0.temperature.tenths_of_degree < ta <= tb <= k1.temperature.tenths_of_degree,
    ensures
        spec_interpolate(k0, k1, ta) <= spec_interpolate(k0, k1, tb),
{
    let t0 = k0.temperature.tenths_of_degree as int;
    let t1 = k1.temperature.tenths_of_degree as int;
    let s0 = k0.speed.tenths_of_percent as int;
    let s1 = k1.speed.tenths_of_percent as int;
    lemma_mul_inequality(ta - t0, tb - t0, s1 - s0);
    lemma_div_is_ordered((ta - t0) * (s1 - s0), (tb - t0) * (s1 - s0), t1 - t0);
}

/// Every sampled speed lies in [0%, 100%] when the knots are valid: the
/// curve's output never leaves the calibrated envelope.
pub proof fn lemma_sample_in_range(knots: Seq<Knot>, t: int)
    requires
        knots.len() >= 1,
        spec_temps_strictly_increasing(knots),
        spec_speeds_valid(knots),
    ensures
        0 <= spec_sample(knots, t) <= 1000,
    decreases knots.len(),
{
    if knots.len() == 1 || t <= knots[0].temperature.tenths_of_degree {
    } else if t <= knots[1].temperature.tenths_of_degree {
        lemma_interpolate_in_range(knots[0], knots[1], t);
    } else {
        lemma_skip_one(knots);
        lemma_sample_in_range(knots.skip(1), t);
    }
}

/// When speeds never decrease, no sample falls below the first knot's
/// speed.
proof fn lemma_sample_lower_bound(knots: Seq<Knot>, t: int)
    requires
        knots.len() >= 1,
        spec_temps_strictly_increasing(knots),
        spec_speeds_non_decreasing(knots),
    ensures
        spec_sample(knots, t) >= knots[0].speed.tenths_of_percent,
    decreases knots.len(),
{
    if knots.len() == 1 || t <= knots[0].temperature.tenths_of_degree {
    } else if t <= knots[1].temperature.tenths_of_degree {
        lemma_interpolate_in_range(knots[0], knots[1], t);
    } else {
        lemma_skip_one(knots);
        lemma_sample_lower_bound(knots.skip(1), t);
        assert(knots.skip(1)[0] == knots[1]);
    }
}

/// Sampling is monotonic: when the knot speeds never decrease with
/// temperature, a warmer temperature never asks for a slower fan.
pub proof fn lemma_sample_monotonic(knots: Seq<Knot>, ta: int, tb: int)
    requires
        knots.len() >= 1,
        spec_temps_strictly_increasing(knots),
        spec_speeds_non_decreasing(knots),
        ta <= tb,
    ensures
        spec_sample(knots, ta) <= spec_sample(knots, tb),
    decreases knots.len(),
{
    if knots.len() == 1 {
    } else if tb <= knots[0].temperature.tenths_of_degree {
    } else if ta <= knots[0].temperature.tenths_of_degree {
        // sample(ta) is the first knot's speed; sample(tb) is at least it.
        lemma_sample_lower_bound(knots, tb);
    } else if tb <= knots[1].temperature.tenths_of_degree {
        lemma_interpolate_monotonic(knots[0], knots[1], ta, tb);
    } else if ta <= knots[1].temperature.tenths_of_degree {
        // sample(ta) stays at or below the second knot's speed, and the
        // remaining knots never fall below that speed.
        lemma_interpolate_in_range(knots[0], knots[1], ta);
        lemma_skip_one(knots);
        lemma_sample_lower_bound(knots.skip(1), tb);
        assert(knots.skip(1)[0] == knots[1]);
    } else {
        lemma_skip_one(knots);
        lemma_sample_monotonic(knots.skip(1), ta, tb);
    }
}

/// Outside the calibrated range the sample clamps to the boundary knot's
/// speed: no extrapolation.
pub proof fn lemma_sample_clamps(knots: Seq<Knot>, t: int)
    requires
        knots.len() >= 1,
        spec_temps_strictly_increasing(knots),
    ensures
        t <= knots[0].temperature.tenths_of_degree ==> spec_sample(knots, t)
            == knots[0].speed.tenths_of_percent,
        t >= knots.last().temperature.tenths_of_degree ==> spec_sample(knots, t)
            == knots.last().speed.tenths_of_percent,
    decreases knots.len(),
{
    if knots.len() == 1 {
    } else if t >= knots.last().temperature.tenths_of_degree {
        if t <= knots[1].temperature.tenths_of_degree {
            // The last knot can only be the second one, and t must equal
            // its temperature; interpolation is exact there.
            if knots.len() > 2 {
                assert(knots[1].temperature.tenths_of_degree < knots[knots.len()
                    - 1].temperature.tenths_of_degree);
                assert(false);
            }
            let t0 = knots[0].temperature.tenths_of_degree as int;
            let t1 = knots[1].temperature.tenths_of_degree as int;
            let s0 = knots[0].speed.tenths_of_percent as int;
            let s1 = knots[1].speed.tenths_of_percent as int;
            assert(t == t1);
            if s1 >= s0 {
                lemma_mul_is_commutative(t1 - t0, s1 - s0);
                lemma_div_by_multiple(s1 - s0, t1 - t0);
            } else {
                lemma_mul_is_commutative(t1 - t0, s0 - s1);
                lemma_div_by_multiple(s0 - s1, t1 - t0);
            }
        } else {
            lemma_skip_one(knots);
            lemma_sample_clamps(knots.skip(1), t);
            assert(knots.skip(1).last() == knots.last());
        }
    }
}

/// Dropping leading knots that lie strictly below the temperature does not
/// change the sample.
proof fn lemma_sample_skip(knots: Seq<Knot>, i: int, t: int)
    requires
        0 <= i < knots.len(),
        spec_temps_strictly_increasing(knots),
        t > knots[i].temperature.tenths_of_degree,
    ensures
        spec_sample(knots, t) == spec_sample(knots.skip(i), t),
    decreases i,
{
    if i == 0 {
        assert(knots.skip(0) =~= knots);
    } else {
        assert(knots.skip(1)[i - 1] == knots[i]);
        lemma_skip_one(knots);
        lemma_sample_skip(knots.skip(1), i - 1, t);
        assert(knots.skip(1).skip(i - 1) =~= knots.skip(i));
    }
}

/// Whether every speed in a knot list passes validation; mirrors the scan
/// in [`FanCurve::from_knots`].
pub open spec fn spec_validate_speeds(knots: Seq<Knot>) -> Result<(), Error>
    decreases knots.len(),
{
    if knots.len() == 0 {
        Ok(())
    } else if !(0 <= knots[0].speed.tenths_of_percent <= 1000) {
        Err(Error::FanDecodeError(fan::Error::InvalidPower(knots[0].speed.tenths_of_percent)))
    } else {
        spec_validate_speeds(knots.skip(1))
    }
}

/// The speed scan succeeds exactly when every speed is valid.
pub proof fn lemma_validate_speeds_ok(knots: Seq<Knot>)
    ensures
        spec_validate_speeds(knots) is Ok <==> spec_speeds_valid(knots),
    decreases knots.len(),
{
    if knots.len() > 0 {
        lemma_validate_speeds_ok(knots.skip(1));
        if spec_validate_speeds(knots) is Ok {
            assert forall|i: int| #![trigger knots[i]] 0 <= i < knots.len() implies 0
                <= knots[i].speed.tenths_of_percent <= 1000 by {
                if i > 0 {
                    assert(knots.skip(1)[i - 1] == knots[i]);
                }
            }
        }
        if spec_speeds_valid(knots) {
            lemma_skip_one(knots);
        }
    }
}

/// What building a curve from a knot list yields: the speeds are validated
/// first, then the shape of the list.
pub open spec fn spec_from_knots(knots: Seq<Knot>) -> Result<Seq<Knot>, Error> {
    match spec_validate_speeds(knots) {
        Err(e) => Err(e),
        Ok(_) => if !(knots.len() >= 2 && spec_temps_strictly_increasing(knots)) {
            Err(Error::SplineError)
        } else {
            Ok(knots)
        },
    }
}

/// The default calibration: 30% at 20.0 °C rising to 100% at 65.0 °C.
pub open spec fn spec_default_knots() -> Seq<Knot> {
    seq![
        Knot {
            temperature: ThermodynamicTemperature { tenths_of_degree: 200 },
            speed: Ratio { tenths_of_percent: 300 },
        },
        Knot {
            temperature: ThermodynamicTemperature { tenths_of_degree: 650 },
            speed: Ratio { tenths_of_percent: 1000 },
        },
    ]
}

/// The default knot list is a well-formed curve.
proof fn lemma_default_knots_wf()
    ensures
        spec_wf(spec_default_knots()),
{
    let ks = spec_default_knots();
    assert forall|i: int, j: int|
        #![trigger ks[i], ks[j]]
        0 <= i < j < ks.len() implies ks[i].temperature.tenths_of_degree
        < ks[j].temperature.tenths_of_degree by {
        assert(i == 0 && j == 1);
    }
    assert forall|i: int| #![trigger ks[i]] 0 <= i < ks.len() implies 0
        <= ks[i].speed.tenths_of_percent <= 1000 by {
        assert(i == 0 || i == 1);
    }
}

impl View for FanCurve {
    type V = Seq<Knot>;

    closed spec fn view(&self) -> Seq<Knot> {
        self.knots@
    }
}

impl FanCurve {
    /// Whether the curve is well formed; every constructor establishes
    /// this.
    pub open spec fn wf(self) -> bool {
        spec_wf(self@)
    }

    /// Builds the default curve.
    pub fn new() -> (r: Result<FanCurve, Error>)
        ensures
            match r {
                Ok(c) => c@ == spec_default_knots() && c.wf(),
                Err(_) => false,
            },
    {
        let knots = Self::default_curve();
        proof {
            lemma_default_knots_wf();
            lemma_validate_speeds_ok(spec_default_knots());
        }
        Self::from_knots(knots)
    }

    /// The default calibration knots.
    fn default_curve() -> (r: Vec<Knot>)
        ensures
            r@ == spec_default_knots(),
    {
        let mut knots: Vec<Knot> = Vec::new();
        knots.push(
            Knot {
                temperature: ThermodynamicTemperature { tenths_of_degree: 200 },
                speed: Ratio { tenths_of_percent: 300 },
            },
        );
        knots.push(
            Knot {
                temperature: ThermodynamicTemperature { tenths_of_degree: 650 },
                speed: Ratio { tenths_of_percent: 1000 },
            },
        );
        proof {
            assert(knots@ =~= spec_default_knots());
        }
        knots
    }

    /// Builds a curve from calibration knots: every speed must lie in
    /// [0%, 100%], and there must be at least two knots with strictly
    /// increasing temperatures.
    pub fn from_knots(knots: Vec<Knot>) -> (r: Result<FanCurve, Error>)
        ensures
            match r {
                Ok(c) => c@ == knots@ && c.wf() && spec_from_knots(knots@) == Ok::<
                    Seq<Knot>,
                    Error,
                >(knots@),
                Err(e) => spec_from_knots(knots@) == Err::<Seq<Knot>, Error>(e),
            },
    {
        let n = knots.len();

        proof {
            assert(knots@.skip(0) =~= knots@);
        }
        let mut i: usize = 0;
        while i < n
            invariant
                0 <= i <= n,
                n == knots@.len(),
                spec_validate_speeds(knots@) == spec_validate_speeds(knots@.skip(i as int)),
            decreases n - i,
        {
            proof {
                assert(knots@.skip(i as int)[0] == knots@[i as int]);
            }
            let speed = knots[i].speed.tenths_of_percent;
            if speed < 0 || speed > 1000 {
                return Err(Error::FanDecodeError(fan::Error::InvalidPower(speed)));
            }
            proof {
                assert(knots@.skip(i as int).skip(1) =~= knots@.skip(i as int + 1));
            }
            i = i + 1;
        }
        proof {
            assert(knots@.skip(n as int) =~= Seq::<Knot>::empty());
            lemma_validate_speeds_ok(knots@);
        }

        if n < 2 {
            return Err(Error::SplineError);
        }

        let mut i: usize = 0;
        while i + 1 < n
            invariant
                0 <= i < n,
                n == knots@.len(),
                n >= 2,
                spec_validate_speeds(knots@) is Ok,
                spec_speeds_valid(knots@),
                forall|j: int|
                    #![trigger knots@[j]]
                    0 <= j < i ==> knots@[j].temperature.tenths_of_degree < knots@[j
                        + 1].temperature.tenths_of_degree,
            decreases n - i,
        {
            if knots[i].temperature.tenths_of_degree >= knots[i + 1].temperature.tenths_of_degree {
                proof {
                    let ks = knots@;
                    let bad = i as int;
                    assert(!spec_temps_strictly_increasing(ks)) by {
                        if spec_temps_strictly_increasing(ks) {
                            assert(ks[bad].temperature.tenths_of_degree < ks[bad
                                + 1].temperature.tenths_of_degree);
                        }
                    }
                }
                return Err(Error::SplineError);
            }
            i = i + 1;
        }
        proof {
            assert forall|p: int, q: int|
                #![trigger knots@[p], knots@[q]]
                0 <= p < q < knots@.len() implies knots@[p].temperature.tenths_of_degree
                < knots@[q].temperature.tenths_of_degree by {
                lemma_adjacent_implies_increasing(knots@, p, q);
            }
        }

        Ok(FanCurve { knots })
    }

    /// Samples the curve: the target fan power for a temperature. Always
    /// succeeds on a well-formed curve, and the result is the clamped
    /// linear interpolation of the calibration knots.
    pub fn sample(&self, temp: ThermodynamicTemperature) -> (r: Result<Power, Error>)
        requires
            self.wf(),
        ensures
            match r {
                Ok(p) => p.spec_tenths_of_percent() == spec_sample(
                    self@,
                    temp.tenths_of_degree as int,
                ),
                Err(_) => false,
            },
    {
        let t = temp.tenths_of_degree;
        let n = self.knots.len();
        proof {
            lemma_sample_in_range(self@, t as int);
        }

        if t <= self.knots[0].temperature.tenths_of_degree {
            return Self::power_of(self.knots[0].speed);
        }

        let mut i: usize = 0;
        while i + 1 < n && self.knots[i + 1].temperature.tenths_of_degree < t
            invariant
                0 <= i < n,
                n == self@.len(),
                self.wf(),
                t == temp.tenths_of_degree,
                self@[i as int].temperature.tenths_of_degree < t,
            decreases n - i,
        {
            i = i + 1;
        }
        proof {
            lemma_sample_skip(self@, i as int, t as int);
        }

        if i + 1 == n {
            // Beyond the last knot: clamp to its speed.
            proof {
                assert(self@.skip(i as int).len() == 1);
                assert(self@.skip(i as int)[0] == self@[i as int]);
            }
            return Self::power_of(self.knots[i].speed);
        }

        let k0 = self.knots[i];
        let k1 = self.knots[i + 1];
        proof {
            assert(self@.skip(i as int)[0] == self@[i as int]);
            assert(self@.skip(i as int)[1] == self@[i as int + 1]);
        }
        let t0 = k0.temperature.tenths_of_degree;
        let t1 = k1.temperature.tenths_of_degree;
        let s0 = k0.speed.tenths_of_percent;
        let s1 = k1.speed.tenths_of_percent;

        let dt: u64 = (t as i32 - t0 as i32) as u64;
        let span: u64 = (t1 as i32 - t0 as i32) as u64;
        proof {
            lemma_mul_upper_bound(dt as int, 0xffff, 1000, 1000);
        }
        let value: i16 = if s1 >= s0 {
            let rise: u64 = (s1 as i32 - s0 as i32) as u64;
            proof {
                lemma_mul_upper_bound(dt as int, 0xffff, rise as int, 1000);
                lemma_mul_inequality(dt as int, span as int, rise as int);
                lemma_div_is_ordered(
                    (dt as int) * (rise as int),
                    (span as int) * (rise as int),
                    span as int,
                );
                lemma_mul_is_commutative(span as int, rise as int);
                lemma_div_by_multiple(rise as int, span as int);
                lemma_mul_nonnegative(dt as int, rise as int);
                lemma_div_pos_is_pos((dt as int) * (rise as int), span as int);
            }
            let q: u64 = dt * rise / span;
            s0 + (q as i16)
        } else {
            let fall: u64 = (s0 as i32 - s1 as i32) as u64;
            proof {
                lemma_mul_upper_bound(dt as int, 0xffff, fall as int, 1000);
                lemma_mul_inequality(dt as int, span as int, fall as int);
                lemma_div_is_ordered(
                    (dt as int) * (fall as int),
                    (span as int) * (fall as int),
                    span as int,
                );
                lemma_mul_is_commutative(span as int, fall as int);
                lemma_div_by_multiple(fall as int, span as int);
                lemma_mul_nonnegative(dt as int, fall as int);
                lemma_div_pos_is_pos((dt as int) * (fall as int), span as int);
            }
            let q: u64 = dt * fall / span;
            s0 - (q as i16)
        };
        Self::power_of(Ratio { tenths_of_percent: value })
    }

    /// Wraps a speed already known to lie in [0%, 100%].
    fn power_of(speed: Ratio) -> (r: Result<Power, Error>)
        requires
            0 <= speed.tenths_of_percent <= 1000,
        ensures
            match r {
                Ok(p) => p.spec_tenths_of_percent() == speed.tenths_of_percent,
                Err(_) => false,
            },
    {
        match Power::new(speed) {
            Ok(p) => Ok(p),
            Err(_) => {
                proof {
                    assert(false);
                }
                Err(Error::SplineError)
            },
        }
    }
}

/// Adjacent strict increase extends to any pair of indices.
proof fn lemma_adjacent_implies_increasing(knots: Seq<Knot>, p: int, q: int)
    requires
        0 <= p < q < knots.len(),
        forall|j: int|
            #![trigger knots[j]]
            0 <= j < knots.len() - 1 ==> knots[j].temperature.tenths_of_degree < knots[j
                + 1].temperature.tenths_of_degree,
    ensures
        knots[p].temperature.tenths_of_degree < knots[q].temperature.tenths_of_degree,
    decreases q - p,
{
    if q > p + 1 {
        lemma_adjacent_implies_increasing(knots, p, q - 1);
    }
}

impl Default for FanCurve {
    /// The default curve; equal to what [`FanCurve::new`] builds.
    fn default() -> (r: FanCurve)
        ensures
            r@ == spec_default_knots(),
            r.wf(),
    {
        let knots = FanCurve::default_curve();
        proof {
            lemma_default_knots_wf();
        }
        FanCurve { knots }
    }
}

} // verus!
