//! From factory readings to the transform that calibrates a wand.

use vstd::prelude::*;

use crate::controller::proto::zcm1::{GetCalibrationInner, Vector};
use crate::controller::Vector3;
use crate::ratio::{Quotient, Ratio};

verus! {

/// The linear transform that turns the raw readings of one wand into
/// physical values. It is made once, from the factory calibration, and holds
/// the readings that fix the transform: for each accelerometer axis the
/// reading at -1 g and at +1 g, for each gyroscope axis the reading at rest
/// and at the reference rate.
#[derive(Debug, Clone, Copy, PartialEq, Eq, Structural)]
pub struct Calibration {
    accel_min: Vector,
    accel_max: Vector,
    gyro_rest: Vector,
    gyro_full: Vector,
}

impl Calibration {
    /// The accelerometer readings at -1 g.
    pub closed spec fn accel_min(self) -> Vector {
        self.accel_min
    }

    /// The accelerometer readings at +1 g.
    pub closed spec fn accel_max(self) -> Vector {
        self.accel_max
    }

    /// The gyroscope readings at rest.
    pub closed spec fn gyro_rest(self) -> Vector {
        self.gyro_rest
    }

    /// The gyroscope readings at the reference rate.
    pub closed spec fn gyro_full(self) -> Vector {
        self.gyro_full
    }

    /// The mean of two raw readings, normalized.
    pub open spec fn mean(first: u16, second: u16) -> Ratio {
        Ratio { num: (first + second - 0x10000) as i64, den: 0x10000 }
    }

    /// The factor of one accelerometer axis: `2 / (max - min)`, with both
    /// readings normalized.
    pub open spec fn scale(min: u16, max: u16) -> Ratio {
        Ratio { num: 0x10000, den: (max - min) as i64 }
    }

    /// The offset of one accelerometer axis: `-scale * min - 1`, with the
    /// reading normalized.
    pub open spec fn bias(min: u16, max: u16) -> Ratio {
        Ratio { num: (0x10000 - min - max) as i64, den: (max - min) as i64 }
    }

    /// One accelerometer axis in g: `mean * scale + bias`.
    pub open spec fn accelerated(min: u16, max: u16, first: u16, second: u16) -> Ratio {
        Ratio { num: (first + second - min - max) as i64, den: (max - min) as i64 }
    }

    /// The factor of one gyroscope axis, in units of the reference rate:
    /// `1 / (full - rest)`, with both readings normalized.
    pub open spec fn spin(rest: u16, full: u16) -> Ratio {
        Ratio { num: 0x8000, den: (full - rest) as i64 }
    }

    /// One gyroscope axis in units of the reference rate: `mean * spin`.
    pub open spec fn turned(rest: u16, full: u16, first: u16, second: u16) -> Ratio {
        Ratio { num: (first + second - 0x10000) as i64, den: (2 * (full - rest)) as i64 }
    }

    /// The calibration that a factory block stands for.
    pub open spec fn derived(self, report: GetCalibrationInner) -> bool {
        &&& self.accel_min() == (Vector {
            x: report.accel[1].x,
            y: report.accel[5].y,
            z: report.accel[2].z,
        })
        &&& self.accel_max() == (Vector {
            x: report.accel[3].x,
            y: report.accel[4].y,
            z: report.accel[0].z,
        })
        &&& self.gyro_rest() == report.gyro_bias
        &&& self.gyro_full() == (Vector {
            x: report.gyro_x.x,
            y: report.gyro_y.y,
            z: report.gyro_z.z,
        })
    }

    /// The accelerometer factors: what a normalized reading is multiplied by.
    pub open spec fn scales(self) -> Vector3 {
        Vector3 {
            x: Self::scale(self.accel_min().x, self.accel_max().x),
            y: Self::scale(self.accel_min().y, self.accel_max().y),
            z: Self::scale(self.accel_min().z, self.accel_max().z),
        }
    }

    /// The accelerometer offsets: what is added after the multiplication.
    pub open spec fn biases(self) -> Vector3 {
        Vector3 {
            x: Self::bias(self.accel_min().x, self.accel_max().x),
            y: Self::bias(self.accel_min().y, self.accel_max().y),
            z: Self::bias(self.accel_min().z, self.accel_max().z),
        }
    }

    /// The gyroscope factors, in units of the reference rate.
    pub open spec fn spins(self) -> Vector3 {
        Vector3 {
            x: Self::spin(self.gyro_rest().x, self.gyro_full().x),
            y: Self::spin(self.gyro_rest().y, self.gyro_full().y),
            z: Self::spin(self.gyro_rest().z, self.gyro_full().z),
        }
    }

    /// The acceleration in g that two redundant raw samples stand for.
    pub open spec fn acceleration(self, first: Vector, second: Vector) -> Vector3 {
        Vector3 {
            x: Self::accelerated(self.accel_min().x, self.accel_max().x, first.x, second.x),
            y: Self::accelerated(self.accel_min().y, self.accel_max().y, first.y, second.y),
            z: Self::accelerated(self.accel_min().z, self.accel_max().z, first.z, second.z),
        }
    }

    /// The rate of turn, in units of the reference rate, that two redundant
    /// raw samples stand for.
    pub open spec fn rotation(self, first: Vector, second: Vector) -> Vector3 {
        Vector3 {
            x: Self::turned(self.gyro_rest().x, self.gyro_full().x, first.x, second.x),
            y: Self::turned(self.gyro_rest().y, self.gyro_full().y, first.y, second.y),
            z: Self::turned(self.gyro_rest().z, self.gyro_full().z, first.z, second.z),
        }
    }

    /// Derives the calibration from the factory block. The first axis is
    /// bounded by the orientation samples 1 and 3, the second by 5 and 4,
    /// the third by 2 and 0.
    pub fn from(report: GetCalibrationInner) -> (c: Calibration)
        ensures
            c.derived(report),
    {
        Calibration {
            accel_min: Vector { x: report.accel[1].x, y: report.accel[5].y, z: report.accel[2].z },
            accel_max: Vector { x: report.accel[3].x, y: report.accel[4].y, z: report.accel[0].z },
            gyro_rest: report.gyro_bias,
            gyro_full: Vector { x: report.gyro_x.x, y: report.gyro_y.y, z: report.gyro_z.z },
        }
    }

    fn span(low: u16, high: u16) -> (d: i64)
        ensures
            d == high - low,
    {
        high as i64 - low as i64
    }

    /// The accelerometer factors.
    pub fn accelerometer_m(&self) -> (m: Vector3)
        ensures
            m == self.scales(),
    {
        Vector3 {
            x: Ratio::new(0x10000, Self::span(self.accel_min.x, self.accel_max.x)),
            y: Ratio::new(0x10000, Self::span(self.accel_min.y, self.accel_max.y)),
            z: Ratio::new(0x10000, Self::span(self.accel_min.z, self.accel_max.z)),
        }
    }

    fn offset(min: u16, max: u16) -> (b: Ratio)
        ensures
            b == Self::bias(min, max),
    {
        Ratio::new(0x10000 - min as i64 - max as i64, Self::span(min, max))
    }

    /// The accelerometer offsets.
    pub fn accelerometer_b(&self) -> (b: Vector3)
        ensures
            b == self.biases(),
    {
        Vector3 {
            x: Self::offset(self.accel_min.x, self.accel_max.x),
            y: Self::offset(self.accel_min.y, self.accel_max.y),
            z: Self::offset(self.accel_min.z, self.accel_max.z),
        }
    }

    /// The gyroscope factors, in units of the reference rate.
    pub fn gyroscope(&self) -> (g: Vector3)
        ensures
            g == self.spins(),
    {
        Vector3 {
            x: Ratio::new(0x8000, Self::span(self.gyro_rest.x, self.gyro_full.x)),
            y: Ratio::new(0x8000, Self::span(self.gyro_rest.y, self.gyro_full.y)),
            z: Ratio::new(0x8000, Self::span(self.gyro_rest.z, self.gyro_full.z)),
        }
    }

    fn accelerate(min: u16, max: u16, first: u16, second: u16) -> (r: Ratio)
        ensures
            r == Self::accelerated(min, max, first, second),
    {
        Ratio::new(first as i64 + second as i64 - min as i64 - max as i64, Self::span(min, max))
    }

    fn turn(rest: u16, full: u16, first: u16, second: u16) -> (r: Ratio)
        ensures
            r == Self::turned(rest, full, first, second),
    {
        Ratio::new(first as i64 + second as i64 - 0x10000, 2 * Self::span(rest, full))
    }

    /// Turns two redundant accelerometer samples into an acceleration in g.
    pub fn accelerometer(&self, first: Vector, second: Vector) -> (a: Vector3)
        ensures
            a == self.acceleration(first, second),
    {
        Vector3 {
            x: Self::accelerate(self.accel_min.x, self.accel_max.x, first.x, second.x),
            y: Self::accelerate(self.accel_min.y, self.accel_max.y, first.y, second.y),
            z: Self::accelerate(self.accel_min.z, self.accel_max.z, first.z, second.z),
        }
    }

    /// Turns two redundant gyroscope samples into a rate of turn, in units
    /// of the reference rate.
    pub fn gyrometer(&self, first: Vector, second: Vector) -> (g: Vector3)
        ensures
            g == self.rotation(first, second),
    {
        Vector3 {
            x: Self::turn(self.gyro_rest.x, self.gyro_full.x, first.x, second.x),
            y: Self::turn(self.gyro_rest.y, self.gyro_full.y, first.y, second.y),
            z: Self::turn(self.gyro_rest.z, self.gyro_full.z, first.z, second.z),
        }
    }
}

/// How the stored fractions follow from the calibration formulas. Each law
/// holds for an axis whose two bounding readings differ; where they are
/// equal the formulas divide by zero.
impl Calibration {
    /// The mean of two samples is half the sum of the normalized samples.
    pub proof fn lemma_mean(first: u16, second: u16)
        ensures
            Self::mean(first, second).q().same(
                Vector::normalized(first).q().plus(Vector::normalized(second).q()).over(
                    Quotient::whole(2),
                ),
            ),
    {
        let a = first - 0x8000;
        let b = second - 0x8000;
        assert((a + b) * ((0x8000 * 0x8000) * 2) == ((a * 0x8000 + b * 0x8000) * 1) * 0x10000)
            by (nonlinear_arith);
    }

    /// The factor of an accelerometer axis is two over the distance of its
    /// normalized bounds.
    pub proof fn lemma_scale(min: u16, max: u16)
        requires
            min != max,
        ensures
            Self::scale(min, max).q().same(
                Quotient::whole(2).over(
                    Vector::normalized(max).q().minus(Vector::normalized(min).q()),
                ),
            ),
    {
        let d = max - min;
        let lo = min - 0x8000;
        let hi = max - 0x8000;
        assert(0x10000 * (1 * (hi * 0x8000 - lo * 0x8000)) == (2 * (0x8000 * 0x8000)) * d)
            by (nonlinear_arith)
            requires
                d == hi - lo,
        ;
        assert(1 * (hi * 0x8000 - lo * 0x8000) != 0) by (nonlinear_arith)
            requires
                hi != lo,
        ;
    }

    /// The offset of an accelerometer axis is what is left of minus one
    /// after the factor has been applied to the lower bound.
    pub proof fn lemma_bias(min: u16, max: u16)
        requires
            min != max,
        ensures
            Self::bias(min, max).q().same(
                Self::scale(min, max).q().times(Vector::normalized(min).q()).neg().minus(
                    Quotient::whole(1),
                ),
            ),
    {
        let d = max - min;
        let m = min - 0x8000;
        assert((0x10000 - min - max) * (d * 0x8000 * 1) == (-(0x10000 * m) * 1 - 1 * (d * 0x8000))
            * d) by (nonlinear_arith)
            requires
                d == max - min,
                m == min - 0x8000,
        ;
        assert(d * 0x8000 * 1 != 0) by (nonlinear_arith)
            requires
                d != 0,
        ;
    }

    /// The calibrated acceleration is the mean of the two samples times the
    /// factor, plus the offset.
    pub proof fn lemma_accelerated(min: u16, max: u16, first: u16, second: u16)
        requires
            min != max,
        ensures
            Self::accelerated(min, max, first, second).q().same(
                Self::mean(first, second).q().times(Self::scale(min, max).q()).plus(
                    Self::bias(min, max).q(),
                ),
            ),
    {
        let d = max - min;
        let a = first + second - 0x10000;
        let b = 0x10000 - min - max;
        assert((a + b) * ((0x10000 * d) * d) == ((a * 0x10000) * d + b * (0x10000 * d)) * d)
            by (nonlinear_arith);
        assert((0x10000 * d) * d != 0) by (nonlinear_arith)
            requires
                d != 0,
        ;
    }

    /// The transform takes the lower bound of an axis to minus one and the
    /// upper bound to one.
    pub proof fn lemma_bounds(min: u16, max: u16)
        requires
            min != max,
        ensures
            Self::scale(min, max).q().times(Vector::normalized(min).q()).plus(
                Self::bias(min, max).q(),
            ).same(Quotient::whole(-1)),
            Self::scale(min, max).q().times(Vector::normalized(max).q()).plus(
                Self::bias(min, max).q(),
            ).same(Quotient::whole(1)),
            Self::accelerated(min, max, min, min).q().same(Quotient::whole(-1)),
            Self::accelerated(min, max, max, max).q().same(Quotient::whole(1)),
    {
        let d = max - min;
        let b = 0x10000 - min - max;
        let lo = min - 0x8000;
        let hi = max - 0x8000;
        assert(((0x10000 * lo) * d + b * (d * 0x8000)) * 1 == (-1) * ((d * 0x8000) * d))
            by (nonlinear_arith)
            requires
                d == hi - lo,
                b == -lo - hi,
        ;
        assert(((0x10000 * hi) * d + b * (d * 0x8000)) * 1 == 1 * ((d * 0x8000) * d))
            by (nonlinear_arith)
            requires
                d == hi - lo,
                b == -lo - hi,
        ;
        assert((d * 0x8000) * d != 0) by (nonlinear_arith)
            requires
                d != 0,
        ;
    }

    /// The factor of a gyroscope axis is one over the distance between its
    /// normalized readings at the reference rate and at rest.
    pub proof fn lemma_spin(rest: u16, full: u16)
        requires
            rest != full,
        ensures
            Self::spin(rest, full).q().same(
                Quotient::whole(1).over(
                    Vector::normalized(full).q().minus(Vector::normalized(rest).q()),
                ),
            ),
    {
        let d = full - rest;
        let lo = rest - 0x8000;
        let hi = full - 0x8000;
        assert(0x8000 * (1 * (hi * 0x8000 - lo * 0x8000)) == (1 * (0x8000 * 0x8000)) * d)
            by (nonlinear_arith)
            requires
                d == hi - lo,
        ;
        assert(1 * (hi * 0x8000 - lo * 0x8000) != 0) by (nonlinear_arith)
            requires
                hi != lo,
        ;
    }

    /// The calibrated rate of turn is the mean of the two samples times the
    /// factor.
    pub proof fn lemma_turned(rest: u16, full: u16, first: u16, second: u16)
        requires
            rest != full,
        ensures
            Self::turned(rest, full, first, second).q().same(
                Self::mean(first, second).q().times(Self::spin(rest, full).q()),
            ),
    {
        let d = full - rest;
        let a = first + second - 0x10000;
        assert(a * (0x10000 * d) == (a * 0x8000) * (2 * d)) by (nonlinear_arith);
        assert(0x10000 * d != 0 && 2 * d != 0) by (nonlinear_arith)
            requires
                d != 0,
        ;
    }
}

} // verus!
