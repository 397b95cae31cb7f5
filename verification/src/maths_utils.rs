use vstd::prelude::*;

verus! {

/// Angles are stored in fixed-point radian units: `PI_UNITS` units stand for
/// pi radians, so one whole degree is exactly `UNITS_PER_DEG` units.
pub const PI_UNITS: i64 = 180_000_000_000_000;

/// One full turn, in fixed-point radian units.
pub const TWO_PI_UNITS: i64 = 360_000_000_000_000;

/// Fixed-point radian units per whole degree.
pub const UNITS_PER_DEG: i64 = 1_000_000_000_000;

/// Largest magnitude of whole degrees accepted by `Angle::from_deg`, chosen so
/// that the conversion to radian units cannot overflow an `i64`.
pub const MAX_DEG: i64 = 9_000_000;

/// Lengths, scales and interpolation parameters are fixed-point values with
/// this many units per 1.0.
pub const FP_SCALE: i64 = 1_000_000;

/// Bound on the fixed-point values fed to multiplication helpers, chosen so
/// that intermediate products stay well inside an `i128`.
pub const FP_MAX: i64 = 1_000_000_000_000;

/// Division truncated towards zero, as the `/` operator computes it on the
/// machine's signed integers; the divisor is taken positive.
pub open spec fn div_trunc(a: int, b: int) -> int {
    if a >= 0 {
        a / b
    } else {
        -((-a) / b)
    }
}

/// The representative of `v` modulo one full turn that lies in the half-open
/// interval (-PI_UNITS, PI_UNITS].
pub open spec fn wrap_angle(v: int) -> int {
    let m = (v + PI_UNITS) % (TWO_PI_UNITS as int);
    if m == 0 {
        PI_UNITS as int
    } else {
        m - PI_UNITS
    }
}

pub proof fn lemma_wrap_angle_range(v: int)
    ensures
        -PI_UNITS < wrap_angle(v) <= PI_UNITS,
{
}

/// A wrapped value is congruent to the value it came from, modulo one full
/// turn: wrapping loses nothing but whole turns.
pub proof fn lemma_wrap_angle_congruent(v: int)
    ensures
        (wrap_angle(v) - v) % (TWO_PI_UNITS as int) == 0,
{
    let m = (v + PI_UNITS) % (TWO_PI_UNITS as int);
    assert((wrap_angle(v) - v) % (TWO_PI_UNITS as int) == 0) by (nonlinear_arith)
        requires
            m == (v + PI_UNITS) % (TWO_PI_UNITS as int),
            wrap_angle(v) == if m == 0 { PI_UNITS as int } else { m - PI_UNITS },
    ;
}

/// An angle, stored wrapped: the fixed-point radian value always lies in
/// (-PI_UNITS, PI_UNITS].
#[derive(Debug, Clone, Copy, PartialEq, Eq, Structural)]
pub struct Angle {
    val: i64,
}

impl Angle {
    /// The fixed-point radian value of this angle.
    pub closed spec fn rad(self) -> int {
        self.val as int
    }

    #[verifier::type_invariant]
    pub closed spec fn wrapped(self) -> bool {
        -PI_UNITS < self.val <= PI_UNITS
    }

    /// A wrapped angle's value lies in (-PI_UNITS, PI_UNITS]; the type
    /// invariant guarantees the hypothesis for every angle that exists at
    /// run time.
    pub proof fn lemma_wrapped_range(self)
        requires
            self.wrapped(),
        ensures
            -PI_UNITS < self.rad() <= PI_UNITS,
    {
    }

    /// Wrap a fixed-point radian value into (-PI_UNITS, PI_UNITS] and store it.
    pub fn from_rad(val: i64) -> (r: Angle)
        requires
            val <= i64::MAX - PI_UNITS,
        ensures
            r.rad() == wrap_angle(val as int),
    {
        let mut w: i64 = (val + PI_UNITS) % TWO_PI_UNITS;
        if w < 0 {
            w = w + TWO_PI_UNITS;
        }
        let v: i64 = if w == 0 {
            PI_UNITS
        } else {
            w - PI_UNITS
        };
        Angle { val: v }
    }

    /// Convert whole degrees to fixed-point radian units and wrap.
    pub fn from_deg(val: i64) -> (r: Angle)
        requires
            -MAX_DEG <= val <= MAX_DEG,
        ensures
            r.rad() == wrap_angle(val * UNITS_PER_DEG),
    {
        Self::from_rad(val * UNITS_PER_DEG)
    }

    /// The stored fixed-point radian value.
    pub fn as_rad(&self) -> (r: i64)
        ensures
            r == self.rad(),
            -PI_UNITS < r <= PI_UNITS,
    {
        proof {
            use_type_invariant(self);
        }
        self.val
    }

    /// The angle in whole degrees, truncated towards zero.
    pub fn as_deg(&self) -> (r: i64)
        ensures
            r == div_trunc(self.rad() * 180, PI_UNITS as int),
    {
        proof {
            use_type_invariant(self);
        }
        let v = self.val;
        if v >= 0 {
            (v * 180) / PI_UNITS
        } else {
            -((-v * 180) / PI_UNITS)
        }
    }
}

/// Roll, pitch and yaw, each a wrapped angle.
#[derive(Debug, Clone, Copy, PartialEq, Eq, Structural)]
pub struct EulerAngles3D {
    pub roll: Angle,
    pub pitch: Angle,
    pub yaw: Angle,
}

impl EulerAngles3D {
    /// All three angles zero.
    pub fn zeros() -> (r: EulerAngles3D)
        ensures
            r.roll.rad() == 0,
            r.pitch.rad() == 0,
            r.yaw.rad() == 0,
    {
        EulerAngles3D {
            roll: Angle::from_rad(0),
            pitch: Angle::from_rad(0),
            yaw: Angle::from_rad(0),
        }
    }

    /// Build from fixed-point radian units, wrapping each axis independently.
    pub fn from_rad(roll: i64, pitch: i64, yaw: i64) -> (r: EulerAngles3D)
        requires
            roll <= i64::MAX - PI_UNITS,
            pitch <= i64::MAX - PI_UNITS,
            yaw <= i64::MAX - PI_UNITS,
        ensures
            r.roll.rad() == wrap_angle(roll as int),
            r.pitch.rad() == wrap_angle(pitch as int),
            r.yaw.rad() == wrap_angle(yaw as int),
    {
        EulerAngles3D {
            roll: Angle::from_rad(roll),
            pitch: Angle::from_rad(pitch),
            yaw: Angle::from_rad(yaw),
        }
    }

    /// Build from whole degrees, wrapping each axis independently.
    pub fn from_deg(roll: i64, pitch: i64, yaw: i64) -> (r: EulerAngles3D)
        requires
            -MAX_DEG <= roll <= MAX_DEG,
            -MAX_DEG <= pitch <= MAX_DEG,
            -MAX_DEG <= yaw <= MAX_DEG,
        ensures
            r.roll.rad() == wrap_angle(roll * UNITS_PER_DEG),
            r.pitch.rad() == wrap_angle(pitch * UNITS_PER_DEG),
            r.yaw.rad() == wrap_angle(yaw * UNITS_PER_DEG),
    {
        EulerAngles3D {
            roll: Angle::from_deg(roll),
            pitch: Angle::from_deg(pitch),
            yaw: Angle::from_deg(yaw),
        }
    }
}

/// Multiply two fixed-point values, rescaling the product back by `FP_SCALE`
/// with truncation towards zero.
pub fn fixed_mul(a: i64, b: i64) -> (r: i64)
    requires
        -FP_MAX <= a <= FP_MAX,
        -FP_MAX <= b <= FP_MAX,
    ensures
        r == div_trunc(a as int * b as int, FP_SCALE as int),
        -(FP_MAX as int) * (FP_MAX as int) / (FP_SCALE as int) <= r <= (FP_MAX as int) * (
        FP_MAX as int) / (FP_SCALE as int),
{
    proof {
        assert(-(FP_MAX as int) * (FP_MAX as int) <= a as int * b as int <= (FP_MAX as int) * (
        FP_MAX as int)) by (nonlinear_arith)
            requires
                -FP_MAX <= a <= FP_MAX,
                -FP_MAX <= b <= FP_MAX,
        ;
    }
    let p: i128 = (a as i128) * (b as i128);
    let q: i128 = p / (FP_SCALE as i128);
    q as i64
}

/// Linear interpolation from `from` towards `to` by the fixed-point parameter
/// `t` (`FP_SCALE` stands for 1.0), truncated towards zero.
pub fn lerp(from: i64, to: i64, t: i64) -> (r: i64)
    requires
        -FP_MAX <= from <= FP_MAX,
        -FP_MAX <= to <= FP_MAX,
        -FP_MAX <= t <= FP_MAX,
    ensures
        r == from + div_trunc(t as int * (to - from), FP_SCALE as int),
{
    proof {
        assert(-2 * (FP_MAX as int) * (FP_MAX as int) <= t as int * (to - from) <= 2 * (
        FP_MAX as int) * (FP_MAX as int)) by (nonlinear_arith)
            requires
                -FP_MAX <= to <= FP_MAX,
                -FP_MAX <= from <= FP_MAX,
                -FP_MAX <= t <= FP_MAX,
        ;
    }
    let p: i128 = (t as i128) * ((to as i128) - (from as i128));
    let q: i128 = p / (FP_SCALE as i128);
    from + (q as i64)
}

} // verus!
