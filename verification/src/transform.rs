use vstd::prelude::*;

use crate::maths_utils::{
    div_trunc, fixed_mul, wrap_angle, EulerAngles3D, FP_MAX, FP_SCALE, PI_UNITS,
};
use crate::m3::{m3_bounded, M3x3};

verus! {

/// A 3-vector of fixed-point values (`FP_SCALE` units per 1.0).
#[derive(Debug, Clone, Copy, PartialEq, Eq, Structural)]
pub struct Vec3 {
    pub x: i64,
    pub y: i64,
    pub z: i64,
}

impl Vec3 {
    /// The all-zero vector.
    pub fn zeros() -> (r: Vec3)
        ensures
            r == (Vec3 { x: 0, y: 0, z: 0 }),
    {
        Vec3 { x: 0, y: 0, z: 0 }
    }

    /// Component by index: 0 is x, 1 is y, anything else z.
    pub open spec fn comp(self, i: int) -> i64 {
        if i == 0 {
            self.x
        } else if i == 1 {
            self.y
        } else {
            self.z
        }
    }
}

/// All three components lie within the fixed-point working range.
pub open spec fn v3_bounded(v: Vec3) -> bool {
    -FP_MAX <= v.x <= FP_MAX && -FP_MAX <= v.y <= FP_MAX && -FP_MAX <= v.z <= FP_MAX
}

/// The 4x4 non-uniform scaling matrix for `s`, as a column-major sequence:
/// the diagonal holds the scale components and the fixed-point unit, all
/// other entries are zero.
pub open spec fn scaling_mat4(s: Vec3) -> Seq<int> {
    Seq::new(
        16,
        |i: int|
            if i == 0 {
                s.x as int
            } else if i == 5 {
                s.y as int
            } else if i == 10 {
                s.z as int
            } else if i == 15 {
                FP_SCALE as int
            } else {
                0
            },
    )
}

/// Entry (row, col) of a 4x4 matrix held as sixteen column-major values.
pub open spec fn mat4_entry(m: Seq<i64>, row: int, col: int) -> i64 {
    m[col * 4 + row]
}

/// Position, rotation and scale of one entity, with the scaling matrix kept
/// as a cached intermediate that every scale change recomputes at once.
#[derive(Debug)]
pub struct Transform {
    translation: Vec3,
    rotation: EulerAngles3D,
    scale: Vec3,
    cached_scaling: Vec<i64>,
}

impl Transform {
    /// The stored translation.
    pub closed spec fn spec_translation(self) -> Vec3 {
        self.translation
    }

    /// The stored rotation; each axis angle is wrapped by construction.
    pub closed spec fn spec_rotation(self) -> EulerAngles3D {
        self.rotation
    }

    /// The stored scale.
    pub closed spec fn spec_scale(self) -> Vec3 {
        self.scale
    }

    #[verifier::type_invariant]
    pub closed spec fn wf(self) -> bool {
        &&& v3_bounded(self.scale)
        &&& self.cached_scaling@.len() == 16
        &&& forall|i: int|
            0 <= i < 16 ==> #[trigger] self.cached_scaling@[i] == scaling_mat4(self.scale)[i]
    }

    /// The identity transform: zero translation and rotation, unit scale.
    pub fn identity() -> (r: Transform)
        ensures
            r.spec_translation() == (Vec3 { x: 0, y: 0, z: 0 }),
            r.spec_rotation().roll.rad() == 0,
            r.spec_rotation().pitch.rad() == 0,
            r.spec_rotation().yaw.rad() == 0,
            r.spec_scale() == (Vec3 { x: FP_SCALE, y: FP_SCALE, z: FP_SCALE }),
    {
        Transform::new(
            Vec3::zeros(),
            EulerAngles3D::zeros(),
            Vec3 { x: FP_SCALE, y: FP_SCALE, z: FP_SCALE },
        )
    }

    /// Build a transform; the scaling matrix cache is computed here, so it is
    /// valid from the start.
    pub fn new(translation: Vec3, rotation: EulerAngles3D, scale: Vec3) -> (r: Transform)
        requires
            v3_bounded(scale),
        ensures
            r.spec_translation() == translation,
            r.spec_rotation() == rotation,
            r.spec_scale() == scale,
    {
        let cached = scaling_cache(scale);
        Transform { translation, rotation, scale, cached_scaling: cached }
    }

    /// Replace the translation.
    pub fn set_position(&mut self, position: Vec3)
        ensures
            final (self).spec_translation() == position,
            final (self).spec_rotation() == old(self).spec_rotation(),
            final (self).spec_scale() == old(self).spec_scale(),
    {
        proof {
            use_type_invariant(&*self);
        }
        self.translation = position;
    }

    /// The stored translation.
    pub fn get_position(&self) -> (r: Vec3)
        ensures
            r == self.spec_translation(),
    {
        self.translation
    }

    /// Replace the rotation from raw fixed-point radian components, wrapping
    /// each axis into (-PI_UNITS, PI_UNITS] before storing.
    pub fn set_euler_rotation_raw(&mut self, rot: Vec3)
        requires
            rot.x <= i64::MAX - PI_UNITS,
            rot.y <= i64::MAX - PI_UNITS,
            rot.z <= i64::MAX - PI_UNITS,
        ensures
            final (self).spec_rotation().roll.rad() == wrap_angle(rot.x as int),
            final (self).spec_rotation().pitch.rad() == wrap_angle(rot.y as int),
            final (self).spec_rotation().yaw.rad() == wrap_angle(rot.z as int),
            final (self).spec_translation() == old(self).spec_translation(),
            final (self).spec_scale() == old(self).spec_scale(),
    {
        proof {
            use_type_invariant(&*self);
        }
        self.rotation = EulerAngles3D::from_rad(rot.x, rot.y, rot.z);
    }

    /// Replace the rotation; the angles of an `EulerAngles3D` are wrapped by
    /// construction.
    pub fn set_euler_rotation(&mut self, rot: EulerAngles3D)
        ensures
            final (self).spec_rotation() == rot,
            final (self).spec_translation() == old(self).spec_translation(),
            final (self).spec_scale() == old(self).spec_scale(),
    {
        proof {
            use_type_invariant(&*self);
        }
        self.rotation = rot;
    }

    /// The stored rotation. Every component is wrapped: no sequence of
    /// rotation updates can make this return an angle outside
    /// (-PI_UNITS, PI_UNITS].
    pub fn get_euler_rotation(&self) -> (r: EulerAngles3D)
        ensures
            r == self.spec_rotation(),
            -PI_UNITS < r.roll.rad() <= PI_UNITS,
            -PI_UNITS < r.pitch.rad() <= PI_UNITS,
            -PI_UNITS < r.yaw.rad() <= PI_UNITS,
    {
        let r = self.rotation;
        let roll = r.roll;
        let pitch = r.pitch;
        let yaw = r.yaw;
        proof {
            use_type_invariant(roll);
            use_type_invariant(pitch);
            use_type_invariant(yaw);
            roll.lemma_wrapped_range();
            pitch.lemma_wrapped_range();
            yaw.lemma_wrapped_range();
        }
        r
    }

    /// Replace the scale and synchronously recompute the cached scaling
    /// matrix, so no reader ever observes a stale cache.
    pub fn set_scale(&mut self, scale: Vec3)
        requires
            v3_bounded(scale),
        ensures
            final (self).spec_scale() == scale,
            final (self).spec_translation() == old(self).spec_translation(),
            final (self).spec_rotation() == old(self).spec_rotation(),
    {
        proof {
            use_type_invariant(&*self);
        }
        let cached = scaling_cache(scale);
        *self = Transform {
            translation: self.translation,
            rotation: self.rotation,
            scale,
            cached_scaling: cached,
        };
    }

    /// The stored scale.
    pub fn get_scale(&self) -> (r: Vec3)
        ensures
            r == self.spec_scale(),
    {
        self.scale
    }

    /// The 2D affine matrix of this transform, column-major: non-uniform
    /// scaling by (x, y) followed by translation by (x, y).
    pub fn to_mat3_vec(&self) -> (r: M3x3)
        ensures
            r@.len() == 9,
            r@[0] == self.spec_scale().x && r@[1] == 0 && r@[2] == 0,
            r@[3] == 0 && r@[4] == self.spec_scale().y && r@[5] == 0,
            r@[6] == self.spec_translation().x && r@[7] == self.spec_translation().y && r@[8]
                == FP_SCALE,
    {
        let mut out: Vec<i64> = Vec::new();
        out.push(self.scale.x);
        out.push(0);
        out.push(0);
        out.push(0);
        out.push(self.scale.y);
        out.push(0);
        out.push(self.translation.x);
        out.push(self.translation.y);
        out.push(FP_SCALE);
        out
    }

    /// The 4x4 world matrix, column-major, from a caller-supplied column-major
    /// 3x3 rotation matrix. Object-space points are scaled, then rotated,
    /// then translated: the scale (read from the cached scaling matrix)
    /// weights the rotation's columns, and the translation fills the fourth
    /// column.
    pub fn to_mat4_vec(&self, rotation: &Vec<i64>) -> (r: Vec<i64>)
        requires
            rotation@.len() == 9,
            m3_bounded(rotation@),
        ensures
            r@.len() == 16,
            forall|row: int, col: int|
                0 <= row < 3 && 0 <= col < 3 ==> #[trigger] mat4_entry(r@, row, col) == div_trunc(
                    rotation@[col * 3 + row] as int * self.spec_scale().comp(col) as int,
                    FP_SCALE as int,
                ),
            forall|col: int| 0 <= col < 3 ==> #[trigger] mat4_entry(r@, 3, col) == 0,
            r@[12] == self.spec_translation().x,
            r@[13] == self.spec_translation().y,
            r@[14] == self.spec_translation().z,
            r@[15] == FP_SCALE,
    {
        proof {
            use_type_invariant(&*self);
        }
        let mut out: Vec<i64> = Vec::new();
        let mut col: usize = 0;
        while col < 3
        invariant
            col <= 3,
            rotation@.len() == 9,
            m3_bounded(rotation@),
            self.wf(),
            out@.len() == col * 4,
            forall|rr: int, c: int|
                0 <= rr < 3 && 0 <= c < col ==> #[trigger] out@[c * 4 + rr] == div_trunc(
                    rotation@[c * 3 + rr] as int * self.spec_scale().comp(c) as int,
                    FP_SCALE as int,
                ),
            forall|c: int| 0 <= c < col ==> #[trigger] out@[c * 4 + 3] == 0,
        decreases 3 - col,
        {
            let mut row: usize = 0;
            while row < 3
            invariant
                col < 3,
                row <= 3,
                rotation@.len() == 9,
                m3_bounded(rotation@),
                self.wf(),
                out@.len() == col * 4 + row,
                forall|rr: int, c: int|
                    0 <= rr < 3 && 0 <= c < col ==> #[trigger] out@[c * 4 + rr] == div_trunc(
                        rotation@[c * 3 + rr] as int * self.spec_scale().comp(c) as int,
                        FP_SCALE as int,
                    ),
                forall|c: int| 0 <= c < col ==> #[trigger] out@[c * 4 + 3] == 0,
                forall|rr: int|
                    0 <= rr < row ==> #[trigger] out@[col * 4 + rr] == div_trunc(
                        rotation@[col * 3 + rr] as int * self.spec_scale().comp(col as int) as int,
                        FP_SCALE as int,
                    ),
            decreases 3 - row,
            {
                let diag = self.cached_scaling[col * 4 + col];
                let e = fixed_mul(rotation[col * 3 + row], diag);
                out.push(e);
                row = row + 1;
            }
            out.push(0);
            col = col + 1;
        }
        out.push(self.translation.x);
        out.push(self.translation.y);
        out.push(self.translation.z);
        out.push(FP_SCALE);
        out
    }
}

/// The column-major 4x4 scaling matrix for `s`, as executable data.
fn scaling_cache(s: Vec3) -> (r: Vec<i64>)
    ensures
        r@.len() == 16,
        forall|i: int| 0 <= i < 16 ==> #[trigger] r@[i] == scaling_mat4(s)[i],
{
    let mut out: Vec<i64> = Vec::new();
    let mut i: usize = 0;
    while i < 16
        invariant
            i <= 16,
            out@.len() == i,
            forall|j: int| 0 <= j < i ==> #[trigger] out@[j] == scaling_mat4(s)[j],
        decreases 16 - i,
    {
        let v: i64 = if i == 0 {
            s.x
        } else if i == 5 {
            s.y
        } else if i == 10 {
            s.z
        } else if i == 15 {
            FP_SCALE
        } else {
            0
        };
        out.push(v);
        i = i + 1;
    }
    out
}

} // verus!
