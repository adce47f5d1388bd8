//! Per-node transform state, builders and the composition engine.
//!
//! A [`Transform`] accumulates local operations (each appended so that it
//! applies after everything already accumulated), a pivot (`origin`) that
//! anchors those operations, a layout position relative to the parent, and
//! an optional injected perspective that conceptually belongs to the parent's
//! viewing context. [`Transform::compose`] folds all of them together with
//! the parent's already-composed world matrix into this node's world matrix.

use vstd::prelude::*;

use crate::fixed::{clamp_i64, clamp_s, div_t, iabs, tdiv, ENTRY_BOUND, SCALE};
use crate::mat4::{
    adj_apply, adj_apply_row, det4, det_s, ent, identity, identity_m, mat_mul, mul_m, rotation_mat,
    rotation_s, scale_mat, scale_s, translation, translation_s, translation_w, Mat4,
};
use crate::trig::{cos_fp_s, rad_of_deg, rad_of_deg_s, sin_cos_fp, sin_fp_s};

verus! {

/// Empirical depth offset folded into the injected perspective, in
/// fixed-point units (78.0). Calibrated to match a reference renderer's
/// output; it is not derived from first principles, so it must not be
/// "corrected" without new reference data.
pub const Z_OFFSET_FP: i64 = 40894464;

/// One node of the transform tree.
#[derive(Clone, Copy, Debug, PartialEq)]
pub struct Transform {
    /// Local operations accumulated so far, relative to the parent.
    pub local_transform: Mat4,
    /// Fully composed world matrix; meaningful only after `compose`.
    pub world_transform: Mat4,
    /// Pivot that local rotations and scales are anchored to.
    pub origin: (i64, i64),
    /// Layout position relative to the parent's space.
    pub position_relative_to_parent: (i64, i64),
    /// Optional perspective of the parent's viewing context, stored on the
    /// child for composition-order convenience.
    pub parent_container_camera_perspective: Option<Mat4>,
}

/// `t` with its local accumulator replaced.
pub open spec fn with_local(t: Transform, l: Mat4) -> Transform {
    Transform { local_transform: l, ..t }
}

/// `t` with its world matrix replaced.
pub open spec fn with_world(t: Transform, w: Mat4) -> Transform {
    Transform { world_transform: w, ..t }
}

/// The injected perspective, or identity when absent.
pub open spec fn persp_of(t: Transform) -> Mat4 {
    match t.parent_container_camera_perspective {
        Some(p) => p,
        None => identity_m(),
    }
}

/// The world matrix that composition produces: pivot conjugation around the
/// local operations, then position, then the injected perspective, then the
/// parent's world matrix, applied left to right.
pub open spec fn composed_world(t: Transform, parent: Transform) -> Mat4 {
    let pivoted = mul_m(
        mul_m(
            translation_s(-(t.origin.0 as int), -(t.origin.1 as int), 0),
            t.local_transform,
        ),
        translation_s(t.origin.0 as int, t.origin.1 as int, 0),
    );
    let positioned = mul_m(
        pivoted,
        translation_s(
            t.position_relative_to_parent.0 as int,
            t.position_relative_to_parent.1 as int,
            0,
        ),
    );
    mul_m(mul_m(positioned, persp_of(t)), parent.world_transform)
}

/// The freshly created node: identity matrices, zero pivot and position,
/// no injected perspective.
pub open spec fn new_s() -> Transform {
    Transform {
        local_transform: identity_m(),
        world_transform: identity_m(),
        origin: (0, 0),
        position_relative_to_parent: (0, 0),
        parent_container_camera_perspective: None,
    }
}

impl Transform {
    /// Both matrices, and the perspective when present, are in range.
    pub open spec fn wf(self) -> bool {
        &&& self.local_transform.wf()
        &&& self.world_transform.wf()
        &&& match self.parent_container_camera_perspective {
            Some(p) => p.wf(),
            None => true,
        }
    }

    /// A fresh node.
    pub fn new() -> (r: Transform)
        ensures
            r == new_s(),
            r.wf(),
    {
        Transform {
            local_transform: identity(),
            world_transform: identity(),
            origin: (0, 0),
            position_relative_to_parent: (0, 0),
            parent_container_camera_perspective: None,
        }
    }

    /// Composes the pivoted local operations, position and injected
    /// perspective with the parent's world matrix, and stores the result as
    /// this node's world matrix. The parent must already be composed
    /// (callers own the topological order); a fresh node serves as the root's
    /// placeholder parent. No other field changes.
    pub fn compose(&mut self, parent: &Transform)
        requires
            old(self).wf(),
            parent.wf(),
        ensures
            *final(self) == with_world(*old(self), composed_world(*old(self), *parent)),
            final(self).wf(),
    {
        let pivot_neg = translation_w(
            -(self.origin.0 as i128),
            -(self.origin.1 as i128),
            0,
        );
        let pivot_pos = translation(self.origin.0, self.origin.1, 0);
        let local_matrix = mat_mul(&mat_mul(&pivot_neg, &self.local_transform), &pivot_pos);
        let position_matrix = translation(
            self.position_relative_to_parent.0,
            self.position_relative_to_parent.1,
            0,
        );
        let perspective_matrix = match &self.parent_container_camera_perspective {
            Some(p) => *p,
            None => identity(),
        };
        self.world_transform = mat_mul(
            &mat_mul(&mat_mul(&local_matrix, &position_matrix), &perspective_matrix),
            &parent.world_transform,
        );
    }

    /// Fluent form of [`Transform::compose`].
    pub fn compose_2(self, parent: &Transform) -> (r: Transform)
        requires
            self.wf(),
            parent.wf(),
        ensures
            r == with_world(self, composed_world(self, *parent)),
            r.wf(),
    {
        let mut s = self;
        s.compose(parent);
        s
    }

    /// Sets the pivot.
    pub fn set_origin(&mut self, ox: i64, oy: i64)
        ensures
            *final(self) == (Transform { origin: (ox, oy), ..*old(self) }),
    {
        self.origin = (ox, oy);
    }

    /// Fluent form of [`Transform::set_origin`].
    pub fn with_origin(self, ox: i64, oy: i64) -> (r: Transform)
        ensures
            r == (Transform { origin: (ox, oy), ..self }),
    {
        let mut s = self;
        s.set_origin(ox, oy);
        s
    }

    /// Sets the layout position relative to the parent.
    pub fn set_position_relative_to_parent(&mut self, x: i64, y: i64)
        ensures
            *final(self) == (Transform { position_relative_to_parent: (x, y), ..*old(self) }),
    {
        self.position_relative_to_parent = (x, y);
    }

    /// Fluent form of [`Transform::set_position_relative_to_parent`].
    pub fn with_position_relative_to_parent(self, x: i64, y: i64) -> (r: Transform)
        ensures
            r == (Transform { position_relative_to_parent: (x, y), ..self }),
    {
        let mut s = self;
        s.set_position_relative_to_parent(x, y);
        s
    }

    /// Appends a 2D translation to the local operations.
    pub fn translate(&mut self, tx: i64, ty: i64)
        requires
            old(self).wf(),
        ensures
            *final(self) == with_local(
                *old(self),
                mul_m(old(self).local_transform, translation_s(tx as int, ty as int, 0)),
            ),
            final(self).wf(),
    {
        self.translate_3d(tx, ty, 0);
    }

    /// Fluent form of [`Transform::translate`].
    pub fn then_translate(self, tx: i64, ty: i64) -> (r: Transform)
        requires
            self.wf(),
        ensures
            r == with_local(
                self,
                mul_m(self.local_transform, translation_s(tx as int, ty as int, 0)),
            ),
            r.wf(),
    {
        let mut s = self;
        s.translate(tx, ty);
        s
    }

    /// Appends a 3D translation to the local operations.
    pub fn translate_3d(&mut self, tx: i64, ty: i64, tz: i64)
        requires
            old(self).wf(),
        ensures
            *final(self) == with_local(
                *old(self),
                mul_m(old(self).local_transform, translation_s(tx as int, ty as int, tz as int)),
            ),
            final(self).wf(),
    {
        self.local_transform = mat_mul(&self.local_transform, &translation(tx, ty, tz));
    }

    /// Fluent form of [`Transform::translate_3d`].
    pub fn then_translate_3d(self, tx: i64, ty: i64, tz: i64) -> (r: Transform)
        requires
            self.wf(),
        ensures
            r == with_local(
                self,
                mul_m(self.local_transform, translation_s(tx as int, ty as int, tz as int)),
            ),
            r.wf(),
    {
        let mut s = self;
        s.translate_3d(tx, ty, tz);
        s
    }

    /// Appends a translation along the x axis.
    pub fn translate_x(&mut self, tx: i64)
        requires
            old(self).wf(),
        ensures
            *final(self) == with_local(
                *old(self),
                mul_m(old(self).local_transform, translation_s(tx as int, 0, 0)),
            ),
            final(self).wf(),
    {
        self.local_transform = mat_mul(&self.local_transform, &translation(tx, 0, 0));
    }

    /// Fluent form of [`Transform::translate_x`].
    pub fn then_translate_x(self, tx: i64) -> (r: Transform)
        requires
            self.wf(),
        ensures
            r == with_local(
                self,
                mul_m(self.local_transform, translation_s(tx as int, 0, 0)),
            ),
            r.wf(),
    {
        let mut s = self;
        s.translate_x(tx);
        s
    }

    /// Appends a translation along the y axis.
    pub fn translate_y(&mut self, ty: i64)
        requires
            old(self).wf(),
        ensures
            *final(self) == with_local(
                *old(self),
                mul_m(old(self).local_transform, translation_s(0, ty as int, 0)),
            ),
            final(self).wf(),
    {
        self.local_transform = mat_mul(&self.local_transform, &translation(0, ty, 0));
    }

    /// Fluent form of [`Transform::translate_y`].
    pub fn then_translate_y(self, ty: i64) -> (r: Transform)
        requires
            self.wf(),
        ensures
            r == with_local(
                self,
                mul_m(self.local_transform, translation_s(0, ty as int, 0)),
            ),
            r.wf(),
    {
        let mut s = self;
        s.translate_y(ty);
        s
    }

    /// Appends a translation along the z axis.
    pub fn translate_z(&mut self, tz: i64)
        requires
            old(self).wf(),
        ensures
            *final(self) == with_local(
                *old(self),
                mul_m(old(self).local_transform, translation_s(0, 0, tz as int)),
            ),
            final(self).wf(),
    {
        self.local_transform = mat_mul(&self.local_transform, &translation(0, 0, tz));
    }

    /// Fluent form of [`Transform::translate_z`].
    pub fn then_translate_z(self, tz: i64) -> (r: Transform)
        requires
            self.wf(),
        ensures
            r == with_local(
                self,
                mul_m(self.local_transform, translation_s(0, 0, tz as int)),
            ),
            r.wf(),
    {
        let mut s = self;
        s.translate_z(tz);
        s
    }

    /// Appends a 2D translation to the local operations.
    pub fn translate_2d(&mut self, tx: i64, ty: i64)
        requires
            old(self).wf(),
        ensures
            *final(self) == with_local(
                *old(self),
                mul_m(old(self).local_transform, translation_s(tx as int, ty as int, 0)),
            ),
            final(self).wf(),
    {
        self.local_transform = mat_mul(&self.local_transform, &translation(tx, ty, 0));
    }

    /// Fluent form of [`Transform::translate_2d`].
    pub fn then_translate_2d(self, tx: i64, ty: i64) -> (r: Transform)
        requires
            self.wf(),
        ensures
            r == with_local(
                self,
                mul_m(self.local_transform, translation_s(tx as int, ty as int, 0)),
            ),
            r.wf(),
    {
        let mut s = self;
        s.translate_2d(tx, ty);
        s
    }
}

/// Depth-divisor entry of the injected perspective: `-1/distance` in
/// fixed-point units, clamped; a zero distance pins it to the extreme of the
/// representable range instead of dividing by zero.
pub open spec fn persp_entry_s(distance: int) -> int {
    if distance == 0 {
        -(ENTRY_BOUND as int)
    } else {
        clamp_s(tdiv(-((SCALE as int) * (SCALE as int)), distance))
    }
}

/// Identity except for the depth-divisor entry.
pub open spec fn persp_core_s(distance: int) -> Mat4 {
    Mat4 {
        m11: SCALE, m12: 0, m13: 0, m14: 0,
        m21: 0, m22: SCALE, m23: 0, m24: 0,
        m31: 0, m32: 0, m33: SCALE, m34: persp_entry_s(distance) as i64,
        m41: 0, m42: 0, m43: 0, m44: SCALE,
    }
}

/// The injected perspective: translate by the negated center, push by the
/// empirical depth offset, project, translate back.
pub open spec fn perspective_s(distance: int, ox: int, oy: int) -> Mat4 {
    mul_m(
        mul_m(
            mul_m(translation_s(-ox, -oy, 0), translation_s(0, 0, Z_OFFSET_FP as int)),
            persp_core_s(distance),
        ),
        translation_s(ox, oy, 0),
    )
}

/// Rotation about the x axis by a fixed-point radian angle.
pub open spec fn rot_x_rad_m(a: int) -> Mat4 {
    rotation_s(SCALE as int, 0, 0, sin_fp_s(a), cos_fp_s(a))
}

/// Rotation about the y axis by a fixed-point radian angle.
pub open spec fn rot_y_rad_m(a: int) -> Mat4 {
    rotation_s(0, SCALE as int, 0, sin_fp_s(a), cos_fp_s(a))
}

/// Rotation about the z axis by a fixed-point radian angle.
pub open spec fn rot_z_rad_m(a: int) -> Mat4 {
    rotation_s(0, 0, SCALE as int, sin_fp_s(a), cos_fp_s(a))
}

/// Rotation about an arbitrary axis (expected unit, clamped into range) by a
/// fixed-point radian angle.
pub open spec fn axis_rot_rad_m(x: int, y: int, z: int, a: int) -> Mat4 {
    rotation_s(clamp_s(x), clamp_s(y), clamp_s(z), sin_fp_s(a), cos_fp_s(a))
}

impl Transform {
    /// Sets the parent's perspective parameters. In a style-sheet system this
    /// would live on the parent element; storing it on the child lets one
    /// fluent chain set up the whole node.
    pub fn set_parent_container_perspective(&mut self, distance: i64, origin_x: i64, origin_y: i64)
        requires
            old(self).wf(),
        ensures
            *final(self) == (Transform {
                parent_container_camera_perspective: Some(
                    perspective_s(distance as int, origin_x as int, origin_y as int),
                ),
                ..*old(self)
            }),
            final(self).wf(),
    {
        let e: i64 = if distance == 0 {
            -ENTRY_BOUND
        } else {
            clamp_i64(div_t(-((SCALE as i128) * (SCALE as i128)), distance as i128))
        };
        let mut persp = identity();
        persp.m34 = e;
        let center = translation_w(-(origin_x as i128), -(origin_y as i128), 0);
        let zoff = translation(0, 0, Z_OFFSET_FP);
        let uncenter = translation(origin_x, origin_y, 0);
        self.parent_container_camera_perspective = Some(
            mat_mul(&mat_mul(&mat_mul(&center, &zoff), &persp), &uncenter),
        );
    }

    /// Fluent form of [`Transform::set_parent_container_perspective`].
    pub fn with_parent_container_perspective(
        self,
        distance: i64,
        origin_x: i64,
        origin_y: i64,
    ) -> (r: Transform)
        requires
            self.wf(),
        ensures
            r == (Transform {
                parent_container_camera_perspective: Some(
                    perspective_s(distance as int, origin_x as int, origin_y as int),
                ),
                ..self
            }),
            r.wf(),
    {
        let mut s = self;
        s.set_parent_container_perspective(distance, origin_x, origin_y);
        s
    }

    /// A fresh node rotated about the x axis by an angle in degrees.
    pub fn rotate_x_deg(degrees: i64) -> (r: Transform)
        ensures
            r == with_local(
                new_s(),
                mul_m(identity_m(), rot_x_rad_m(rad_of_deg_s(degrees as int))),
            ),
            r.wf(),
    {
        Transform::new().then_rotate_x_deg(degrees)
    }

    /// A fresh node rotated about the x axis by an angle in radians.
    pub fn rotate_x_rad(radians: i64) -> (r: Transform)
        ensures
            r == with_local(new_s(), mul_m(identity_m(), rot_x_rad_m(radians as int))),
            r.wf(),
    {
        Transform::new().then_rotate_x_rad(radians)
    }

    /// Appends a rotation about the x axis by an angle in degrees.
    pub fn then_rotate_x_deg(self, degrees: i64) -> (r: Transform)
        requires
            self.wf(),
        ensures
            r == with_local(
                self,
                mul_m(self.local_transform, rot_x_rad_m(rad_of_deg_s(degrees as int))),
            ),
            r.wf(),
    {
        self.then_rotate_x_rad(rad_of_deg(degrees))
    }

    /// Appends a rotation about the x axis by an angle in radians.
    pub fn then_rotate_x_rad(self, radians: i64) -> (r: Transform)
        requires
            self.wf(),
        ensures
            r == with_local(self, mul_m(self.local_transform, rot_x_rad_m(radians as int))),
            r.wf(),
    {
        let (sn, cs) = sin_cos_fp(radians);
        let rot = rotation_mat(SCALE, 0, 0, sn, cs);
        let mut s = self;
        s.local_transform = mat_mul(&s.local_transform, &rot);
        s
    }

    /// A fresh node rotated about the y axis by an angle in degrees.
    pub fn rotate_y_deg(degrees: i64) -> (r: Transform)
        ensures
            r == with_local(
                new_s(),
                mul_m(identity_m(), rot_y_rad_m(rad_of_deg_s(degrees as int))),
            ),
            r.wf(),
    {
        Transform::new().then_rotate_y_deg(degrees)
    }

    /// A fresh node rotated about the y axis by an angle in radians.
    pub fn rotate_y_rad(radians: i64) -> (r: Transform)
        ensures
            r == with_local(new_s(), mul_m(identity_m(), rot_y_rad_m(radians as int))),
            r.wf(),
    {
        Transform::new().then_rotate_y_rad(radians)
    }

    /// Appends a rotation about the y axis by an angle in degrees.
    pub fn then_rotate_y_deg(self, degrees: i64) -> (r: Transform)
        requires
            self.wf(),
        ensures
            r == with_local(
                self,
                mul_m(self.local_transform, rot_y_rad_m(rad_of_deg_s(degrees as int))),
            ),
            r.wf(),
    {
        self.then_rotate_y_rad(rad_of_deg(degrees))
    }

    /// Appends a rotation about the y axis by an angle in radians.
    pub fn then_rotate_y_rad(self, radians: i64) -> (r: Transform)
        requires
            self.wf(),
        ensures
            r == with_local(self, mul_m(self.local_transform, rot_y_rad_m(radians as int))),
            r.wf(),
    {
        let (sn, cs) = sin_cos_fp(radians);
        let rot = rotation_mat(0, SCALE, 0, sn, cs);
        let mut s = self;
        s.local_transform = mat_mul(&s.local_transform, &rot);
        s
    }

    /// A fresh node rotated about the z axis by an angle in degrees.
    pub fn rotate_z_deg(degrees: i64) -> (r: Transform)
        ensures
            r == with_local(
                new_s(),
                mul_m(identity_m(), rot_z_rad_m(rad_of_deg_s(degrees as int))),
            ),
            r.wf(),
    {
        Transform::new().then_rotate_z_deg(degrees)
    }

    /// A fresh node rotated about the z axis by an angle in radians.
    pub fn rotate_z_rad(radians: i64) -> (r: Transform)
        ensures
            r == with_local(new_s(), mul_m(identity_m(), rot_z_rad_m(radians as int))),
            r.wf(),
    {
        Transform::new().then_rotate_z_rad(radians)
    }

    /// Appends a rotation about the z axis by an angle in degrees.
    pub fn then_rotate_z_deg(self, degrees: i64) -> (r: Transform)
        requires
            self.wf(),
        ensures
            r == with_local(
                self,
                mul_m(self.local_transform, rot_z_rad_m(rad_of_deg_s(degrees as int))),
            ),
            r.wf(),
    {
        self.then_rotate_z_rad(rad_of_deg(degrees))
    }

    /// Appends a rotation about the z axis by an angle in radians.
    pub fn then_rotate_z_rad(self, radians: i64) -> (r: Transform)
        requires
            self.wf(),
        ensures
            r == with_local(self, mul_m(self.local_transform, rot_z_rad_m(radians as int))),
            r.wf(),
    {
        let (sn, cs) = sin_cos_fp(radians);
        let rot = rotation_mat(0, 0, SCALE, sn, cs);
        let mut s = self;
        s.local_transform = mat_mul(&s.local_transform, &rot);
        s
    }

    /// A fresh node rotated about an arbitrary axis (expected unit) by an
    /// angle in radians.
    pub fn rotate(axis_x: i64, axis_y: i64, axis_z: i64, radians: i64) -> (r: Transform)
        ensures
            r == with_local(
                new_s(),
                mul_m(
                    identity_m(),
                    axis_rot_rad_m(axis_x as int, axis_y as int, axis_z as int, radians as int),
                ),
            ),
            r.wf(),
    {
        Transform::new().then_rotate(axis_x, axis_y, axis_z, radians)
    }

    /// Appends a rotation about an arbitrary axis (expected unit) by an
    /// angle in radians.
    pub fn then_rotate(self, axis_x: i64, axis_y: i64, axis_z: i64, radians: i64) -> (r: Transform)
        requires
            self.wf(),
        ensures
            r == with_local(
                self,
                mul_m(
                    self.local_transform,
                    axis_rot_rad_m(axis_x as int, axis_y as int, axis_z as int, radians as int),
                ),
            ),
            r.wf(),
    {
        let (sn, cs) = sin_cos_fp(radians);
        let cx = clamp_i64(axis_x as i128);
        let cy = clamp_i64(axis_y as i128);
        let cz = clamp_i64(axis_z as i128);
        let rot = rotation_mat(cx, cy, cz, sn, cs);
        let mut s = self;
        s.local_transform = mat_mul(&s.local_transform, &rot);
        s
    }

    /// A fresh node scaled in 2D (the z factor stays 1).
    pub fn scale(sx: i64, sy: i64) -> (r: Transform)
        ensures
            r == with_local(
                new_s(),
                mul_m(identity_m(), scale_s(sx as int, sy as int, SCALE as int)),
            ),
            r.wf(),
    {
        Transform::new().then_scale(sx, sy)
    }

    /// Appends a 2D scale (the z factor stays 1).
    pub fn then_scale(self, sx: i64, sy: i64) -> (r: Transform)
        requires
            self.wf(),
        ensures
            r == with_local(
                self,
                mul_m(self.local_transform, scale_s(sx as int, sy as int, SCALE as int)),
            ),
            r.wf(),
    {
        let mut s = self;
        s.local_transform = mat_mul(&s.local_transform, &scale_mat(sx, sy, SCALE));
        s
    }

    /// A fresh node scaled in 3D.
    pub fn scale_3d(sx: i64, sy: i64, sz: i64) -> (r: Transform)
        ensures
            r == with_local(
                new_s(),
                mul_m(identity_m(), scale_s(sx as int, sy as int, sz as int)),
            ),
            r.wf(),
    {
        Transform::new().then_scale_3d(sx, sy, sz)
    }

    /// Appends a 3D scale.
    pub fn then_scale_3d(self, sx: i64, sy: i64, sz: i64) -> (r: Transform)
        requires
            self.wf(),
        ensures
            r == with_local(
                self,
                mul_m(self.local_transform, scale_s(sx as int, sy as int, sz as int)),
            ),
            r.wf(),
    {
        let mut s = self;
        s.local_transform = mat_mul(&s.local_transform, &scale_mat(sx, sy, sz));
        s
    }
}

/// Near-zero threshold for the homogeneous divisor of the forward mapper:
/// one millionth, in the squared-scale units the raw divisor carries.
pub const W_EPS: i64 = 274878;

/// Forward mapping of a local point `(x, y)` on the node's plane: lift to
/// homogeneous coordinates, apply the matrix, divide by the homogeneous
/// coordinate. A divisor within [`W_EPS`] of zero yields the defined
/// fallback `(0, 0)` rather than a division.
pub open spec fn to_world_s(m: Mat4, x: int, y: int) -> (int, int) {
    let hx = x * ent(m, 0, 0) + y * ent(m, 1, 0) + (SCALE as int) * ent(m, 3, 0);
    let hy = x * ent(m, 0, 1) + y * ent(m, 1, 1) + (SCALE as int) * ent(m, 3, 1);
    let hw = x * ent(m, 0, 3) + y * ent(m, 1, 3) + (SCALE as int) * ent(m, 3, 3);
    if iabs(hw) < W_EPS as int {
        (0, 0)
    } else {
        (
            clamp_s(tdiv(hx * (SCALE as int), hw)),
            clamp_s(tdiv(hy * (SCALE as int), hw)),
        )
    }
}

/// Inverse mapping of a world point with known depth, through the adjugate:
/// `(x, y, z, 1) * adj(m)` equals the inverse transform scaled by the
/// determinant, which cancels in the homogeneous divide. `None` when the
/// determinant is zero (no inverse), when the homogeneous divisor is within
/// a millionth of zero relative to the determinant, or when it falls below
/// one fixed-point unit of resolution.
pub open spec fn inv_point_s(m: Mat4, x: int, y: int, z: int) -> Option<(int, int, int)> {
    let det = det_s(m);
    let hx = adj_apply(m, x, y, z, 0);
    let hy = adj_apply(m, x, y, z, 1);
    let hz = adj_apply(m, x, y, z, 2);
    let hw = adj_apply(m, x, y, z, 3);
    let q = tdiv(hw, SCALE as int);
    if det == 0 {
        None
    } else if iabs(hw) <= iabs(det) / 1000000 {
        None
    } else if q == 0 {
        None
    } else {
        Some((clamp_s(tdiv(hx, q)), clamp_s(tdiv(hy, q)), clamp_s(tdiv(hz, q))))
    }
}

/// Inverse mapping restricted to the plane coordinates.
pub open spec fn to_local_s(m: Mat4, x: int, y: int, z: int) -> Option<(int, int)> {
    match inv_point_s(m, x, y, z) {
        Some(p) => Some((p.0, p.1)),
        None => None,
    }
}

/// Screen-space ray cast: pull the screen point back at depths 0 and 1 to
/// get a local-space ray, then intersect it with the local `z = 0` plane.
/// `None` when the matrix has no inverse, when either pullback is
/// degenerate, or when the ray runs parallel to the plane.
pub open spec fn ray_cast_s(m: Mat4, sx: int, sy: int) -> Option<(int, int)> {
    match inv_point_s(m, sx, sy, 0) {
        None => None,
        Some(o) => match inv_point_s(m, sx, sy, SCALE as int) {
            None => None,
            Some(e) => {
                let dx = e.0 - o.0;
                let dy = e.1 - o.1;
                let dz = e.2 - o.2;
                if dz == 0 {
                    None
                } else {
                    let t = tdiv(-(o.2 * (SCALE as int)), dz);
                    Some(
                        (
                            clamp_s(o.0 + tdiv(t * dx, SCALE as int)),
                            clamp_s(o.1 + tdiv(t * dy, SCALE as int)),
                        ),
                    )
                }
            },
        },
    }
}

/// Inverse divide through the adjugate; shared by the inverse mapper and
/// the ray caster.
fn inv_point(m: &Mat4, x: i64, y: i64, z: i64) -> (r: Option<(i64, i64, i64)>)
    requires
        m.wf(),
        iabs(x as int) <= ENTRY_BOUND,
        iabs(y as int) <= ENTRY_BOUND,
        iabs(z as int) <= ENTRY_BOUND,
    ensures
        match r {
            Some(p) => {
                &&& inv_point_s(*m, x as int, y as int, z as int) == Some(
                    (p.0 as int, p.1 as int, p.2 as int),
                )
                &&& iabs(p.0 as int) <= ENTRY_BOUND
                &&& iabs(p.1 as int) <= ENTRY_BOUND
                &&& iabs(p.2 as int) <= ENTRY_BOUND
            },
            None => inv_point_s(*m, x as int, y as int, z as int) is None,
        },
{
    let det = det4(m);
    if det == 0 {
        return None;
    }
    let hx = adj_apply_row(m, x, y, z, 0);
    let hy = adj_apply_row(m, x, y, z, 1);
    let hz = adj_apply_row(m, x, y, z, 2);
    let hw = adj_apply_row(m, x, y, z, 3);
    let adet: i128 = if det < 0 { -det } else { det };
    let ahw: i128 = if hw < 0 { -hw } else { hw };
    if ahw <= adet / 1000000 {
        return None;
    }
    let q = div_t(hw, SCALE as i128);
    if q == 0 {
        return None;
    }
    Some((clamp_i64(div_t(hx, q)), clamp_i64(div_t(hy, q)), clamp_i64(div_t(hz, q))))
}

impl Transform {
    /// Maps a local 2D point on this node's plane into world coordinates,
    /// with the homogeneous divide that perspective needs. A near-zero
    /// divisor (the point at or beyond the plane at infinity) yields the
    /// defined fallback `(0, 0)`.
    pub fn transform_local_point2d_to_world(&self, x: i64, y: i64) -> (w: (i64, i64))
        requires
            self.wf(),
            iabs(x as int) <= ENTRY_BOUND,
            iabs(y as int) <= ENTRY_BOUND,
        ensures
            w.0 as int == to_world_s(self.world_transform, x as int, y as int).0,
            w.1 as int == to_world_s(self.world_transform, x as int, y as int).1,
    {
        let m = &self.world_transform;
        proof {
            assert(iabs(x as int * m.m11 as int) <= 0x1000_0000_0000_0000
                && iabs(y as int * m.m21 as int) <= 0x1000_0000_0000_0000
                && iabs(x as int * m.m12 as int) <= 0x1000_0000_0000_0000
                && iabs(y as int * m.m22 as int) <= 0x1000_0000_0000_0000
                && iabs(x as int * m.m14 as int) <= 0x1000_0000_0000_0000
                && iabs(y as int * m.m24 as int) <= 0x1000_0000_0000_0000
                && iabs((SCALE as int) * m.m41 as int) <= 0x1000_0000_0000_0000
                && iabs((SCALE as int) * m.m42 as int) <= 0x1000_0000_0000_0000
                && iabs((SCALE as int) * m.m44 as int) <= 0x1000_0000_0000_0000)
                by (nonlinear_arith)
                requires
                    iabs(x as int) <= 0x4000_0000,
                    iabs(y as int) <= 0x4000_0000,
                    iabs(m.m11 as int) <= 0x4000_0000, iabs(m.m21 as int) <= 0x4000_0000,
                    iabs(m.m12 as int) <= 0x4000_0000, iabs(m.m22 as int) <= 0x4000_0000,
                    iabs(m.m14 as int) <= 0x4000_0000, iabs(m.m24 as int) <= 0x4000_0000,
                    iabs(m.m41 as int) <= 0x4000_0000, iabs(m.m42 as int) <= 0x4000_0000,
                    iabs(m.m44 as int) <= 0x4000_0000,
            ;
        }
        let hx: i128 = (x as i128) * (m.m11 as i128) + (y as i128) * (m.m21 as i128)
            + (SCALE as i128) * (m.m41 as i128);
        let hy: i128 = (x as i128) * (m.m12 as i128) + (y as i128) * (m.m22 as i128)
            + (SCALE as i128) * (m.m42 as i128);
        let hw: i128 = (x as i128) * (m.m14 as i128) + (y as i128) * (m.m24 as i128)
            + (SCALE as i128) * (m.m44 as i128);
        let ahw: i128 = if hw < 0 { -hw } else { hw };
        if ahw < W_EPS as i128 {
            (0, 0)
        } else {
            (
                clamp_i64(div_t(hx * (SCALE as i128), hw)),
                clamp_i64(div_t(hy * (SCALE as i128), hw)),
            )
        }
    }

    /// Maps a world point with a known world-space depth back into local
    /// coordinates. Perspective is not affine, so without `z` a world
    /// `(x, y)` does not pin down a unique local point; to invert a point
    /// that came from the local plane, read its depth off the forward
    /// transform first. `None` when the world matrix has no inverse or the
    /// homogeneous divisor is degenerate.
    pub fn transform_world_point_to_local(&self, x: i64, y: i64, z: i64) -> (r: Option<
        (i64, i64),
    >)
        requires
            self.wf(),
            iabs(x as int) <= ENTRY_BOUND,
            iabs(y as int) <= ENTRY_BOUND,
            iabs(z as int) <= ENTRY_BOUND,
        ensures
            match r {
                Some(p) => to_local_s(self.world_transform, x as int, y as int, z as int)
                    == Some((p.0 as int, p.1 as int)),
                None => to_local_s(self.world_transform, x as int, y as int, z as int) is None,
            },
    {
        match inv_point(&self.world_transform, x, y, z) {
            Some(p) => Some((p.0, p.1)),
            None => None,
        }
    }

    /// Hit testing with unknown depth: casts the screen-space viewing ray
    /// through the inverse transform and intersects it with this node's
    /// local `z = 0` plane. `None` when the world matrix has no inverse,
    /// when a pullback divide is degenerate, or when the ray is parallel to
    /// the plane (an edge-on view).
    pub fn project_screen_point_to_local_2d(&self, screen_pos: (i64, i64)) -> (r: Option<
        (i64, i64),
    >)
        requires
            self.wf(),
            iabs(screen_pos.0 as int) <= ENTRY_BOUND,
            iabs(screen_pos.1 as int) <= ENTRY_BOUND,
        ensures
            match r {
                Some(p) => ray_cast_s(self.world_transform, screen_pos.0 as int, screen_pos.1 as int)
                    == Some((p.0 as int, p.1 as int)),
                None => ray_cast_s(self.world_transform, screen_pos.0 as int, screen_pos.1 as int)
                    is None,
            },
    {
        let m = &self.world_transform;
        let o = match inv_point(m, screen_pos.0, screen_pos.1, 0) {
            Some(o) => o,
            None => {
                return None;
            },
        };
        let e = match inv_point(m, screen_pos.0, screen_pos.1, SCALE) {
            Some(e) => e,
            None => {
                return None;
            },
        };
        let dx = e.0 - o.0;
        let dy = e.1 - o.1;
        let dz = e.2 - o.2;
        if dz == 0 {
            return None;
        }
        let t = div_t(-((o.2 as i128) * (SCALE as i128)), dz as i128);
        proof {
            assert(iabs(t as int * dx as int) <= 0x2_0000_0000_0000_0000_0000
                && iabs(t as int * dy as int) <= 0x2_0000_0000_0000_0000_0000)
                by (nonlinear_arith)
                requires
                    iabs(t as int) <= 0x2_0000_0000_0000,
                    iabs(dx as int) <= 0x1_0000_0000,
                    iabs(dy as int) <= 0x1_0000_0000,
            ;
        }
        let rx = clamp_i64((o.0 as i128) + div_t((t) * (dx as i128), SCALE as i128));
        let ry = clamp_i64((o.1 as i128) + div_t((t) * (dy as i128), SCALE as i128));
        Some((rx, ry))
    }

    /// The local accumulator's rows, row-major.
    pub fn rows_local(&self) -> (r: [[i64; 4]; 4])
        ensures
            r@[0]@[0] == self.local_transform.m11, r@[0]@[1] == self.local_transform.m12,
            r@[0]@[2] == self.local_transform.m13, r@[0]@[3] == self.local_transform.m14,
            r@[1]@[0] == self.local_transform.m21, r@[1]@[1] == self.local_transform.m22,
            r@[1]@[2] == self.local_transform.m23, r@[1]@[3] == self.local_transform.m24,
            r@[2]@[0] == self.local_transform.m31, r@[2]@[1] == self.local_transform.m32,
            r@[2]@[2] == self.local_transform.m33, r@[2]@[3] == self.local_transform.m34,
            r@[3]@[0] == self.local_transform.m41, r@[3]@[1] == self.local_transform.m42,
            r@[3]@[2] == self.local_transform.m43, r@[3]@[3] == self.local_transform.m44,
    {
        let m = &self.local_transform;
        [
            [m.m11, m.m12, m.m13, m.m14],
            [m.m21, m.m22, m.m23, m.m24],
            [m.m31, m.m32, m.m33, m.m34],
            [m.m41, m.m42, m.m43, m.m44],
        ]
    }

    /// The world matrix's rows, row-major.
    pub fn rows_world(&self) -> (r: [[i64; 4]; 4])
        ensures
            r@[0]@[0] == self.world_transform.m11, r@[0]@[1] == self.world_transform.m12,
            r@[0]@[2] == self.world_transform.m13, r@[0]@[3] == self.world_transform.m14,
            r@[1]@[0] == self.world_transform.m21, r@[1]@[1] == self.world_transform.m22,
            r@[1]@[2] == self.world_transform.m23, r@[1]@[3] == self.world_transform.m24,
            r@[2]@[0] == self.world_transform.m31, r@[2]@[1] == self.world_transform.m32,
            r@[2]@[2] == self.world_transform.m33, r@[2]@[3] == self.world_transform.m34,
            r@[3]@[0] == self.world_transform.m41, r@[3]@[1] == self.world_transform.m42,
            r@[3]@[2] == self.world_transform.m43, r@[3]@[3] == self.world_transform.m44,
    {
        let m = &self.world_transform;
        [
            [m.m11, m.m12, m.m13, m.m14],
            [m.m21, m.m22, m.m23, m.m24],
            [m.m31, m.m32, m.m33, m.m34],
            [m.m41, m.m42, m.m43, m.m44],
        ]
    }
}

impl Default for Transform {
    /// Same as [`Transform::new`].
    fn default() -> (r: Transform)
        ensures
            r == new_s(),
            r.wf(),
    {
        Transform::new()
    }
}

} // verus!
