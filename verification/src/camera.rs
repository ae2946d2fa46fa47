//! The free-fly camera: raw parameters plus lazily cached derived state.
//!
//! Every setter marks the derived state stale; the next read of any derived
//! value recomputes the view matrix, projection matrix, combined
//! view-projection matrix and look direction together, then clears the flag.
//! The derived values are pure functions of the raw parameters, so a read
//! repeated with no intervening mutation returns bit-identical results.

use vstd::prelude::*;

use crate::bits::F32_ONE;
use crate::bits::F32_ZERO;
use crate::bits::Mat4Bits;
use crate::bits::QuatBits;
use crate::bits::Vec3Bits;
use crate::bits::vec3_forward;
use crate::math::mat4_from_rotation_translation;
use crate::math::mat4_inverse;
use crate::math::mat4_inversed;
use crate::math::mat4_mul;
use crate::math::mat4_perspective_lh;
use crate::math::mat4_prod;
use crate::math::perspective_mat;
use crate::math::quat_rotate_vec3;
use crate::math::radians_of;
use crate::math::rot_trans_mat;
use crate::math::rotated_vec3;
use crate::math::f32_to_radians;

verus! {

pub struct Camera {
    pub position: Vec3Bits,
    pub rotation: QuatBits,
    pub fov: u32,
    pub aspect_ratio: u32,
    pub near_plane: u32,
    pub far_plane: u32,
    pub is_dirty: bool,
    pub look_dir: Vec3Bits,
    pub view_matrix: Mat4Bits,
    pub proj_matrix: Mat4Bits,
    pub view_proj_matrix: Mat4Bits,
}

impl Camera {
    /// The view matrix this camera derives: the inverse of the rigid
    /// transform built from its rotation and position.
    pub open spec fn view_of(self) -> Mat4Bits {
        mat4_inversed(rot_trans_mat(self.rotation, self.position))
    }

    /// The projection matrix this camera derives: a left-handed perspective
    /// projection from its field of view (degrees), aspect ratio and clip
    /// planes.
    pub open spec fn proj_of(self) -> Mat4Bits {
        perspective_mat(radians_of(self.fov), self.aspect_ratio, self.near_plane, self.far_plane)
    }

    /// The combined matrix this camera derives: projection times view.
    pub open spec fn view_proj_of(self) -> Mat4Bits {
        mat4_prod(self.proj_of(), self.view_of())
    }

    /// The look direction this camera derives: its rotation applied to the
    /// canonical forward axis.
    pub open spec fn look_of(self) -> Vec3Bits {
        rotated_vec3(self.rotation, vec3_forward())
    }

    /// Cache discipline: whenever the stale flag is clear, every cached
    /// derived value equals the value derived from the raw parameters.
    pub open spec fn wf(self) -> bool {
        !self.is_dirty ==> {
            &&& self.look_dir == self.look_of()
            &&& self.view_matrix == self.view_of()
            &&& self.proj_matrix == self.proj_of()
            &&& self.view_proj_matrix == self.view_proj_of()
        }
    }

    pub fn new(
        position: Vec3Bits,
        rotation: QuatBits,
        fov: u32,
        aspect_ratio: u32,
        near_plane: u32,
        far_plane: u32,
    ) -> (r: Camera)
        ensures
            r.wf(),
            r.position == position,
            r.rotation == rotation,
            r.fov == fov,
            r.aspect_ratio == aspect_ratio,
            r.near_plane == near_plane,
            r.far_plane == far_plane,
            r.is_dirty,
    {
        Camera {
            position,
            rotation,
            fov,
            aspect_ratio,
            near_plane,
            far_plane,
            is_dirty: true,
            look_dir: Vec3Bits { x: F32_ZERO, y: F32_ZERO, z: F32_ZERO },
            view_matrix: Mat4Bits::identity(),
            proj_matrix: Mat4Bits::identity(),
            view_proj_matrix: Mat4Bits::identity(),
        }
    }

    pub fn position(&self) -> (r: Vec3Bits)
        ensures
            r == self.position,
    {
        self.position
    }

    pub fn set_position(&mut self, position: Vec3Bits)
        ensures
            *final(self) == (Camera { position, is_dirty: true, ..*old(self) }),
    {
        self.position = position;
        self.is_dirty = true;
    }

    pub fn rotation(&self) -> (r: QuatBits)
        ensures
            r == self.rotation,
    {
        self.rotation
    }

    pub fn set_rotation(&mut self, rotation: QuatBits)
        ensures
            *final(self) == (Camera { rotation, is_dirty: true, ..*old(self) }),
    {
        self.rotation = rotation;
        self.is_dirty = true;
    }

    pub fn fov(&self) -> (r: u32)
        ensures
            r == self.fov,
    {
        self.fov
    }

    pub fn set_fov(&mut self, fov: u32)
        ensures
            *final(self) == (Camera { fov, is_dirty: true, ..*old(self) }),
    {
        self.fov = fov;
        self.is_dirty = true;
    }

    pub fn aspect_ratio(&self) -> (r: u32)
        ensures
            r == self.aspect_ratio,
    {
        self.aspect_ratio
    }

    pub fn set_aspect_ratio(&mut self, aspect_ratio: u32)
        ensures
            *final(self) == (Camera { aspect_ratio, is_dirty: true, ..*old(self) }),
    {
        self.aspect_ratio = aspect_ratio;
        self.is_dirty = true;
    }

    pub fn near_plane(&self) -> (r: u32)
        ensures
            r == self.near_plane,
    {
        self.near_plane
    }

    pub fn set_near_plane(&mut self, near_plane: u32)
        ensures
            *final(self) == (Camera { near_plane, is_dirty: true, ..*old(self) }),
    {
        self.near_plane = near_plane;
        self.is_dirty = true;
    }

    pub fn far_plane(&self) -> (r: u32)
        ensures
            r == self.far_plane,
    {
        self.far_plane
    }

    pub fn set_far_plane(&mut self, far_plane: u32)
        ensures
            *final(self) == (Camera { far_plane, is_dirty: true, ..*old(self) }),
    {
        self.far_plane = far_plane;
        self.is_dirty = true;
    }

    /// The state every derived-value read leaves behind: the caches filled
    /// from the current raw parameters and the stale flag clear.
    pub open spec fn refreshed(self) -> Camera {
        Camera {
            is_dirty: false,
            look_dir: self.look_of(),
            view_matrix: self.view_of(),
            proj_matrix: self.proj_of(),
            view_proj_matrix: self.view_proj_of(),
            ..self
        }
    }

    fn update_values(&mut self)
        ensures
            *final(self) == (Camera { is_dirty: old(self).is_dirty, ..old(self).refreshed() }),
    {
        let forward = Vec3Bits { x: F32_ZERO, y: F32_ZERO, z: F32_ONE };
        self.look_dir = quat_rotate_vec3(&self.rotation, &forward);
        let rigid = mat4_from_rotation_translation(&self.rotation, &self.position);
        self.view_matrix = mat4_inverse(&rigid);
        self.proj_matrix = mat4_perspective_lh(
            f32_to_radians(self.fov),
            self.aspect_ratio,
            self.near_plane,
            self.far_plane,
        );
        self.view_proj_matrix = mat4_mul(&self.proj_matrix, &self.view_matrix);
    }

    pub fn look_dir(&mut self) -> (r: Vec3Bits)
        requires
            old(self).wf(),
        ensures
            *final(self) == old(self).refreshed(),
            r == old(self).look_of(),
    {
        if self.is_dirty {
            self.update_values();
            self.is_dirty = false;
        }
        self.look_dir
    }

    pub fn view_matrix(&mut self) -> (r: Mat4Bits)
        requires
            old(self).wf(),
        ensures
            *final(self) == old(self).refreshed(),
            r == old(self).view_of(),
    {
        if self.is_dirty {
            self.update_values();
            self.is_dirty = false;
        }
        self.view_matrix
    }

    pub fn proj_matrix(&mut self) -> (r: Mat4Bits)
        requires
            old(self).wf(),
        ensures
            *final(self) == old(self).refreshed(),
            r == old(self).proj_of(),
    {
        if self.is_dirty {
            self.update_values();
            self.is_dirty = false;
        }
        self.proj_matrix
    }

    pub fn view_proj_matrix(&mut self) -> (r: Mat4Bits)
        requires
            old(self).wf(),
        ensures
            *final(self) == old(self).refreshed(),
            r == old(self).view_proj_of(),
    {
        if self.is_dirty {
            self.update_values();
            self.is_dirty = false;
        }
        self.view_proj_matrix
    }
}

/// Cache correctness: the derived values are functions of the raw camera
/// parameters alone.  Two cameras that agree on position, rotation, field of
/// view, aspect ratio and clip planes derive identical matrices and look
/// direction, whatever their cache state; in particular a derived-value read
/// repeated with no intervening setter returns the same bits.
pub proof fn lemma_derived_values_from_params_only(a: Camera, b: Camera)
    requires
        a.position == b.position,
        a.rotation == b.rotation,
        a.fov == b.fov,
        a.aspect_ratio == b.aspect_ratio,
        a.near_plane == b.near_plane,
        a.far_plane == b.far_plane,
    ensures
        a.view_of() == b.view_of(),
        a.proj_of() == b.proj_of(),
        a.view_proj_of() == b.view_proj_of(),
        a.look_of() == b.look_of(),
{
}

} // verus!
