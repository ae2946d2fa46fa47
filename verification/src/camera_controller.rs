//! The free-fly camera controller.
//!
//! Each tick it consumes the input state's look delta and movement vector
//! and the elapsed time, accumulates yaw and pitch angles, rebuilds the
//! rotation (yaw about world-up, then pitch about local-right), advances the
//! position by `speed * delta * (rotation applied to the movement vector)`,
//! and writes position and rotation back into the camera.

use vstd::prelude::*;

use crate::bits::F32_ONE;
use crate::bits::QuatBits;
use crate::bits::Vec2Bits;
use crate::bits::Vec3Bits;
use crate::bits::vec2_zero;
use crate::bits::vec3_zero;
use crate::camera::Camera;
use crate::input_manager::InputManager;
use crate::math::f32_mul;
use crate::math::f32_prod;
use crate::math::f32_to_radians;
use crate::math::pitch_quat;
use crate::math::quat_from_rotation_x;
use crate::math::quat_from_rotation_y;
use crate::math::quat_mul;
use crate::math::quat_prod;
use crate::math::quat_rotate_vec3;
use crate::math::radians_of;
use crate::math::rotated_vec3;
use crate::math::vec2_add;
use crate::math::vec2_sum;
use crate::math::vec3_add;
use crate::math::vec3_scale;
use crate::math::vec3_scaled;
use crate::math::vec3_sum;
use crate::math::yaw_quat;
use crate::time_manager::TimeManager;
use crate::time_manager::time_secs_bits;

verus! {

/// Construction-time settings of the controller.
#[derive(Clone, Copy, PartialEq, Eq, Structural, Debug)]
pub struct CameraSettings {
    pub initial_pos: Vec3Bits,
    pub initial_rotation_angles: Vec2Bits,
    pub speed: u32,
}

/// The default settings: start at the origin facing forward, unit speed.
pub open spec fn camera_settings_default() -> CameraSettings {
    CameraSettings {
        initial_pos: vec3_zero(),
        initial_rotation_angles: vec2_zero(),
        speed: F32_ONE,
    }
}

impl Default for CameraSettings {
    fn default() -> (r: CameraSettings)
        ensures
            r == camera_settings_default(),
    {
        CameraSettings {
            initial_pos: Vec3Bits::zero(),
            initial_rotation_angles: Vec2Bits::zero(),
            speed: F32_ONE,
        }
    }
}

pub struct CameraController {
    pub settings: CameraSettings,
    pub position: Vec3Bits,
    pub rotation_angles: Vec2Bits,
}

/// The rotation built from accumulated yaw and pitch angles in degrees:
/// yaw about world-up, then pitch about local-right.
pub open spec fn rotation_of_angles(angles: Vec2Bits) -> QuatBits {
    quat_prod(yaw_quat(radians_of(angles.x)), pitch_quat(radians_of(angles.y)))
}

impl CameraController {
    pub fn new(settings: &CameraSettings) -> (r: CameraController)
        ensures
            r == (CameraController {
                settings: *settings,
                position: settings.initial_pos,
                rotation_angles: settings.initial_rotation_angles,
            }),
    {
        CameraController {
            settings: *settings,
            position: settings.initial_pos,
            rotation_angles: settings.initial_rotation_angles,
        }
    }

    /// One tick: accumulates the look delta into the yaw/pitch angles,
    /// rebuilds the rotation, advances the position by the scaled, rotated
    /// movement vector, and writes both into the camera (which marks its
    /// derived state stale).
    pub fn update(
        &mut self,
        time_manager: &TimeManager,
        input_manager: &InputManager,
        camera: &mut Camera,
    )
        ensures
            final(self).settings == old(self).settings,
            final(self).rotation_angles == vec2_sum(
                old(self).rotation_angles,
                input_manager.look_delta,
            ),
            final(self).position == vec3_sum(
                old(self).position,
                vec3_scaled(
                    f32_prod(old(self).settings.speed, time_secs_bits(time_manager.delta_micros)),
                    rotated_vec3(
                        rotation_of_angles(final(self).rotation_angles),
                        input_manager.move_vector,
                    ),
                ),
            ),
            *final(camera) == (Camera {
                position: final(self).position,
                rotation: rotation_of_angles(final(self).rotation_angles),
                is_dirty: true,
                ..*old(camera)
            }),
    {
        let delta_secs = time_manager.delta_secs_bits();
        self.rotation_angles = vec2_add(&self.rotation_angles, &input_manager.look_delta());

        let rotation = quat_mul(
            &quat_from_rotation_y(f32_to_radians(self.rotation_angles.x)),
            &quat_from_rotation_x(f32_to_radians(self.rotation_angles.y)),
        );

        let scale = f32_mul(self.settings.speed, delta_secs);
        let movement = vec3_scale(scale, &quat_rotate_vec3(&rotation, &input_manager.move_vector()));
        self.position = vec3_add(&self.position, &movement);

        camera.set_position(self.position);
        camera.set_rotation(rotation);
    }
}

} // verus!
