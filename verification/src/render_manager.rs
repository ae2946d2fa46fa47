//! The orchestrator: logical owner of the frame lifecycle.
//!
//! The manager holds the camera, the scene uniform record, the accumulated
//! frame time and the per-stage pass registry, and turns each tick into a
//! frame plan: the refreshed uniform record plus the exact command sequence
//! the GPU shell must perform.  It also carries the resize rules (a zero
//! dimension is a routine no-op; a real resize retargets every
//! size-dependent resource and the camera's aspect ratio) and the
//! preference rules with which the shell picks a surface format and a
//! presentation mode.

use vstd::prelude::*;

use crate::bits::Vec2Bits;
use crate::bits::Vec3Bits;
use crate::bits::QuatBits;
use crate::camera::Camera;
use crate::math::f32_div;
use crate::math::f32_from_u64;
use crate::math::f32_from_u32;
use crate::math::f32_of_u32;
use crate::math::f32_quot;
use crate::renderer::FrameCommand;
use crate::renderer::RenderStage;
use crate::renderer::schedule_of;
use crate::scene::SceneUniform;
use crate::scene::scene_uniform_default;
use crate::time_manager::F32_MICROS_PER_SEC;
use crate::time_manager::TimeManager;
use crate::time_manager::time_secs_bits;

verus! {

/// Bit pattern of `0.0f64`, the default clear color's color channels.
pub const F64_ZERO: u64 = 0x0000_0000_0000_0000;
/// Bit pattern of `1.0f64`, the default clear color's alpha channel.
pub const F64_ONE: u64 = 0x3FF0_0000_0000_0000;
/// Bit pattern of `60.0f32`, the default field of view in degrees.
pub const F32_DEFAULT_FOV: u32 = 0x4270_0000;
/// Bit pattern of `0.1f32`, the default near clip plane.
pub const F32_DEFAULT_NEAR: u32 = 0x3DCC_CCCD;
/// Bit pattern of `100.0f32`, the default far clip plane.
pub const F32_DEFAULT_FAR: u32 = 0x42C8_0000;

/// A clear color, as the bit patterns of four double-precision channels.
#[derive(Clone, Copy, PartialEq, Eq, Structural, Debug)]
pub struct ClearColor {
    pub r: u64,
    pub g: u64,
    pub b: u64,
    pub a: u64,
}

/// Construction-time settings of the render manager.
#[derive(Clone, Copy, PartialEq, Eq, Structural, Debug)]
pub struct RenderSettings {
    pub clear_color: ClearColor,
    pub camera_fov: u32,
    pub camera_near_plane: u32,
    pub camera_far_plane: u32,
}

/// The default settings: an opaque black clear color, a 60-degree field of
/// view and clip planes at 0.1 and 100.
pub open spec fn render_settings_default() -> RenderSettings {
    RenderSettings {
        clear_color: ClearColor { r: F64_ZERO, g: F64_ZERO, b: F64_ZERO, a: F64_ONE },
        camera_fov: F32_DEFAULT_FOV,
        camera_near_plane: F32_DEFAULT_NEAR,
        camera_far_plane: F32_DEFAULT_FAR,
    }
}

impl Default for RenderSettings {
    fn default() -> (r: RenderSettings)
        ensures
            r == render_settings_default(),
    {
        RenderSettings {
            clear_color: ClearColor { r: F64_ZERO, g: F64_ZERO, b: F64_ZERO, a: F64_ONE },
            camera_fov: F32_DEFAULT_FOV,
            camera_near_plane: F32_DEFAULT_NEAR,
            camera_far_plane: F32_DEFAULT_FAR,
        }
    }
}

/// The accumulated time clamped into a `u64`: the sum where it fits, else
/// the largest representable count.
pub open spec fn sat_add_u64(a: u64, b: u64) -> u64 {
    if a + b <= u64::MAX {
        (a + b) as u64
    } else {
        u64::MAX
    }
}

/// Everything the GPU shell needs to perform one frame: whether the scene
/// bind group must be rebuilt before use, the refreshed uniform record to
/// upload, and the command sequence to execute in order.
#[derive(Debug)]
pub struct FramePlan {
    pub rebuild_scene_bind_group: bool,
    pub uniform: SceneUniform,
    pub commands: Vec<FrameCommand>,
}

pub struct RenderManager {
    pub settings: RenderSettings,
    pub surface_width: u32,
    pub surface_height: u32,
    pub camera: Camera,
    pub uniform: SceneUniform,
    pub time_micros: u64,
    pub opaque_passes: Vec<u32>,
    pub transparent_passes: Vec<u32>,
    pub scene_bind_group_stale: bool,
}

impl RenderManager {
    /// The manager is well-formed whenever its camera's cache is.
    pub open spec fn wf(self) -> bool {
        self.camera.wf()
    }

    /// The uniform record a frame at this state publishes: the camera's
    /// derived matrices, look direction, position and clip planes, and the
    /// accumulated time in seconds.
    pub open spec fn refreshed_uniform(self) -> SceneUniform {
        SceneUniform {
            view_proj_matrix: self.camera.view_proj_of(),
            camera_dir: self.camera.look_of(),
            camera_pos: self.camera.position,
            camera_near: self.camera.near_plane,
            camera_far: self.camera.far_plane,
            time: time_secs_bits(self.time_micros),
            ..self.uniform
        }
    }

    /// Creates the logical manager for a surface of the given size: a camera
    /// at the origin with the identity rotation and the configured
    /// projection, the default scene record, no registered passes and no
    /// accumulated time.  The scene bind group starts stale: the shell must
    /// build it before the first frame.
    pub fn new(settings: &RenderSettings, surface_width: u32, surface_height: u32) -> (r:
        RenderManager)
        ensures
            r.wf(),
            r.settings == *settings,
            r.surface_width == surface_width,
            r.surface_height == surface_height,
            r.camera.position == crate::bits::vec3_zero(),
            r.camera.rotation == crate::bits::quat_identity(),
            r.camera.fov == settings.camera_fov,
            r.camera.aspect_ratio == f32_quot(f32_of_u32(surface_width), f32_of_u32(surface_height)),
            r.camera.near_plane == settings.camera_near_plane,
            r.camera.far_plane == settings.camera_far_plane,
            r.uniform == scene_uniform_default(),
            r.time_micros == 0,
            r.opaque_passes@ == Seq::<u32>::empty(),
            r.transparent_passes@ == Seq::<u32>::empty(),
            r.scene_bind_group_stale,
    {
        let aspect = f32_div(f32_from_u32(surface_width), f32_from_u32(surface_height));
        let camera = Camera::new(
            Vec3Bits::zero(),
            QuatBits::identity(),
            settings.camera_fov,
            aspect,
            settings.camera_near_plane,
            settings.camera_far_plane,
        );
        let r = RenderManager {
            settings: *settings,
            surface_width,
            surface_height,
            camera,
            uniform: SceneUniform::default(),
            time_micros: 0,
            opaque_passes: Vec::new(),
            transparent_passes: Vec::new(),
            scene_bind_group_stale: true,
        };
        proof {
            assert(r.opaque_passes@ =~= Seq::<u32>::empty());
            assert(r.transparent_passes@ =~= Seq::<u32>::empty());
        }
        r
    }

    /// Registers a pass handle in the bucket of its declared stage.  No
    /// de-duplication: passes run in registration order within their stage.
    pub fn add_renderer(&mut self, stage: RenderStage, pass: u32)
        ensures
            stage == RenderStage::OPAQUE ==> final(self).opaque_passes@ == old(
                self,
            ).opaque_passes@.push(pass),
            stage == RenderStage::OPAQUE ==> final(self).transparent_passes@ == old(
                self,
            ).transparent_passes@,
            stage == RenderStage::TRANSPARENT ==> final(self).transparent_passes@ == old(
                self,
            ).transparent_passes@.push(pass),
            stage == RenderStage::TRANSPARENT ==> final(self).opaque_passes@ == old(
                self,
            ).opaque_passes@,
            final(self).settings == old(self).settings,
            final(self).surface_width == old(self).surface_width,
            final(self).surface_height == old(self).surface_height,
            final(self).camera == old(self).camera,
            final(self).uniform == old(self).uniform,
            final(self).time_micros == old(self).time_micros,
            final(self).scene_bind_group_stale == old(self).scene_bind_group_stale,
    {
        match stage {
            RenderStage::OPAQUE => self.opaque_passes.push(pass),
            RenderStage::TRANSPARENT => self.transparent_passes.push(pass),
        }
    }

    pub fn camera(&self) -> (r: &Camera)
        ensures
            r == &self.camera,
    {
        &self.camera
    }

    /// A mutable handle on the camera, for the camera controller's per-tick
    /// update.  Only the camera can change through it.
    pub fn camera_mut(&mut self) -> (r: &mut Camera)
        ensures
            *r == old(self).camera,
            final(self).camera == *final(r),
            final(self).settings == old(self).settings,
            final(self).surface_width == old(self).surface_width,
            final(self).surface_height == old(self).surface_height,
            final(self).uniform == old(self).uniform,
            final(self).time_micros == old(self).time_micros,
            final(self).opaque_passes@ == old(self).opaque_passes@,
            final(self).transparent_passes@ == old(self).transparent_passes@,
            final(self).scene_bind_group_stale == old(self).scene_bind_group_stale,
    {
        &mut self.camera
    }

    pub fn uniform(&self) -> (r: &SceneUniform)
        ensures
            r == &self.uniform,
    {
        &self.uniform
    }

    /// Handles a window resize.  A zero dimension means a minimized window:
    /// the whole state is left untouched and the shell is told to recreate
    /// nothing.  Otherwise the surface size, the uniform record's surface
    /// size and the camera's aspect ratio are updated, the scene bind group
    /// is invalidated, and the shell is told to recreate the depth and
    /// opaque snapshot targets at exactly the new size.
    pub fn handle_resize(&mut self, width: u32, height: u32) -> (r: Option<(u32, u32)>)
        ensures
            (width == 0 || height == 0) ==> {
                &&& *final(self) == *old(self)
                &&& r is None
            },
            (width != 0 && height != 0) ==> {
                &&& r == Some((width, height))
                &&& final(self).surface_width == width
                &&& final(self).surface_height == height
                &&& final(self).camera == (Camera {
                    aspect_ratio: f32_quot(f32_of_u32(width), f32_of_u32(height)),
                    is_dirty: true,
                    ..old(self).camera
                })
                &&& final(self).uniform == (SceneUniform {
                    surface_size: Vec2Bits { x: f32_of_u32(width), y: f32_of_u32(height) },
                    ..old(self).uniform
                })
                &&& final(self).scene_bind_group_stale
                &&& final(self).settings == old(self).settings
                &&& final(self).camera.position == old(self).camera.position
                &&& final(self).time_micros == old(self).time_micros
                &&& final(self).opaque_passes@ == old(self).opaque_passes@
                &&& final(self).transparent_passes@ == old(self).transparent_passes@
            },
    {
        if width == 0 || height == 0 {
            return None;
        }
        self.surface_width = width;
        self.surface_height = height;
        self.uniform.surface_size = Vec2Bits { x: f32_from_u32(width), y: f32_from_u32(height) };
        self.camera.set_aspect_ratio(f32_div(f32_from_u32(width), f32_from_u32(height)));
        self.scene_bind_group_stale = true;
        Some((width, height))
    }

    /// Advances the accumulated frame time by the elapsed microseconds,
    /// clamping at the largest representable count.  Time never decreases.
    pub fn advance_time(&mut self, delta_micros: u64)
        ensures
            final(self).time_micros == sat_add_u64(old(self).time_micros, delta_micros),
            final(self).time_micros >= old(self).time_micros,
            *final(self) == (RenderManager { time_micros: final(self).time_micros, ..*old(self) }),
    {
        if delta_micros <= u64::MAX - self.time_micros {
            self.time_micros = self.time_micros + delta_micros;
        } else {
            self.time_micros = u64::MAX;
        }
    }

    /// Refreshes the scene uniform record from the camera's current derived
    /// state and the accumulated time, leaving the camera's caches filled.
    pub fn refresh_uniform(&mut self)
        requires
            old(self).wf(),
        ensures
            final(self).wf(),
            final(self).uniform == old(self).refreshed_uniform(),
            *final(self) == (RenderManager {
                camera: old(self).camera.refreshed(),
                uniform: old(self).refreshed_uniform(),
                ..*old(self)
            }),
    {
        self.uniform.view_proj_matrix = self.camera.view_proj_matrix();
        self.uniform.camera_dir = self.camera.look_dir();
        self.uniform.camera_pos = self.camera.position();
        self.uniform.camera_near = self.camera.near_plane();
        self.uniform.camera_far = self.camera.far_plane();
        self.uniform.time = f32_div(f32_from_u64(self.time_micros), F32_MICROS_PER_SEC);
    }

    /// The command sequence of one frame over the currently registered
    /// passes: clear, the opaque stage in order, the two snapshot copies,
    /// the transparent stage in order, submit, present.
    pub fn frame_schedule(&self) -> (r: Vec<FrameCommand>)
        ensures
            r@ == schedule_of(self.opaque_passes@, self.transparent_passes@),
    {
        let mut commands: Vec<FrameCommand> = Vec::new();
        commands.push(FrameCommand::Clear);
        let mut i: usize = 0;
        while i < self.opaque_passes.len()
            invariant
                i <= self.opaque_passes@.len(),
                commands@ == seq![FrameCommand::Clear] + self.opaque_passes@.subrange(
                    0,
                    i as int,
                ).map_values(|p: u32| FrameCommand::RunPass(p)),
            decreases self.opaque_passes@.len() - i,
        {
            commands.push(FrameCommand::RunPass(self.opaque_passes[i]));
            i = i + 1;
            proof {
                assert(self.opaque_passes@.subrange(0, i as int) =~= self.opaque_passes@.subrange(
                    0,
                    i - 1,
                ).push(self.opaque_passes@[i - 1]));
                assert(commands@ =~= seq![FrameCommand::Clear]
                    + self.opaque_passes@.subrange(0, i as int).map_values(
                    |p: u32| FrameCommand::RunPass(p),
                ));
            }
        }
        commands.push(FrameCommand::CopyOpaqueColor);
        commands.push(FrameCommand::CopyOpaqueDepth);
        let ghost mid = commands@;
        let mut j: usize = 0;
        while j < self.transparent_passes.len()
            invariant
                j <= self.transparent_passes@.len(),
                commands@ == mid + self.transparent_passes@.subrange(0, j as int).map_values(
                    |p: u32| FrameCommand::RunPass(p),
                ),
            decreases self.transparent_passes@.len() - j,
        {
            commands.push(FrameCommand::RunPass(self.transparent_passes[j]));
            j = j + 1;
            proof {
                assert(self.transparent_passes@.subrange(0, j as int)
                    =~= self.transparent_passes@.subrange(0, j - 1).push(
                    self.transparent_passes@[j - 1],
                ));
                assert(commands@ =~= mid + self.transparent_passes@.subrange(0, j as int).map_values(
                    |p: u32| FrameCommand::RunPass(p),
                ));
            }
        }
        commands.push(FrameCommand::Submit);
        commands.push(FrameCommand::Present);
        proof {
            assert(self.opaque_passes@.subrange(0, self.opaque_passes@.len() as int)
                =~= self.opaque_passes@);
            assert(self.transparent_passes@.subrange(0, self.transparent_passes@.len() as int)
                =~= self.transparent_passes@);
            assert(commands@ =~= schedule_of(self.opaque_passes@, self.transparent_passes@));
        }
        commands
    }

    /// Plans one frame: advances the accumulated time, refreshes the scene
    /// uniform record from the camera, and hands the shell the uniform to
    /// upload, the command sequence to execute, and whether the scene bind
    /// group must be rebuilt first.  Acquiring and presenting the surface
    /// image, and any GPU failure handling, belong to the shell; the state
    /// here changes the same way whatever the GPU later reports.
    pub fn render(&mut self, time_manager: &TimeManager) -> (r: FramePlan)
        requires
            old(self).wf(),
        ensures
            final(self).wf(),
            final(self).time_micros == sat_add_u64(old(self).time_micros, time_manager.delta_micros),
            final(self).time_micros >= old(self).time_micros,
            *final(self) == (RenderManager {
                time_micros: final(self).time_micros,
                camera: old(self).camera.refreshed(),
                uniform: final(self).uniform,
                scene_bind_group_stale: false,
                ..*old(self)
            }),
            final(self).uniform == (SceneUniform {
                view_proj_matrix: old(self).camera.view_proj_of(),
                camera_dir: old(self).camera.look_of(),
                camera_pos: old(self).camera.position,
                camera_near: old(self).camera.near_plane,
                camera_far: old(self).camera.far_plane,
                time: time_secs_bits(final(self).time_micros),
                ..old(self).uniform
            }),
            r.rebuild_scene_bind_group == old(self).scene_bind_group_stale,
            r.uniform == final(self).uniform,
            r.commands@ == schedule_of(old(self).opaque_passes@, old(self).transparent_passes@),
    {
        self.advance_time(time_manager.delta());
        self.refresh_uniform();
        let commands = self.frame_schedule();
        let rebuild_scene_bind_group = self.scene_bind_group_stale;
        self.scene_bind_group_stale = false;
        FramePlan { rebuild_scene_bind_group, uniform: self.uniform, commands }
    }
}

/// Picks the index the preference rules select from a non-empty candidate
/// list: the first entry marked preferred, else the first entry.  This is
/// how the shell chooses a surface format (preferred: sRGB-capable) and a
/// presentation mode (preferred: adaptive vsync).
pub fn select_preferred_index(preferred: &Vec<bool>) -> (r: usize)
    requires
        preferred@.len() > 0,
    ensures
        r < preferred@.len(),
        (exists|k: int| 0 <= k < preferred@.len() && preferred@[k]) ==> {
            &&& preferred@[r as int]
            &&& forall|j: int| 0 <= j < r ==> !preferred@[j]
        },
        !(exists|k: int| 0 <= k < preferred@.len() && preferred@[k]) ==> r == 0,
{
    let mut i: usize = 0;
    while i < preferred.len()
        invariant
            i <= preferred@.len(),
            forall|j: int| 0 <= j < i ==> !preferred@[j],
        decreases preferred@.len() - i,
    {
        if preferred[i] {
            return i;
        }
        i = i + 1;
    }
    0
}

/// Time accumulation is monotone: whatever the elapsed delta, the clamped
/// sum never falls below the previous count.
pub proof fn lemma_time_monotone(time_micros: u64, delta_micros: u64)
    ensures
        sat_add_u64(time_micros, delta_micros) >= time_micros,
{
}

} // verus!
