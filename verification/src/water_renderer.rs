//! The water pass's share of the library: its stage and its pass-local
//! uniform record with the GPU wire format.
//!
//! The water pass draws an animated, refracting plane; it runs in the
//! transparent stage so it can sample the opaque snapshot textures.  Its
//! uniform is filled once from the settings; the pipeline, the flat plane
//! mesh and the draw recording live in the GPU shell.

use vstd::prelude::*;

use crate::bits::Vec2Bits;
use crate::bits::Vec3Bits;
use crate::bits::push_pad4;
use crate::bits::push_u32_le;
use crate::bits::push_vec2_le;
use crate::bits::push_vec3_le;
use crate::bits::u32_le_bytes;
use crate::bits::vec2_le_bytes;
use crate::bits::vec3_le_bytes;
use crate::renderer::RenderStage;

verus! {

/// Bit pattern of `0.75f32`, the default water tile size.
pub const F32_WATER_TILE_SIZE: u32 = 0x3F40_0000;
/// Bit pattern of `0.2f32`, the default water color's red channel.
pub const F32_WATER_COLOR_R: u32 = 0x3E4C_CCCD;
/// Bit pattern of `0.5f32`, the default water color's green channel.
pub const F32_WATER_COLOR_G: u32 = 0x3F00_0000;
/// Bit pattern of `0.96f32`, the default water color's blue channel.
pub const F32_WATER_COLOR_B: u32 = 0x3F75_C28F;
/// Bit pattern of `64.0f32`, the default specular exponent.
pub const F32_WATER_SPECULAR: u32 = 0x4280_0000;
/// Bit pattern of `0.75f32`, the default specular color's red channel.
pub const F32_WATER_SPEC_R: u32 = 0x3F40_0000;
/// Bit pattern of `0.84f32`, the default specular color's green channel.
pub const F32_WATER_SPEC_G: u32 = 0x3F57_0A3D;
/// Bit pattern of `0.97f32`, the default specular color's blue channel.
pub const F32_WATER_SPEC_B: u32 = 0x3F78_51EC;
/// Bit pattern of `150.0f32`, the default optical density.
pub const F32_WATER_DENSITY: u32 = 0x4316_0000;
/// Bit pattern of `-0.25f32`, the default water level.
pub const F32_WATER_LEVEL: u32 = 0xBE80_0000;
/// Bit pattern of `0.8f32`, the default wave speed along the first axis.
pub const F32_WAVE_SPEED_X: u32 = 0x3F4C_CCCD;
/// Bit pattern of `0.4f32`, the default wave speed along the second axis.
pub const F32_WAVE_SPEED_Y: u32 = 0x3ECC_CCCD;
/// Bit pattern of `0.4f32`, the default wave scale on both axes.
pub const F32_WAVE_SCALE: u32 = 0x3ECC_CCCD;
/// Bit pattern of `0.2f32`, the default wave height.
pub const F32_WAVE_HEIGHT: u32 = 0x3E4C_CCCD;

/// Construction-time settings of the water pass: the plane's tiling, its
/// colors and its wave parameters.
#[derive(Clone, Copy, PartialEq, Eq, Structural, Debug)]
pub struct WaterRendererSettings {
    pub tile_size: u32,
    pub tiles_count: u32,
    pub color: Vec3Bits,
    pub specular: u32,
    pub specular_color: Vec3Bits,
    pub density: u32,
    pub level: u32,
    pub wave_speed: Vec2Bits,
    pub wave_scale: Vec2Bits,
    pub wave_height: u32,
}

/// The default water: a 15x15 grid of 0.75-unit tiles just below the
/// origin, blue, with gentle waves.
pub open spec fn water_settings_default() -> WaterRendererSettings {
    WaterRendererSettings {
        tile_size: F32_WATER_TILE_SIZE,
        tiles_count: 15,
        color: Vec3Bits { x: F32_WATER_COLOR_R, y: F32_WATER_COLOR_G, z: F32_WATER_COLOR_B },
        specular: F32_WATER_SPECULAR,
        specular_color: Vec3Bits { x: F32_WATER_SPEC_R, y: F32_WATER_SPEC_G, z: F32_WATER_SPEC_B },
        density: F32_WATER_DENSITY,
        level: F32_WATER_LEVEL,
        wave_speed: Vec2Bits { x: F32_WAVE_SPEED_X, y: F32_WAVE_SPEED_Y },
        wave_scale: Vec2Bits { x: F32_WAVE_SCALE, y: F32_WAVE_SCALE },
        wave_height: F32_WAVE_HEIGHT,
    }
}

impl Default for WaterRendererSettings {
    fn default() -> (r: WaterRendererSettings)
        ensures
            r == water_settings_default(),
    {
        WaterRendererSettings {
            tile_size: F32_WATER_TILE_SIZE,
            tiles_count: 15,
            color: Vec3Bits { x: F32_WATER_COLOR_R, y: F32_WATER_COLOR_G, z: F32_WATER_COLOR_B },
            specular: F32_WATER_SPECULAR,
            specular_color: Vec3Bits {
                x: F32_WATER_SPEC_R,
                y: F32_WATER_SPEC_G,
                z: F32_WATER_SPEC_B,
            },
            density: F32_WATER_DENSITY,
            level: F32_WATER_LEVEL,
            wave_speed: Vec2Bits { x: F32_WAVE_SPEED_X, y: F32_WAVE_SPEED_Y },
            wave_scale: Vec2Bits { x: F32_WAVE_SCALE, y: F32_WAVE_SCALE },
            wave_height: F32_WAVE_HEIGHT,
        }
    }
}

/// The water pass's uniform record.
#[derive(Clone, Copy, PartialEq, Eq, Structural, Debug)]
pub struct WaterUniform {
    pub specular: u32,
    pub density: u32,
    pub specular_color: Vec3Bits,
    pub wave_speed: Vec2Bits,
    pub wave_scale: Vec2Bits,
    pub wave_height: u32,
}

/// Byte image of the water uniform, in shader field order: specular and
/// density, two words of padding, the padded specular color, the wave
/// speed and scale, the wave height and three closing words of padding.
pub open spec fn water_uniform_le_bytes(u: WaterUniform) -> Seq<u8> {
    u32_le_bytes(u.specular) + u32_le_bytes(u.density) + u32_le_bytes(0) + u32_le_bytes(0)
        + vec3_le_bytes(u.specular_color) + u32_le_bytes(0) + vec2_le_bytes(u.wave_speed)
        + vec2_le_bytes(u.wave_scale) + u32_le_bytes(u.wave_height) + u32_le_bytes(0)
        + u32_le_bytes(0) + u32_le_bytes(0)
}

impl WaterUniform {
    /// The record the pass uploads, filled from the settings.
    pub fn new(settings: &WaterRendererSettings) -> (r: WaterUniform)
        ensures
            r == (WaterUniform {
                specular: settings.specular,
                density: settings.density,
                specular_color: settings.specular_color,
                wave_speed: settings.wave_speed,
                wave_scale: settings.wave_scale,
                wave_height: settings.wave_height,
            }),
    {
        WaterUniform {
            specular: settings.specular,
            density: settings.density,
            specular_color: settings.specular_color,
            wave_speed: settings.wave_speed,
            wave_scale: settings.wave_scale,
            wave_height: settings.wave_height,
        }
    }

    /// The 64-byte GPU image of this record.
    pub fn to_bytes(&self) -> (r: Vec<u8>)
        ensures
            r@ == water_uniform_le_bytes(*self),
            r@.len() == 64,
    {
        let mut out: Vec<u8> = Vec::new();
        push_u32_le(&mut out, self.specular);
        push_u32_le(&mut out, self.density);
        push_pad4(&mut out);
        push_pad4(&mut out);
        push_vec3_le(&mut out, &self.specular_color);
        push_pad4(&mut out);
        push_vec2_le(&mut out, &self.wave_speed);
        push_vec2_le(&mut out, &self.wave_scale);
        push_u32_le(&mut out, self.wave_height);
        push_pad4(&mut out);
        push_pad4(&mut out);
        push_pad4(&mut out);
        proof {
            assert(out@ =~= water_uniform_le_bytes(*self));
        }
        out
    }
}

/// The stage the water pass declares: it samples the opaque snapshot, so it
/// runs in the transparent stage, strictly after the snapshot copies.
pub fn water_stage() -> (r: RenderStage)
    ensures
        r == RenderStage::TRANSPARENT,
{
    RenderStage::TRANSPARENT
}

} // verus!
