//! The input state: held movement keys and the accumulated look delta.
//!
//! The shell decodes platform events and hands this module plain values: a
//! logical key identifier with its press state, or a cursor position in
//! window pixels.  The movement vector keeps each axis in `{-1, 0, 1}`; the
//! look delta is a one-tick impulse, scaled pointer motion that
//! `late_update` resets to zero at the end of every tick.

use vstd::prelude::*;

use crate::bits::F32_NEG_ONE;
use crate::bits::F32_ONE;
use crate::bits::F32_ZERO;
use crate::bits::Vec2Bits;
use crate::bits::Vec3Bits;
use crate::bits::vec2_zero;
use crate::bits::vec3_zero;
use crate::math::vec2_diff;
use crate::math::vec2_scaled;
use crate::math::vec2_scale;
use crate::math::vec2_sub;

verus! {

/// Logical identifier of the key moving right; the shell maps the platform's
/// `D` key here.
pub const KEY_RIGHT: u32 = 0x44;
/// Logical identifier of the key moving left; the shell maps the platform's
/// `A` key here.
pub const KEY_LEFT: u32 = 0x41;
/// Logical identifier of the key moving up; the shell maps the space bar
/// here.
pub const KEY_UP: u32 = 0x20;
/// Logical identifier of the key moving down; the shell maps the left
/// control key here.
pub const KEY_DOWN: u32 = 0xA2;
/// Logical identifier of the key moving forward; the shell maps the
/// platform's `W` key here.
pub const KEY_FORWARD: u32 = 0x57;
/// Logical identifier of the key moving backward; the shell maps the
/// platform's `S` key here.
pub const KEY_BACKWARD: u32 = 0x53;

/// Bit pattern of `0.1f32`, the default look sensitivity.
pub const F32_DEFAULT_SENSITIVITY: u32 = 0x3DCC_CCCD;

/// The configurable key set and pointer sensitivity.
#[derive(Clone, Copy, PartialEq, Eq, Structural, Debug)]
pub struct InputSettings {
    pub look_sensitivity: u32,
    pub right_key: u32,
    pub left_key: u32,
    pub up_key: u32,
    pub down_key: u32,
    pub forward_key: u32,
    pub backward_key: u32,
}

/// The default bindings: the usual free-fly set with a sensitivity of 0.1.
pub open spec fn input_settings_default() -> InputSettings {
    InputSettings {
        look_sensitivity: F32_DEFAULT_SENSITIVITY,
        right_key: KEY_RIGHT,
        left_key: KEY_LEFT,
        up_key: KEY_UP,
        down_key: KEY_DOWN,
        forward_key: KEY_FORWARD,
        backward_key: KEY_BACKWARD,
    }
}

impl Default for InputSettings {
    fn default() -> (r: InputSettings)
        ensures
            r == input_settings_default(),
    {
        InputSettings {
            look_sensitivity: F32_DEFAULT_SENSITIVITY,
            right_key: KEY_RIGHT,
            left_key: KEY_LEFT,
            up_key: KEY_UP,
            down_key: KEY_DOWN,
            forward_key: KEY_FORWARD,
            backward_key: KEY_BACKWARD,
        }
    }
}

pub struct InputManager {
    pub settings: InputSettings,
    pub last_cursor_pos: Vec2Bits,
    pub cursor_just_entered: bool,
    pub move_vector: Vec3Bits,
    pub look_delta: Vec2Bits,
}

/// The movement vector after a key press or release: on a press the first
/// binding that matches the key, in the order right, left, up, down,
/// forward, backward, drives its axis to the bit image of `1` or `-1`; on a
/// release a match on either key of an axis clears that axis, the axes
/// checked in the same order.
pub open spec fn move_vector_after_key(s: InputManager, key: u32, pressed: bool) -> Vec3Bits {
    let mv = s.move_vector;
    if pressed {
        if s.settings.right_key == key {
            Vec3Bits { x: F32_ONE, ..mv }
        } else if s.settings.left_key == key {
            Vec3Bits { x: F32_NEG_ONE, ..mv }
        } else if s.settings.up_key == key {
            Vec3Bits { y: F32_ONE, ..mv }
        } else if s.settings.down_key == key {
            Vec3Bits { y: F32_NEG_ONE, ..mv }
        } else if s.settings.forward_key == key {
            Vec3Bits { z: F32_ONE, ..mv }
        } else if s.settings.backward_key == key {
            Vec3Bits { z: F32_NEG_ONE, ..mv }
        } else {
            mv
        }
    } else {
        if s.settings.right_key == key || s.settings.left_key == key {
            Vec3Bits { x: F32_ZERO, ..mv }
        } else if s.settings.up_key == key || s.settings.down_key == key {
            Vec3Bits { y: F32_ZERO, ..mv }
        } else if s.settings.forward_key == key || s.settings.backward_key == key {
            Vec3Bits { z: F32_ZERO, ..mv }
        } else {
            mv
        }
    }
}

/// The state after a key event: only the movement vector changes.
pub open spec fn key_input_spec(s: InputManager, key: u32, pressed: bool) -> InputManager {
    InputManager { move_vector: move_vector_after_key(s, key, pressed), ..s }
}

/// The state after a pointer move to `pos`: the look delta becomes the
/// sensitivity-scaled motion since the last position (zero when the cursor
/// just entered the window), and `pos` becomes the last position.
pub open spec fn cursor_moved_spec(s: InputManager, pos: Vec2Bits) -> InputManager {
    InputManager {
        look_delta: if s.cursor_just_entered {
            vec2_zero()
        } else {
            vec2_scaled(s.settings.look_sensitivity, vec2_diff(pos, s.last_cursor_pos))
        },
        last_cursor_pos: pos,
        cursor_just_entered: false,
        ..s
    }
}

/// The state after the cursor entered the window: the next pointer move
/// will not produce a spurious delta.
pub open spec fn cursor_entered_spec(s: InputManager) -> InputManager {
    InputManager { cursor_just_entered: true, ..s }
}

/// The state after the end-of-tick reset: the look delta is consumed.
pub open spec fn late_update_spec(s: InputManager) -> InputManager {
    InputManager { look_delta: vec2_zero(), ..s }
}

/// Every movement axis is one of the bit images of `-1`, `0` or `1`.
pub open spec fn axis_wf(a: u32) -> bool {
    a == F32_ZERO || a == F32_ONE || a == F32_NEG_ONE
}

impl InputManager {
    /// The movement vector stays within `{-1, 0, 1}` per axis.
    pub open spec fn axes_wf(self) -> bool {
        axis_wf(self.move_vector.x) && axis_wf(self.move_vector.y) && axis_wf(self.move_vector.z)
    }

    pub fn new(settings: &InputSettings) -> (r: InputManager)
        ensures
            r == (InputManager {
                settings: *settings,
                last_cursor_pos: vec2_zero(),
                cursor_just_entered: true,
                move_vector: vec3_zero(),
                look_delta: vec2_zero(),
            }),
            r.axes_wf(),
    {
        InputManager {
            settings: *settings,
            last_cursor_pos: Vec2Bits::zero(),
            cursor_just_entered: true,
            move_vector: Vec3Bits::zero(),
            look_delta: Vec2Bits::zero(),
        }
    }

    /// Applies one key event from the shell.
    pub fn handle_keyboard_input(&mut self, key: u32, pressed: bool)
        ensures
            *final(self) == key_input_spec(*old(self), key, pressed),
            old(self).axes_wf() ==> final(self).axes_wf(),
    {
        if pressed {
            if self.settings.right_key == key {
                self.move_vector.x = F32_ONE;
            } else if self.settings.left_key == key {
                self.move_vector.x = F32_NEG_ONE;
            } else if self.settings.up_key == key {
                self.move_vector.y = F32_ONE;
            } else if self.settings.down_key == key {
                self.move_vector.y = F32_NEG_ONE;
            } else if self.settings.forward_key == key {
                self.move_vector.z = F32_ONE;
            } else if self.settings.backward_key == key {
                self.move_vector.z = F32_NEG_ONE;
            }
        } else {
            if self.settings.right_key == key || self.settings.left_key == key {
                self.move_vector.x = F32_ZERO;
            } else if self.settings.up_key == key || self.settings.down_key == key {
                self.move_vector.y = F32_ZERO;
            } else if self.settings.forward_key == key || self.settings.backward_key == key {
                self.move_vector.z = F32_ZERO;
            }
        }
    }

    /// Applies one pointer move from the shell, `pos` in window pixels.
    pub fn handle_cursor_movement(&mut self, pos: Vec2Bits)
        ensures
            *final(self) == cursor_moved_spec(*old(self), pos),
    {
        self.look_delta = if self.cursor_just_entered {
            Vec2Bits::zero()
        } else {
            vec2_scale(self.settings.look_sensitivity, &vec2_sub(&pos, &self.last_cursor_pos))
        };
        self.last_cursor_pos = pos;
        self.cursor_just_entered = false;
    }

    /// Notes that the cursor entered the window.
    pub fn handle_cursor_enter(&mut self)
        ensures
            *final(self) == cursor_entered_spec(*old(self)),
    {
        self.cursor_just_entered = true;
    }

    /// Consumes the look delta at the end of a tick: it is an impulse, reset
    /// to zero whether or not new pointer motion arrived.
    pub fn late_update(&mut self)
        ensures
            *final(self) == late_update_spec(*old(self)),
            final(self).look_delta == vec2_zero(),
    {
        self.look_delta = Vec2Bits::zero();
    }

    pub fn move_vector(&self) -> (r: Vec3Bits)
        ensures
            r == self.move_vector,
    {
        self.move_vector
    }

    pub fn look_delta(&self) -> (r: Vec2Bits)
        ensures
            r == self.look_delta,
    {
        self.look_delta
    }
}

/// An input event that carries no pointer motion.
#[derive(Clone, Copy, PartialEq, Eq, Structural, Debug)]
pub enum NonPointerEvent {
    Key(u32, bool),
    CursorEntered,
}

/// The state after one pointer-free event.
pub open spec fn apply_non_pointer(s: InputManager, e: NonPointerEvent) -> InputManager {
    match e {
        NonPointerEvent::Key(key, pressed) => key_input_spec(s, key, pressed),
        NonPointerEvent::CursorEntered => cursor_entered_spec(s),
    }
}

/// The state after a sequence of pointer-free events, applied in order.
pub open spec fn apply_non_pointer_seq(s: InputManager, events: Seq<NonPointerEvent>) -> InputManager
    decreases events.len(),
{
    if events.len() == 0 {
        s
    } else {
        apply_non_pointer_seq(apply_non_pointer(s, events[0]), events.drop_first())
    }
}

/// The look delta consumed in one tick is still zero at the start of the
/// next: once `late_update` has reset it, no sequence of key events or
/// cursor entries — any tick without new pointer motion — brings it back.
pub proof fn lemma_look_delta_stays_zero(s: InputManager, events: Seq<NonPointerEvent>)
    requires
        s.look_delta == vec2_zero(),
    ensures
        apply_non_pointer_seq(s, events).look_delta == vec2_zero(),
    decreases events.len(),
{
    if events.len() > 0 {
        lemma_look_delta_stays_zero(apply_non_pointer(s, events[0]), events.drop_first());
    }
}

} // verus!
