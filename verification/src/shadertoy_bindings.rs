//! The per-frame uniform block sent to the fragment shader, its std140
//! binary layout, and the mouse-state tracker feeding it.
//!
//! Shader-side declaration order: `resolution (vec3)`, `time (f32)`,
//! `mouseState (vec4)`, `timeDelta (f32)`. Under std140 rules the vec3 is
//! 16-byte aligned with the scalar `time` packed into its tail, the vec4
//! starts at byte 16, `timeDelta` at byte 32, and the block is padded to a
//! 16-byte multiple: 48 bytes in all. Every scalar is carried here as the
//! `u32` bit pattern of the binary32 value the shader reads.

use vstd::prelude::*;
use crate::scalar::{single_bits_of, spec_clamp, single_bits_of_u32, clamp_i64, EXACT_LIMIT};

verus! {

/// Fixed byte size of the serialized uniform block.
pub const STD140_SIZE: usize = 48;

/// Byte offset of `resolution` in the serialized block.
pub const RESOLUTION_OFFSET: usize = 0;

/// Byte offset of `time` in the serialized block.
pub const TIME_OFFSET: usize = 12;

/// Byte offset of `mouseState` in the serialized block.
pub const MOUSE_STATE_OFFSET: usize = 16;

/// Byte offset of `timeDelta` in the serialized block.
pub const TIME_DELTA_OFFSET: usize = 32;

/// The uniform block, one 32-bit word per shader-side scalar.
pub struct ShadertoyBindings {
    pub resolution_x: u32,
    pub resolution_y: u32,
    pub resolution_z: u32,
    pub time: u32,
    pub mouse_x: u32,
    pub mouse_y: u32,
    pub mouse_down: u32,
    pub mouse_just_down: u32,
    pub time_delta: u32,
}

/// Little-endian bytes of one 32-bit word.
pub open spec fn le_word(w: u32) -> Seq<u8> {
    seq![
        (w & 0xff) as u8,
        ((w >> 8) & 0xff) as u8,
        ((w >> 16) & 0xff) as u8,
        ((w >> 24) & 0xff) as u8,
    ]
}

/// The full 48-byte std140 image of a block: nine words in declaration
/// order, then twelve bytes of tail padding, all zero.
pub open spec fn std140_bytes(b: ShadertoyBindings) -> Seq<u8> {
    le_word(b.resolution_x) + le_word(b.resolution_y) + le_word(b.resolution_z) + le_word(b.time)
        + le_word(b.mouse_x) + le_word(b.mouse_y) + le_word(b.mouse_down) + le_word(
        b.mouse_just_down,
    ) + le_word(b.time_delta) + seq![0u8, 0u8, 0u8, 0u8, 0u8, 0u8, 0u8, 0u8, 0u8, 0u8, 0u8, 0u8]
}

/// Appends the little-endian bytes of `w`.
fn push_word(out: &mut Vec<u8>, w: u32)
    ensures
        final(out)@ == old(out)@ + le_word(w),
{
    proof {
        assert((w & 0xff) < 256 && ((w >> 8) & 0xff) < 256 && ((w >> 16) & 0xff) < 256 && ((w
            >> 24) & 0xff) < 256) by (bit_vector);
    }
    out.push((w & 0xff) as u8);
    out.push(((w >> 8) & 0xff) as u8);
    out.push(((w >> 16) & 0xff) as u8);
    out.push(((w >> 24) & 0xff) as u8);
    proof {
        assert(out@ =~= old(out)@ + le_word(w));
    }
}

impl ShadertoyBindings {
    /// The fixed size of the serialized block, used both to allocate the
    /// uniform buffer and to declare the binding's minimum size.
    pub fn std140_size_static() -> (r: usize)
        ensures
            r == STD140_SIZE,
    {
        STD140_SIZE
    }

    /// Serializes the block into its exact std140 byte image: a pure
    /// function of the field values, always `STD140_SIZE` bytes long.
    pub fn as_std140_bytes(&self) -> (r: Vec<u8>)
        ensures
            r@ == std140_bytes(*self),
            r@.len() == STD140_SIZE,
    {
        let mut out: Vec<u8> = Vec::new();
        push_word(&mut out, self.resolution_x);
        push_word(&mut out, self.resolution_y);
        push_word(&mut out, self.resolution_z);
        push_word(&mut out, self.time);
        push_word(&mut out, self.mouse_x);
        push_word(&mut out, self.mouse_y);
        push_word(&mut out, self.mouse_down);
        push_word(&mut out, self.mouse_just_down);
        push_word(&mut out, self.time_delta);
        let mut i: usize = 0;
        while i < 12
            invariant
                out@ == std140_bytes(*self).take(36 + i as int),
                i <= 12,
            decreases 12 - i,
        {
            out.push(0u8);
            proof {
                assert(out@ =~= std140_bytes(*self).take(36 + i as int + 1));
            }
            i = i + 1;
        }
        proof {
            assert(out@ =~= std140_bytes(*self));
        }
        out
    }
}

/// Serialization is deterministic: blocks with identical field values have
/// byte-identical std140 images.
pub proof fn lemma_serialize_deterministic(a: ShadertoyBindings, b: ShadertoyBindings)
    requires
        a.resolution_x == b.resolution_x,
        a.resolution_y == b.resolution_y,
        a.resolution_z == b.resolution_z,
        a.time == b.time,
        a.mouse_x == b.mouse_x,
        a.mouse_y == b.mouse_y,
        a.mouse_down == b.mouse_down,
        a.mouse_just_down == b.mouse_just_down,
        a.time_delta == b.time_delta,
    ensures
        std140_bytes(a) == std140_bytes(b),
{
    assert(std140_bytes(a) =~= std140_bytes(b));
}

/// The serialized image has the declared fixed size, whatever the fields
/// hold.
pub proof fn lemma_serialized_len(b: ShadertoyBindings)
    ensures
        std140_bytes(b).len() == STD140_SIZE,
{
}

/// Each field sits at its layout-mandated offset, and the tail padding is
/// zero.
pub proof fn lemma_field_offsets(b: ShadertoyBindings)
    ensures
        std140_bytes(b).subrange(RESOLUTION_OFFSET as int, RESOLUTION_OFFSET + 4) == le_word(
            b.resolution_x,
        ),
        std140_bytes(b).subrange(4, 8) == le_word(b.resolution_y),
        std140_bytes(b).subrange(8, 12) == le_word(b.resolution_z),
        std140_bytes(b).subrange(TIME_OFFSET as int, TIME_OFFSET + 4) == le_word(b.time),
        std140_bytes(b).subrange(MOUSE_STATE_OFFSET as int, MOUSE_STATE_OFFSET + 4) == le_word(
            b.mouse_x,
        ),
        std140_bytes(b).subrange(20, 24) == le_word(b.mouse_y),
        std140_bytes(b).subrange(24, 28) == le_word(b.mouse_down),
        std140_bytes(b).subrange(28, 32) == le_word(b.mouse_just_down),
        std140_bytes(b).subrange(TIME_DELTA_OFFSET as int, TIME_DELTA_OFFSET + 4) == le_word(
            b.time_delta,
        ),
        forall|i: int| 36 <= i < 48 ==> std140_bytes(b)[i] == 0,
{
    assert(std140_bytes(b).subrange(0, 4) =~= le_word(b.resolution_x));
    assert(std140_bytes(b).subrange(4, 8) =~= le_word(b.resolution_y));
    assert(std140_bytes(b).subrange(8, 12) =~= le_word(b.resolution_z));
    assert(std140_bytes(b).subrange(12, 16) =~= le_word(b.time));
    assert(std140_bytes(b).subrange(16, 20) =~= le_word(b.mouse_x));
    assert(std140_bytes(b).subrange(20, 24) =~= le_word(b.mouse_y));
    assert(std140_bytes(b).subrange(24, 28) =~= le_word(b.mouse_down));
    assert(std140_bytes(b).subrange(28, 32) =~= le_word(b.mouse_just_down));
    assert(std140_bytes(b).subrange(32, 36) =~= le_word(b.time_delta));
}

/// Mouse snapshot tracked once per application tick and copied by value into
/// the render stage. Coordinates are whole pixels; raw samples may lie
/// outside the window, clamping happens when the uniform block is built.
#[derive(Clone, Copy, PartialEq, Eq, Structural, Debug)]
pub struct MouseState {
    pub x: i64,
    pub y: i64,
    pub down: bool,
    pub just_down: bool,
}

impl Default for MouseState {
    /// Tracking starts at the origin with no button held.
    fn default() -> (r: Self)
        ensures
            r.x == 0 && r.y == 0 && !r.down && !r.just_down,
    {
        MouseState { x: 0, y: 0, down: false, just_down: false }
    }
}

/// Level and edge state of the two tracked mouse buttons, sampled by the
/// host's input collaborator this tick.
#[derive(Clone, Copy, PartialEq, Eq, Structural, Debug)]
pub struct MouseButtonSample {
    pub primary_pressed: bool,
    pub secondary_pressed: bool,
    pub primary_just_pressed: bool,
    pub secondary_just_pressed: bool,
}

impl MouseButtonSample {
    /// A button that just transitioned to pressed is still pressed within
    /// the same tick; the host's input contract guarantees it.
    pub open spec fn wf(self) -> bool {
        (self.primary_just_pressed ==> self.primary_pressed) && (self.secondary_just_pressed
            ==> self.secondary_pressed)
    }

    /// At least one tracked button is currently held.
    pub open spec fn any_pressed(self) -> bool {
        self.primary_pressed || self.secondary_pressed
    }

    /// At least one tracked button transitioned to pressed this tick.
    pub open spec fn any_just_pressed(self) -> bool {
        self.primary_just_pressed || self.secondary_just_pressed
    }
}

/// The tracked state after one tick: the position is replaced only when the
/// cursor reported one, the button state is resampled.
pub open spec fn spec_mouse_update(
    prev: MouseState,
    cursor_position: Option<(i64, i64)>,
    buttons: MouseButtonSample,
) -> MouseState {
    MouseState {
        x: if cursor_position is Some { cursor_position->Some_0.0 } else { prev.x },
        y: if cursor_position is Some { cursor_position->Some_0.1 } else { prev.y },
        down: buttons.any_pressed(),
        just_down: buttons.any_just_pressed(),
    }
}

/// One application-tick update of the tracked mouse state: replaces the
/// position when the cursor reported one this tick, keeps it otherwise, and
/// resamples the level (`down`) and edge (`just_down`) state of the two
/// tracked buttons.
pub fn mouse_state(
    state: &mut MouseState,
    cursor_position: Option<(i64, i64)>,
    buttons: MouseButtonSample,
)
    ensures
        *final(state) == spec_mouse_update(*old(state), cursor_position, buttons),
{
    match cursor_position {
        Some(pos) => {
            state.x = pos.0;
            state.y = pos.1;
        },
        None => {},
    }
    state.down = buttons.primary_pressed || buttons.secondary_pressed;
    state.just_down = buttons.primary_just_pressed || buttons.secondary_just_pressed;
}

/// Law: when no cursor position is reported this tick, the tracked position
/// is exactly the previous tick's position.
pub proof fn lemma_position_kept_without_cursor(prev: MouseState, buttons: MouseButtonSample)
    ensures
        spec_mouse_update(prev, None, buttons).x == prev.x,
        spec_mouse_update(prev, None, buttons).y == prev.y,
{
}

/// Law: on a well-formed button sample, a just-pressed edge implies the
/// level state, so `just_down` implies `down` in the tracked snapshot.
pub proof fn lemma_just_down_implies_down(
    prev: MouseState,
    cursor_position: Option<(i64, i64)>,
    buttons: MouseButtonSample,
)
    requires
        buttons.wf(),
    ensures
        spec_mouse_update(prev, cursor_position, buttons).just_down ==> spec_mouse_update(
            prev,
            cursor_position,
            buttons,
        ).down,
{
}

/// Time snapshot copied from the host clock into the render stage: seconds
/// since startup and the last frame's delta, both as binary32 bit patterns.
#[derive(Clone, Copy, PartialEq, Eq, Structural, Debug)]
pub struct ExtractedTime {
    pub seconds_since_startup: u32,
    pub delta: u32,
}

/// The extract-phase copy of the host clock: a full value copy taken at the
/// stage boundary, so the render stage never observes a partial update.
pub fn extract_time(seconds_since_startup: u32, delta: u32) -> (r: ExtractedTime)
    ensures
        r.seconds_since_startup == seconds_since_startup,
        r.delta == delta,
{
    ExtractedTime { seconds_since_startup, delta }
}

/// The uniform block owed for a frame: resolution from the window's pixel
/// size, the mouse position clamped into `[0, width] x [0, height]`, the
/// button flags as 0/1, and the clock words copied through.
pub open spec fn spec_shadertoy_bindings(
    width: u32,
    height: u32,
    time: ExtractedTime,
    mouse: MouseState,
) -> ShadertoyBindings {
    ShadertoyBindings {
        resolution_x: single_bits_of(width as nat) as u32,
        resolution_y: single_bits_of(height as nat) as u32,
        resolution_z: 0,
        time: time.seconds_since_startup,
        mouse_x: single_bits_of(spec_clamp(mouse.x as int, 0, width as int) as nat) as u32,
        mouse_y: single_bits_of(spec_clamp(mouse.y as int, 0, height as int) as nat) as u32,
        mouse_down: if mouse.down { single_bits_of(1) as u32 } else { 0 },
        mouse_just_down: if mouse.just_down { single_bits_of(1) as u32 } else { 0 },
        time_delta: time.delta,
    }
}

/// Builds and serializes the frame's uniform block; the caller hands the
/// bytes to the host queue, which writes them into the uniform buffer before
/// the frame's draw is issued.
pub fn write_shadertoy_buffer(
    width: u32,
    height: u32,
    time: &ExtractedTime,
    mouse_state: &MouseState,
) -> (r: Vec<u8>)
    requires
        width < EXACT_LIMIT,
        height < EXACT_LIMIT,
    ensures
        r@ == std140_bytes(spec_shadertoy_bindings(width, height, *time, *mouse_state)),
        r@.len() == STD140_SIZE,
{
    let cx = clamp_i64(mouse_state.x, 0, width as i64);
    let cy = clamp_i64(mouse_state.y, 0, height as i64);
    let bindings = ShadertoyBindings {
        resolution_x: single_bits_of_u32(width),
        resolution_y: single_bits_of_u32(height),
        resolution_z: 0,
        time: time.seconds_since_startup,
        mouse_x: single_bits_of_u32(cx as u32),
        mouse_y: single_bits_of_u32(cy as u32),
        mouse_down: if mouse_state.down { single_bits_of_u32(1) } else { 0 },
        mouse_just_down: if mouse_state.just_down { single_bits_of_u32(1) } else { 0 },
        time_delta: time.delta,
    };
    proof {
        assert(bindings == spec_shadertoy_bindings(width, height, *time, *mouse_state));
    }
    bindings.as_std140_bytes()
}

/// Law: for any window size and any raw cursor sample, including negative
/// and out-of-bounds coordinates, the position fed to the shader lies in
/// `[0, width] x [0, height]`.
pub proof fn lemma_mouse_position_clamped(mouse: MouseState, width: u32, height: u32)
    ensures
        0 <= spec_clamp(mouse.x as int, 0, width as int) <= width,
        0 <= spec_clamp(mouse.y as int, 0, height as int) <= height,
{
}

} // verus!
