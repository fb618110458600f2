//! The per-surface context: cursor state, the frame's pending toolkit input
//! calls, and the two fixed-capacity geometry scratch buffers.
//!
//! Input methods translate abstract events into `ToolkitCall` values and
//! append them to the pending list in arrival order; the caller drains the
//! list and performs each call against the toolkit. `update` builds the
//! frame's conversion configuration and projection matrix.

use vstd::prelude::*;
use crate::fixed::Frac;
use crate::fixed::Fx;
use crate::input::Button;
use crate::input::Key;
use crate::input::State;
use crate::input::ToolkitCall;
use crate::input::char_code;
use crate::input::char_code_spec;
use crate::input::convert_button;
use crate::input::convert_button_spec;
use crate::input::convert_virtual_key;
use crate::input::convert_virtual_key_spec;
use crate::input::state_flag;
use crate::input::state_flag_spec;
use crate::layout::ToolkitLayoutElement;
use crate::layout::toolkit_elements;
use crate::layout::toolkit_elements_spec;
use crate::layout::vertex_layout;
use crate::layout::vertex_layout_spec;
use crate::projection::ProjectionMatrix;
use crate::projection::projection;
use crate::projection::projection_entries_spec;
use crate::scratch::MAX_INDEX_BUFFER_SIZE;
use crate::scratch::MAX_VERTEX_BUFFER_SIZE;
use crate::scratch::ScratchBuffer;

verus! {

/// Tessellation quality for circles, curves and arcs: a fixed knob.
pub const SEGMENT_COUNT: u32 = 22;

/// The configuration handed to the toolkit's geometry conversion: the
/// vertex layout, a global alpha of one, anti-aliasing off for shapes and
/// lines, and the fixed tessellation quality.
pub struct ConvertConfigDesc {
    pub vertex_layout: Vec<ToolkitLayoutElement>,
    pub vertex_size: u32,
    pub vertex_alignment: u32,
    pub global_alpha: Frac,
    pub shape_aa: bool,
    pub line_aa: bool,
    pub circle_segment_count: u32,
    pub curve_segment_count: u32,
    pub arc_segment_count: u32,
}

/// The exact conversion configuration this bridge always uses.
pub open spec fn convert_config_exact(c: ConvertConfigDesc) -> bool {
    &&& c.vertex_layout@ == toolkit_elements_spec(vertex_layout_spec())
    &&& c.vertex_size == vertex_layout_spec().stride
    &&& c.vertex_alignment == vertex_layout_spec().alignment
    &&& c.global_alpha == Frac { num: 1i32, den: 1u32 }
    &&& c.shape_aa == false
    &&& c.line_aa == false
    &&& c.circle_segment_count == SEGMENT_COUNT
    &&& c.curve_segment_count == SEGMENT_COUNT
    &&& c.arc_segment_count == SEGMENT_COUNT
}

/// Everything one frame's update hands on: the conversion configuration,
/// the projection matrix, and how many bytes of each scratch buffer the
/// upload replaces (always the whole fixed range).
pub struct FrameUpdate {
    pub config: ConvertConfigDesc,
    pub projection: ProjectionMatrix,
    pub index_upload_len: usize,
    pub vertex_upload_len: usize,
}

/// The per-surface context.
pub struct Context {
    /// The cursor position recorded by the last motion event; button
    /// events are reported at this position.
    pub cursor_x: i32,
    pub cursor_y: i32,
    /// The frame's pending toolkit input calls, in arrival order.
    pub calls: Vec<ToolkitCall>,
    /// The index geometry scratch buffer, 128 KiB.
    pub indices: ScratchBuffer,
    /// The vertex geometry scratch buffer, 512 KiB.
    pub vertices: ScratchBuffer,
}

/// The scratch buffers hold their fixed capacities.
pub open spec fn context_wf(c: Context) -> bool {
    &&& c.indices.wf()
    &&& c.indices.capacity_spec() == MAX_INDEX_BUFFER_SIZE
    &&& c.vertices.wf()
    &&& c.vertices.capacity_spec() == MAX_VERTEX_BUFFER_SIZE
}

/// The parts of a context that an input method must leave alone.
pub open spec fn same_buffers(a: Context, b: Context) -> bool {
    &&& a.indices == b.indices
    &&& a.vertices == b.vertices
}

impl Context {
    /// A fresh context: cursor at the origin, no pending calls, zeroed
    /// scratch buffers at their fixed capacities.
    pub fn new() -> (c: Context)
        ensures
            context_wf(c),
            c.cursor_x == 0,
            c.cursor_y == 0,
            c.calls@ == Seq::<ToolkitCall>::empty(),
            c.indices.used_spec() == 0,
            c.vertices.used_spec() == 0,
            forall|j: int|
                0 <= j < MAX_INDEX_BUFFER_SIZE ==> c.indices.bytes_spec()[j] == 0u8,
            forall|j: int|
                0 <= j < MAX_VERTEX_BUFFER_SIZE ==> c.vertices.bytes_spec()[j] == 0u8,
    {
        Context {
            cursor_x: 0,
            cursor_y: 0,
            calls: Vec::new(),
            indices: ScratchBuffer::new(MAX_INDEX_BUFFER_SIZE),
            vertices: ScratchBuffer::new(MAX_VERTEX_BUFFER_SIZE),
        }
    }

    /// Opens the frame's input bracket.
    pub fn input_begin(&mut self)
        ensures
            final(self).calls@ == old(self).calls@.push(ToolkitCall::InputBegin),
            final(self).cursor_x == old(self).cursor_x,
            final(self).cursor_y == old(self).cursor_y,
            same_buffers(*final(self), *old(self)),
    {
        self.calls.push(ToolkitCall::InputBegin);
    }

    /// Closes the frame's input bracket.
    pub fn input_end(&mut self)
        ensures
            final(self).calls@ == old(self).calls@.push(ToolkitCall::InputEnd),
            final(self).cursor_x == old(self).cursor_x,
            final(self).cursor_y == old(self).cursor_y,
            same_buffers(*final(self), *old(self)),
    {
        self.calls.push(ToolkitCall::InputEnd);
    }

    /// Forwards one text character, narrowed to the byte the toolkit call
    /// takes.
    pub fn input_char(&mut self, c: char)
        ensures
            final(self).calls@ == old(self).calls@.push(
                ToolkitCall::InputChar(char_code_spec(c)),
            ),
            final(self).cursor_x == old(self).cursor_x,
            final(self).cursor_y == old(self).cursor_y,
            same_buffers(*final(self), *old(self)),
    {
        let b = char_code(c);
        self.calls.push(ToolkitCall::InputChar(b));
    }

    /// Forwards a key press or release. A `Key::NoKey` event produces no
    /// toolkit call at all: nothing reaches the toolkit for it.
    pub fn input_key(&mut self, key: Key, state: State)
        ensures
            key == Key::NoKey ==> final(self).calls@ == old(self).calls@,
            key != Key::NoKey ==> final(self).calls@ == old(self).calls@.push(
                ToolkitCall::InputKey(convert_virtual_key_spec(key), state_flag_spec(state)),
            ),
            final(self).cursor_x == old(self).cursor_x,
            final(self).cursor_y == old(self).cursor_y,
            same_buffers(*final(self), *old(self)),
    {
        match key {
            Key::NoKey => {},
            _ => {
                let k = convert_virtual_key(key);
                let s = state_flag(state);
                self.calls.push(ToolkitCall::InputKey(k, s));
            },
        }
    }

    /// Records the absolute cursor position and forwards the motion; later
    /// button events report at this position.
    pub fn input_motion(&mut self, cursor_x: i32, cursor_y: i32)
        ensures
            final(self).calls@ == old(self).calls@.push(
                ToolkitCall::InputMotion(cursor_x, cursor_y),
            ),
            final(self).cursor_x == cursor_x,
            final(self).cursor_y == cursor_y,
            same_buffers(*final(self), *old(self)),
    {
        self.cursor_x = cursor_x;
        self.cursor_y = cursor_y;
        self.calls.push(ToolkitCall::InputMotion(cursor_x, cursor_y));
    }

    /// Forwards a button press or release, reported at the last recorded
    /// cursor position, not at one carried by the event.
    pub fn input_button(&mut self, button: Button, state: State)
        ensures
            final(self).calls@ == old(self).calls@.push(
                ToolkitCall::InputButton(
                    convert_button_spec(button),
                    old(self).cursor_x,
                    old(self).cursor_y,
                    state_flag_spec(state),
                ),
            ),
            final(self).cursor_x == old(self).cursor_x,
            final(self).cursor_y == old(self).cursor_y,
            same_buffers(*final(self), *old(self)),
    {
        let b = convert_button(button);
        let s = state_flag(state);
        self.calls.push(ToolkitCall::InputButton(b, self.cursor_x, self.cursor_y, s));
    }

    /// Forwards a two-dimensional scroll delta.
    pub fn input_scroll(&mut self, scroll_x: Fx, scroll_y: Fx)
        ensures
            final(self).calls@ == old(self).calls@.push(
                ToolkitCall::InputScroll(scroll_x, scroll_y),
            ),
            final(self).cursor_x == old(self).cursor_x,
            final(self).cursor_y == old(self).cursor_y,
            same_buffers(*final(self), *old(self)),
    {
        self.calls.push(ToolkitCall::InputScroll(scroll_x, scroll_y));
    }

    /// Hands the pending calls out for the caller to perform against the
    /// toolkit, in order, and leaves the list empty.
    pub fn take_calls(&mut self) -> (v: Vec<ToolkitCall>)
        ensures
            v@ == old(self).calls@,
            final(self).calls@ == Seq::<ToolkitCall>::empty(),
            final(self).cursor_x == old(self).cursor_x,
            final(self).cursor_y == old(self).cursor_y,
            same_buffers(*final(self), *old(self)),
    {
        let mut v: Vec<ToolkitCall> = Vec::new();
        core::mem::swap(&mut v, &mut self.calls);
        v
    }

    /// Builds one frame's conversion configuration, projection matrix and
    /// upload extents for a screen of `screen_width` by `screen_height`
    /// pixels. Buffer writes replace the whole fixed range each frame.
    pub fn update(&self, screen_width: u32, screen_height: u32) -> (u: FrameUpdate)
        requires
            screen_width >= 1,
            screen_height >= 1,
        ensures
            convert_config_exact(u.config),
            u.projection.entries@ == projection_entries_spec(screen_width, screen_height),
            u.index_upload_len == MAX_INDEX_BUFFER_SIZE,
            u.vertex_upload_len == MAX_VERTEX_BUFFER_SIZE,
    {
        let layout = vertex_layout();
        let elements = toolkit_elements(&layout);
        let config = ConvertConfigDesc {
            vertex_layout: elements,
            vertex_size: layout.stride,
            vertex_alignment: layout.alignment,
            global_alpha: Frac { num: 1, den: 1 },
            shape_aa: false,
            line_aa: false,
            circle_segment_count: SEGMENT_COUNT,
            curve_segment_count: SEGMENT_COUNT,
            arc_segment_count: SEGMENT_COUNT,
        };
        let proj = projection(screen_width, screen_height);
        FrameUpdate {
            config,
            projection: proj,
            index_upload_len: MAX_INDEX_BUFFER_SIZE,
            vertex_upload_len: MAX_VERTEX_BUFFER_SIZE,
        }
    }
}

} // verus!
