//! The state cache: a mirror of the native context's binding state, and the
//! single arbiter of whether each mutation request must issue a native call.
//!
//! Every mutator compares the requested value with the cached one; on a miss
//! (or when forced) it updates the mirror and appends the decided native
//! commands to [`Context::calls`], the call log that the backend executor
//! replays.  On a hit it does nothing and signals the no-op by returning
//! `false`.  Floating-point state (clear color, clear depth, depth range,
//! line width) is carried as bit patterns, so the cache compares
//! representations, never rounded values.

use vstd::prelude::*;
use crate::enums::{Blending, CullFace, Depth};
use crate::info::Precision;
use crate::buffer::Buffer;
use crate::enums::BufferTarget;
use crate::native::{
    NativeCall, GL_COLOR_BUFFER_BIT, GL_DEPTH_BUFFER_BIT, GL_STENCIL_BUFFER_BIT, GL_BLEND,
    GL_CULL_FACE, GL_DEPTH_TEST, GL_FUNC_ADD, GL_ZERO, GL_ONE, GL_SRC_COLOR,
    GL_ONE_MINUS_SRC_COLOR, GL_SRC_ALPHA, GL_ONE_MINUS_SRC_ALPHA, GL_FRONT, GL_BACK,
    GL_FRONT_AND_BACK, GL_NEVER, GL_LESS, GL_EQUAL, GL_LEQUAL, GL_GREATER, GL_NOTEQUAL,
    GL_GEQUAL, GL_ALWAYS, GL_ARRAY_BUFFER, GL_ATOMIC_COUNTER_BUFFER, GL_COPY_READ_BUFFER,
    GL_COPY_WRITE_BUFFER, GL_DISPATCH_INDIRECT_BUFFER, GL_DRAW_INDIRECT_BUFFER,
    GL_ELEMENT_ARRAY_BUFFER, GL_PIXEL_PACK_BUFFER, GL_PIXEL_UNPACK_BUFFER, GL_QUERY_BUFFER,
    GL_SHADER_STORAGE_BUFFER, GL_TEXTURE_BUFFER, GL_TRANSFORM_FEEDBACK_BUFFER,
    GL_UNIFORM_BUFFER, GL_TEXTURE0, GL_TEXTURE_2D, GL_CCW, GL_UNPACK_ALIGNMENT,
};
use crate::vertex_array::VertexArray;
use crate::framebuffer::Framebuffer;
use crate::program::Program;
use crate::renderbuffer::Renderbuffer;
use crate::texture::Texture;
use crate::enums::{DrawMode, IndexKind};
use crate::info::{
    DeviceInfo, str_eq, parse_version_pair, split_words, glsl_version, spec_parse_version,
    spec_split_words, spec_glsl_version, spec_precision,
};

verus! {

/// Bit pattern of `1.0f32`.
pub const F32_ONE_BITS: u32 = 0x3F80_0000;
/// Bit pattern of `1.0f64`.
pub const F64_ONE_BITS: u64 = 0x3FF0_0000_0000_0000;

/// The cached state of a [`Context`], as one mathematical value; every
/// contract of this module is stated over it.
#[verifier::ext_equal]
pub struct StateView {
    pub version: Seq<char>,
    pub major: usize,
    pub minor: usize,
    pub glsl_major: usize,
    pub glsl_minor: usize,
    pub extenstions: Seq<Seq<char>>,
    pub clear_color: Seq<u32>,
    pub max_anisotropy: usize,
    pub max_textures: usize,
    pub max_vertex_textures: usize,
    pub max_texture_size: usize,
    pub max_cube_texture_size: usize,
    pub max_render_buffer_size: usize,
    pub max_uniforms: usize,
    pub max_varyings: usize,
    pub max_attributes: usize,
    pub precision: Precision,
    pub enabled_attributes: Seq<bool>,
    pub viewport_x: usize,
    pub viewport_y: usize,
    pub viewport_width: usize,
    pub viewport_height: usize,
    pub blending: Blending,
    pub cull_face: CullFace,
    pub depth_func: Depth,
    pub blending_disabled: bool,
    pub cull_face_disabled: bool,
    pub depth_test_disabled: bool,
    pub clear_depth: u64,
    pub clear_stencil: isize,
    pub depth_write: bool,
    pub depth_range_near: u64,
    pub depth_range_far: u64,
    pub line_width: u32,
    pub current_buffer: u32,
    pub current_buffer_kind: u32,
    pub current_vertex_array: u32,
    pub current_framebuffer: u32,
    pub current_renderbuffer: u32,
    pub current_program: u32,
    pub force: bool,
    pub texture_index: u32,
    pub current_texture_index: i32,
    pub current_texture: u32,
    pub active_texture_unit: u32,
    pub bound_array_buffer: u32,
    pub bound_atomic_counter_buffer: u32,
    pub bound_copy_read_buffer: u32,
    pub bound_copy_write_buffer: u32,
    pub bound_dispatch_indirect_buffer: u32,
    pub bound_draw_indirect_buffer: u32,
    pub bound_element_array_buffer: u32,
    pub bound_pixel_pack_buffer: u32,
    pub bound_pixel_unpack_buffer: u32,
    pub bound_query_buffer: u32,
    pub bound_shader_storage_buffer: u32,
    pub bound_texture_buffer: u32,
    pub bound_transform_feedback_buffer: u32,
    pub bound_uniform_buffer: u32,
    pub sampler_units: Seq<(i32, u32)>,
    pub calls: Seq<NativeCall>,
}

/// The state cache.  One instance mirrors one native context; state is only
/// accurate while every binding goes through this cache's mutators.
pub struct Context {
    pub version: String,
    pub major: usize,
    pub minor: usize,
    pub glsl_major: usize,
    pub glsl_minor: usize,
    pub extenstions: Vec<String>,
    pub clear_color: [u32; 4],
    pub max_anisotropy: usize,
    pub max_textures: usize,
    pub max_vertex_textures: usize,
    pub max_texture_size: usize,
    pub max_cube_texture_size: usize,
    pub max_render_buffer_size: usize,
    pub max_uniforms: usize,
    pub max_varyings: usize,
    pub max_attributes: usize,
    pub precision: Precision,
    pub enabled_attributes: Vec<bool>,
    pub viewport_x: usize,
    pub viewport_y: usize,
    pub viewport_width: usize,
    pub viewport_height: usize,
    pub blending: Blending,
    pub cull_face: CullFace,
    pub depth_func: Depth,
    pub blending_disabled: bool,
    pub cull_face_disabled: bool,
    pub depth_test_disabled: bool,
    pub clear_depth: u64,
    pub clear_stencil: isize,
    pub depth_write: bool,
    pub depth_range_near: u64,
    pub depth_range_far: u64,
    pub line_width: u32,
    pub current_buffer: u32,
    pub current_buffer_kind: u32,
    pub current_vertex_array: u32,
    pub current_framebuffer: u32,
    pub current_renderbuffer: u32,
    pub current_program: u32,
    pub force: bool,
    pub texture_index: u32,
    pub current_texture_index: i32,
    pub current_texture: u32,
    pub active_texture_unit: u32,
    pub bound_array_buffer: u32,
    pub bound_atomic_counter_buffer: u32,
    pub bound_copy_read_buffer: u32,
    pub bound_copy_write_buffer: u32,
    pub bound_dispatch_indirect_buffer: u32,
    pub bound_draw_indirect_buffer: u32,
    pub bound_element_array_buffer: u32,
    pub bound_pixel_pack_buffer: u32,
    pub bound_pixel_unpack_buffer: u32,
    pub bound_query_buffer: u32,
    pub bound_shader_storage_buffer: u32,
    pub bound_texture_buffer: u32,
    pub bound_transform_feedback_buffer: u32,
    pub bound_uniform_buffer: u32,
    pub sampler_units: Vec<(i32, u32)>,
    pub calls: Vec<NativeCall>,
}

impl View for Context {
    type V = StateView;

    open spec fn view(&self) -> StateView {
        StateView {
            version: self.version@,
            major: self.major,
            minor: self.minor,
            glsl_major: self.glsl_major,
            glsl_minor: self.glsl_minor,
            extenstions: self.extenstions.deep_view(),
            clear_color: self.clear_color@,
            max_anisotropy: self.max_anisotropy,
            max_textures: self.max_textures,
            max_vertex_textures: self.max_vertex_textures,
            max_texture_size: self.max_texture_size,
            max_cube_texture_size: self.max_cube_texture_size,
            max_render_buffer_size: self.max_render_buffer_size,
            max_uniforms: self.max_uniforms,
            max_varyings: self.max_varyings,
            max_attributes: self.max_attributes,
            precision: self.precision,
            enabled_attributes: self.enabled_attributes@,
            viewport_x: self.viewport_x,
            viewport_y: self.viewport_y,
            viewport_width: self.viewport_width,
            viewport_height: self.viewport_height,
            blending: self.blending,
            cull_face: self.cull_face,
            depth_func: self.depth_func,
            blending_disabled: self.blending_disabled,
            cull_face_disabled: self.cull_face_disabled,
            depth_test_disabled: self.depth_test_disabled,
            clear_depth: self.clear_depth,
            clear_stencil: self.clear_stencil,
            depth_write: self.depth_write,
            depth_range_near: self.depth_range_near,
            depth_range_far: self.depth_range_far,
            line_width: self.line_width,
            current_buffer: self.current_buffer,
            current_buffer_kind: self.current_buffer_kind,
            current_vertex_array: self.current_vertex_array,
            current_framebuffer: self.current_framebuffer,
            current_renderbuffer: self.current_renderbuffer,
            current_program: self.current_program,
            force: self.force,
            texture_index: self.texture_index,
            current_texture_index: self.current_texture_index,
            current_texture: self.current_texture,
            active_texture_unit: self.active_texture_unit,
            bound_array_buffer: self.bound_array_buffer,
            bound_atomic_counter_buffer: self.bound_atomic_counter_buffer,
            bound_copy_read_buffer: self.bound_copy_read_buffer,
            bound_copy_write_buffer: self.bound_copy_write_buffer,
            bound_dispatch_indirect_buffer: self.bound_dispatch_indirect_buffer,
            bound_draw_indirect_buffer: self.bound_draw_indirect_buffer,
            bound_element_array_buffer: self.bound_element_array_buffer,
            bound_pixel_pack_buffer: self.bound_pixel_pack_buffer,
            bound_pixel_unpack_buffer: self.bound_pixel_unpack_buffer,
            bound_query_buffer: self.bound_query_buffer,
            bound_shader_storage_buffer: self.bound_shader_storage_buffer,
            bound_texture_buffer: self.bound_texture_buffer,
            bound_transform_feedback_buffer: self.bound_transform_feedback_buffer,
            bound_uniform_buffer: self.bound_uniform_buffer,
            sampler_units: self.sampler_units@,
            calls: self.calls@,
        }
    }
}

/// The state a fresh cache starts in: nothing bound, default render state,
/// an empty call log.
pub open spec fn initial_state() -> StateView {
    StateView {
        version: Seq::empty(),
        major: 0,
        minor: 0,
        glsl_major: 0,
        glsl_minor: 0,
        extenstions: Seq::empty(),
        clear_color: seq![0u32, 0u32, 0u32, F32_ONE_BITS],
        max_anisotropy: 0,
        max_textures: 0,
        max_vertex_textures: 0,
        max_texture_size: 0,
        max_cube_texture_size: 0,
        max_render_buffer_size: 0,
        max_uniforms: 0,
        max_varyings: 0,
        max_attributes: 0,
        precision: Precision::High,
        enabled_attributes: Seq::empty(),
        viewport_x: 0,
        viewport_y: 0,
        viewport_width: 1,
        viewport_height: 1,
        blending: Blending::Default,
        cull_face: CullFace::Back,
        depth_func: Depth::LessThan,
        blending_disabled: true,
        cull_face_disabled: true,
        depth_test_disabled: true,
        clear_depth: F64_ONE_BITS,
        clear_stencil: 0isize,
        depth_write: true,
        depth_range_near: 0u64,
        depth_range_far: F64_ONE_BITS,
        line_width: F32_ONE_BITS,
        current_buffer: 0u32,
        current_buffer_kind: 0u32,
        current_vertex_array: 0u32,
        current_framebuffer: 0u32,
        current_renderbuffer: 0u32,
        current_program: 0u32,
        force: false,
        texture_index: 0u32,
        current_texture_index: -1i32,
        current_texture: 0u32,
        active_texture_unit: 0u32,
        bound_array_buffer: 0u32,
        bound_atomic_counter_buffer: 0u32,
        bound_copy_read_buffer: 0u32,
        bound_copy_write_buffer: 0u32,
        bound_dispatch_indirect_buffer: 0u32,
        bound_draw_indirect_buffer: 0u32,
        bound_element_array_buffer: 0u32,
        bound_pixel_pack_buffer: 0u32,
        bound_pixel_unpack_buffer: 0u32,
        bound_query_buffer: 0u32,
        bound_shader_storage_buffer: 0u32,
        bound_texture_buffer: 0u32,
        bound_transform_feedback_buffer: 0u32,
        bound_uniform_buffer: 0u32,
        sampler_units: Seq::empty(),
        calls: Seq::empty(),
    }
}

impl Context {
    /// A fresh cache in [`initial_state`].
    pub fn new() -> (r: Self)
        ensures
            r@ == initial_state(),
    {
        let r = Context {
            version: String::new(),
            major: 0,
            minor: 0,
            glsl_major: 0,
            glsl_minor: 0,
            extenstions: Vec::new(),
            clear_color: [0u32, 0u32, 0u32, F32_ONE_BITS],
            max_anisotropy: 0,
            max_textures: 0,
            max_vertex_textures: 0,
            max_texture_size: 0,
            max_cube_texture_size: 0,
            max_render_buffer_size: 0,
            max_uniforms: 0,
            max_varyings: 0,
            max_attributes: 0,
            precision: Precision::High,
            enabled_attributes: Vec::new(),
            viewport_x: 0,
            viewport_y: 0,
            viewport_width: 1,
            viewport_height: 1,
            blending: Blending::Default,
            cull_face: CullFace::Back,
            depth_func: Depth::LessThan,
            blending_disabled: true,
            cull_face_disabled: true,
            depth_test_disabled: true,
            clear_depth: F64_ONE_BITS,
            clear_stencil: 0isize,
            depth_write: true,
            depth_range_near: 0u64,
            depth_range_far: F64_ONE_BITS,
            line_width: F32_ONE_BITS,
            current_buffer: 0,
            current_buffer_kind: 0,
            current_vertex_array: 0,
            current_framebuffer: 0,
            current_renderbuffer: 0,
            current_program: 0,
            force: false,
            texture_index: 0,
            current_texture_index: -1,
            current_texture: 0,
            active_texture_unit: 0,
            bound_array_buffer: 0,
            bound_atomic_counter_buffer: 0,
            bound_copy_read_buffer: 0,
            bound_copy_write_buffer: 0,
            bound_dispatch_indirect_buffer: 0,
            bound_draw_indirect_buffer: 0,
            bound_element_array_buffer: 0,
            bound_pixel_pack_buffer: 0,
            bound_pixel_unpack_buffer: 0,
            bound_query_buffer: 0,
            bound_shader_storage_buffer: 0,
            bound_texture_buffer: 0,
            bound_transform_feedback_buffer: 0,
            bound_uniform_buffer: 0,
            sampler_units: Vec::new(),
            calls: Vec::new(),
        };
        proof {
            assert(r@ =~= initial_state());
        }
        r
    }

    /// Appends one decided native command to the call log.
    pub(crate) fn log(&mut self, call: NativeCall)
        ensures
            final(self)@ == (StateView { calls: old(self)@.calls.push(call), ..old(self)@ }),
    {
        self.calls.push(call);
        proof {
            assert(self@ =~= (StateView { calls: old(self)@.calls.push(call), ..old(self)@ }));
        }
    }

    /// Hands the logged native commands to the executor and empties the log.
    pub fn take_calls(&mut self) -> (r: Vec<NativeCall>)
        ensures
            r@ == old(self)@.calls,
            final(self)@ == (StateView { calls: Seq::empty(), ..old(self)@ }),
    {
        let r = self.calls.split_off(0);
        proof {
            assert(r@ =~= old(self)@.calls);
            assert(self@ =~= (StateView { calls: Seq::<NativeCall>::empty(), ..old(self)@ }));
        }
        r
    }

    /// Resets the tracking of viewport and clear color to their defaults,
    /// without issuing any native call.  Used when the render target
    /// switches, since the backend scopes those per target.
    pub fn soft_reset(&mut self)
        ensures
            final(self)@ == (StateView {
                clear_color: seq![0u32, 0u32, 0u32, F32_ONE_BITS],
                viewport_x: 0usize,
                viewport_y: 0usize,
                viewport_width: 1usize,
                viewport_height: 1usize,
                ..old(self)@
            }),
    {
        self.clear_color = [0u32, 0u32, 0u32, F32_ONE_BITS];
        self.viewport_x = 0;
        self.viewport_y = 0;
        self.viewport_width = 1;
        self.viewport_height = 1;
        proof {
            assert(self@ =~= (StateView {
                clear_color: seq![0u32, 0u32, 0u32, F32_ONE_BITS],
                viewport_x: 0usize,
                viewport_y: 0usize,
                viewport_width: 1usize,
                viewport_height: 1usize,
                ..old(self)@
            }));
        }
    }

    /// Issues the viewport call unconditionally, touching no cached state.
    pub fn set_viewport_unchecked(&mut self, x: usize, y: usize, width: usize, height: usize)
        ensures
            final(self)@ == (StateView {
                calls: old(self)@.calls.push(NativeCall::Viewport { x, y, width, height }),
                ..old(self)@
            }),
    {
        self.log(NativeCall::Viewport { x, y, width, height });
    }

    /// Applies the viewport on a cache miss: issues the native call and
    /// updates the mirror only when the requested rectangle differs from the
    /// cached one; a hit is a no-op signalled by `false`.
    pub fn set_viewport(&mut self, x: usize, y: usize, width: usize, height: usize) -> (changed:
        bool)
        ensures
            changed == !(old(self)@.viewport_x == x && old(self)@.viewport_y == y && old(
                self,
            )@.viewport_width == width && old(self)@.viewport_height == height),
            changed ==> final(self)@ == (StateView {
                viewport_x: x,
                viewport_y: y,
                viewport_width: width,
                viewport_height: height,
                calls: old(self)@.calls.push(NativeCall::Viewport { x, y, width, height }),
                ..old(self)@
            }),
            !changed ==> final(self)@ == old(self)@,
    {
        if self.viewport_x != x || self.viewport_y != y || self.viewport_width != width
            || self.viewport_height != height {
            self.viewport_x = x;
            self.viewport_y = y;
            self.viewport_width = width;
            self.viewport_height = height;
            self.set_viewport_unchecked(x, y, width, height);
            proof {
                assert(self@ =~= (StateView {
                    viewport_x: x,
                    viewport_y: y,
                    viewport_width: width,
                    viewport_height: height,
                    calls: old(self)@.calls.push(NativeCall::Viewport { x, y, width, height }),
                    ..old(self)@
                }));
            }
            true
        } else {
            false
        }
    }

    /// Issues the clear-depth call unconditionally; `clear_depth` is the bit
    /// pattern of the depth value.
    pub fn set_clear_depth_unchecked(&mut self, clear_depth: u64)
        ensures
            final(self)@ == (StateView {
                calls: old(self)@.calls.push(NativeCall::ClearDepth { depth_bits: clear_depth }),
                ..old(self)@
            }),
    {
        self.log(NativeCall::ClearDepth { depth_bits: clear_depth });
    }

    /// Caches the clear-depth bit pattern; issues the native call only when
    /// it differs from the cached pattern.
    pub fn set_clear_depth(&mut self, clear_depth: u64) -> (changed: bool)
        ensures
            changed == (old(self)@.clear_depth != clear_depth),
            changed ==> final(self)@ == (StateView {
                clear_depth,
                calls: old(self)@.calls.push(NativeCall::ClearDepth { depth_bits: clear_depth }),
                ..old(self)@
            }),
            !changed ==> final(self)@ == old(self)@,
    {
        if self.clear_depth != clear_depth {
            self.clear_depth = clear_depth;
            self.set_clear_depth_unchecked(clear_depth);
            proof {
                assert(self@ =~= (StateView {
                    clear_depth,
                    calls: old(self)@.calls.push(
                        NativeCall::ClearDepth { depth_bits: clear_depth },
                    ),
                    ..old(self)@
                }));
            }
            true
        } else {
            false
        }
    }

    /// Issues the clear-stencil call unconditionally.
    pub fn set_clear_stencil_unchecked(&mut self, clear_stencil: isize)
        ensures
            final(self)@ == (StateView {
                calls: old(self)@.calls.push(NativeCall::ClearStencil { stencil: clear_stencil }),
                ..old(self)@
            }),
    {
        self.log(NativeCall::ClearStencil { stencil: clear_stencil });
    }

    /// Caches the clear-stencil value; issues the native call only on a
    /// cache miss.
    pub fn set_clear_stencil(&mut self, clear_stencil: isize) -> (changed: bool)
        ensures
            changed == (old(self)@.clear_stencil != clear_stencil),
            changed ==> final(self)@ == (StateView {
                clear_stencil,
                calls: old(self)@.calls.push(NativeCall::ClearStencil { stencil: clear_stencil }),
                ..old(self)@
            }),
            !changed ==> final(self)@ == old(self)@,
    {
        if self.clear_stencil != clear_stencil {
            self.clear_stencil = clear_stencil;
            self.set_clear_stencil_unchecked(clear_stencil);
            proof {
                assert(self@ =~= (StateView {
                    clear_stencil,
                    calls: old(self)@.calls.push(
                        NativeCall::ClearStencil { stencil: clear_stencil },
                    ),
                    ..old(self)@
                }));
            }
            true
        } else {
            false
        }
    }

    /// Issues the depth-mask call unconditionally.
    pub fn set_depth_write_unchecked(&mut self, depth_write: bool)
        ensures
            final(self)@ == (StateView {
                calls: old(self)@.calls.push(NativeCall::DepthMask { flag: depth_write }),
                ..old(self)@
            }),
    {
        self.log(NativeCall::DepthMask { flag: depth_write });
    }

    /// Caches the depth-write mask; issues the native call only on a cache
    /// miss.
    pub fn set_depth_write(&mut self, depth_write: bool) -> (changed: bool)
        ensures
            changed == (old(self)@.depth_write != depth_write),
            changed ==> final(self)@ == (StateView {
                depth_write,
                calls: old(self)@.calls.push(NativeCall::DepthMask { flag: depth_write }),
                ..old(self)@
            }),
            !changed ==> final(self)@ == old(self)@,
    {
        if self.depth_write != depth_write {
            self.depth_write = depth_write;
            self.set_depth_write_unchecked(depth_write);
            proof {
                assert(self@ =~= (StateView {
                    depth_write,
                    calls: old(self)@.calls.push(NativeCall::DepthMask { flag: depth_write }),
                    ..old(self)@
                }));
            }
            true
        } else {
            false
        }
    }

    /// Issues the depth-range call unconditionally; both bounds are bit
    /// patterns of the range values.
    pub fn set_depth_range_unchecked(&mut self, near: u64, far: u64)
        ensures
            final(self)@ == (StateView {
                calls: old(self)@.calls.push(
                    NativeCall::DepthRange { near_bits: near, far_bits: far },
                ),
                ..old(self)@
            }),
    {
        self.log(NativeCall::DepthRange { near_bits: near, far_bits: far });
    }

    /// Caches the depth range; issues the native call only when either bound
    /// differs from the cached pattern.
    pub fn set_depth_range(&mut self, near: u64, far: u64) -> (changed: bool)
        ensures
            changed == (old(self)@.depth_range_near != near || old(self)@.depth_range_far != far),
            changed ==> final(self)@ == (StateView {
                depth_range_near: near,
                depth_range_far: far,
                calls: old(self)@.calls.push(
                    NativeCall::DepthRange { near_bits: near, far_bits: far },
                ),
                ..old(self)@
            }),
            !changed ==> final(self)@ == old(self)@,
    {
        if self.depth_range_near != near || self.depth_range_far != far {
            self.depth_range_near = near;
            self.depth_range_far = far;
            self.set_depth_range_unchecked(near, far);
            proof {
                assert(self@ =~= (StateView {
                    depth_range_near: near,
                    depth_range_far: far,
                    calls: old(self)@.calls.push(
                        NativeCall::DepthRange { near_bits: near, far_bits: far },
                    ),
                    ..old(self)@
                }));
            }
            true
        } else {
            false
        }
    }

    /// Issues the line-width call unconditionally; `line_width` is the bit
    /// pattern of the width.
    pub fn set_line_width_unchecked(&mut self, line_width: u32)
        ensures
            final(self)@ == (StateView {
                calls: old(self)@.calls.push(NativeCall::LineWidth { width_bits: line_width }),
                ..old(self)@
            }),
    {
        self.log(NativeCall::LineWidth { width_bits: line_width });
    }

    /// Caches the line width; issues the native call only on a cache miss.
    pub fn set_line_width(&mut self, line_width: u32) -> (changed: bool)
        ensures
            changed == (old(self)@.line_width != line_width),
            changed ==> final(self)@ == (StateView {
                line_width,
                calls: old(self)@.calls.push(NativeCall::LineWidth { width_bits: line_width }),
                ..old(self)@
            }),
            !changed ==> final(self)@ == old(self)@,
    {
        if self.line_width != line_width {
            self.line_width = line_width;
            self.set_line_width_unchecked(line_width);
            proof {
                assert(self@ =~= (StateView {
                    line_width,
                    calls: old(self)@.calls.push(NativeCall::LineWidth { width_bits: line_width }),
                    ..old(self)@
                }));
            }
            true
        } else {
            false
        }
    }

    /// Issues the clear-color call unconditionally; `color` holds the bit
    /// patterns of the four channels.
    pub fn set_clear_color_unchecked(&mut self, color: &[u32; 4])
        ensures
            final(self)@ == (StateView {
                calls: old(self)@.calls.push(
                    NativeCall::ClearColor {
                        red_bits: color@[0],
                        green_bits: color@[1],
                        blue_bits: color@[2],
                        alpha_bits: color@[3],
                    },
                ),
                ..old(self)@
            }),
    {
        self.log(
            NativeCall::ClearColor {
                red_bits: color[0],
                green_bits: color[1],
                blue_bits: color[2],
                alpha_bits: color[3],
            },
        );
    }

    /// Caches the clear color; issues the native call only when some channel
    /// differs from the cached pattern.
    pub fn set_clear_color(&mut self, color: &[u32; 4]) -> (changed: bool)
        ensures
            changed == (old(self)@.clear_color != color@),
            changed ==> final(self)@ == (StateView {
                clear_color: color@,
                calls: old(self)@.calls.push(
                    NativeCall::ClearColor {
                        red_bits: color@[0],
                        green_bits: color@[1],
                        blue_bits: color@[2],
                        alpha_bits: color@[3],
                    },
                ),
                ..old(self)@
            }),
            !changed ==> final(self)@ == old(self)@,
    {
        proof {
            assert(old(self)@.clear_color.len() == 4);
            assert(color@.len() == 4);
        }
        if self.clear_color[0] != color[0] || self.clear_color[1] != color[1]
            || self.clear_color[2] != color[2] || self.clear_color[3] != color[3] {
            self.clear_color[0] = color[0];
            self.clear_color[1] = color[1];
            self.clear_color[2] = color[2];
            self.clear_color[3] = color[3];
            self.set_clear_color_unchecked(color);
            proof {
                assert(self@.clear_color =~= color@);
                assert(self@ =~= (StateView {
                    clear_color: color@,
                    calls: old(self)@.calls.push(
                        NativeCall::ClearColor {
                            red_bits: color@[0],
                            green_bits: color@[1],
                            blue_bits: color@[2],
                            alpha_bits: color@[3],
                        },
                    ),
                    ..old(self)@
                }));
            }
            true
        } else {
            proof {
                assert(old(self)@.clear_color =~= color@);
            }
            false
        }
    }

    /// The clear mask selecting the requested planes: color, depth, stencil.
    pub open spec fn spec_clear_mask(color: bool, depth: bool, stencil: bool) -> u32 {
        (if color {
            GL_COLOR_BUFFER_BIT
        } else {
            0u32
        }) | (if depth {
            GL_DEPTH_BUFFER_BIT
        } else {
            0u32
        }) | (if stencil {
            GL_STENCIL_BUFFER_BIT
        } else {
            0u32
        })
    }

    /// Issues a clear of the selected planes.  Clears are never cached.
    pub fn clear(&mut self, color: bool, depth: bool, stencil: bool)
        ensures
            final(self)@ == (StateView {
                calls: old(self)@.calls.push(
                    NativeCall::Clear { mask: Self::spec_clear_mask(color, depth, stencil) },
                ),
                ..old(self)@
            }),
    {
        let bits: u32 = (if color {
            GL_COLOR_BUFFER_BIT
        } else {
            0u32
        }) | (if depth {
            GL_DEPTH_BUFFER_BIT
        } else {
            0u32
        }) | (if stencil {
            GL_STENCIL_BUFFER_BIT
        } else {
            0u32
        });
        self.clear_bits(bits);
    }

    /// Issues a clear with a raw native mask.
    pub fn clear_bits(&mut self, bits: u32)
        ensures
            final(self)@ == (StateView {
                calls: old(self)@.calls.push(NativeCall::Clear { mask: bits }),
                ..old(self)@
            }),
    {
        self.log(NativeCall::Clear { mask: bits });
    }
}

/// The enable command of a lazily enabled capability: issued only when the
/// capability is still disabled.
pub open spec fn spec_enable_calls(disabled: bool, capability: u32) -> Seq<NativeCall> {
    if disabled {
        seq![NativeCall::Enable { capability }]
    } else {
        Seq::empty()
    }
}

/// The native commands that apply a blending mode, given whether blending
/// is currently disabled.
pub open spec fn spec_blend_calls(disabled: bool, blending: Blending) -> Seq<NativeCall> {
    match blending {
        Blending::Off => seq![NativeCall::Disable { capability: GL_BLEND }],
        Blending::Additive => spec_enable_calls(disabled, GL_BLEND) + seq![
            NativeCall::BlendEquation { mode: GL_FUNC_ADD },
            NativeCall::BlendFunc { sfactor: GL_SRC_ALPHA, dfactor: GL_ONE },
        ],
        Blending::Subtractive => spec_enable_calls(disabled, GL_BLEND) + seq![
            NativeCall::BlendEquation { mode: GL_FUNC_ADD },
            NativeCall::BlendFunc { sfactor: GL_ZERO, dfactor: GL_ONE_MINUS_SRC_COLOR },
        ],
        Blending::Multiply => spec_enable_calls(disabled, GL_BLEND) + seq![
            NativeCall::BlendEquation { mode: GL_FUNC_ADD },
            NativeCall::BlendFunc { sfactor: GL_ZERO, dfactor: GL_SRC_COLOR },
        ],
        Blending::Default => spec_enable_calls(disabled, GL_BLEND) + seq![
            NativeCall::BlendEquationSeparate { mode_rgb: GL_FUNC_ADD, mode_alpha: GL_FUNC_ADD },
            NativeCall::BlendFuncSeparate {
                src_rgb: GL_SRC_ALPHA,
                dst_rgb: GL_ONE_MINUS_SRC_ALPHA,
                src_alpha: GL_ONE,
                dst_alpha: GL_ONE_MINUS_SRC_ALPHA,
            },
        ],
    }
}

/// The native constant of a face-culling mode other than `Off`.
pub open spec fn spec_cull_mode(cull_face: CullFace) -> u32 {
    match cull_face {
        CullFace::Off => 0u32,
        CullFace::Back => GL_BACK,
        CullFace::Front => GL_FRONT,
        CullFace::FrontAndBack => GL_FRONT_AND_BACK,
    }
}

/// The native commands that apply a face-culling mode, given whether
/// culling is currently disabled.
pub open spec fn spec_cull_calls(disabled: bool, cull_face: CullFace) -> Seq<NativeCall> {
    if cull_face == CullFace::Off {
        seq![NativeCall::Disable { capability: GL_CULL_FACE }]
    } else {
        spec_enable_calls(disabled, GL_CULL_FACE) + seq![
            NativeCall::CullFace { mode: spec_cull_mode(cull_face) },
        ]
    }
}

/// The native constant of a depth function other than `Off`.
pub open spec fn spec_depth_mode(depth_func: Depth) -> u32 {
    match depth_func {
        Depth::Off => 0u32,
        Depth::Never => GL_NEVER,
        Depth::LessThan => GL_LESS,
        Depth::Equal => GL_EQUAL,
        Depth::LessThanOrEqual => GL_LEQUAL,
        Depth::GreaterThan => GL_GREATER,
        Depth::NotEqual => GL_NOTEQUAL,
        Depth::GreaterThanOrEqual => GL_GEQUAL,
        Depth::Always => GL_ALWAYS,
    }
}

/// The native commands that apply a depth function, given whether the depth
/// test is currently disabled.
pub open spec fn spec_depth_calls(disabled: bool, depth_func: Depth) -> Seq<NativeCall> {
    if depth_func == Depth::Off {
        seq![NativeCall::Disable { capability: GL_DEPTH_TEST }]
    } else {
        spec_enable_calls(disabled, GL_DEPTH_TEST) + seq![
            NativeCall::DepthFunc { func: spec_depth_mode(depth_func) },
        ]
    }
}

/// The disable commands of every enabled attribute slot at or after `from`,
/// in slot order.
pub open spec fn spec_disable_calls(attrs: Seq<bool>, from: int) -> Seq<NativeCall>
    decreases attrs.len() - from,
{
    if from < 0 || from >= attrs.len() {
        Seq::empty()
    } else if attrs[from] {
        seq![NativeCall::DisableVertexAttribArray { index: from as u32 }] + spec_disable_calls(
            attrs,
            from + 1,
        )
    } else {
        spec_disable_calls(attrs, from + 1)
    }
}

/// The cached binding of one buffer target.
pub open spec fn bound_buffer(s: StateView, target: BufferTarget) -> u32 {
    match target {
        BufferTarget::Array => s.bound_array_buffer,
        BufferTarget::AtomicCounter => s.bound_atomic_counter_buffer,
        BufferTarget::CopyRead => s.bound_copy_read_buffer,
        BufferTarget::CopyWrite => s.bound_copy_write_buffer,
        BufferTarget::DispatchIndirect => s.bound_dispatch_indirect_buffer,
        BufferTarget::DrawIndirect => s.bound_draw_indirect_buffer,
        BufferTarget::ElementArray => s.bound_element_array_buffer,
        BufferTarget::PixelPack => s.bound_pixel_pack_buffer,
        BufferTarget::PixelUnpack => s.bound_pixel_unpack_buffer,
        BufferTarget::Query => s.bound_query_buffer,
        BufferTarget::ShaderStorage => s.bound_shader_storage_buffer,
        BufferTarget::Texture => s.bound_texture_buffer,
        BufferTarget::TransformFeedback => s.bound_transform_feedback_buffer,
        BufferTarget::Uniform => s.bound_uniform_buffer,
    }
}

/// The state with one buffer target's cached binding replaced.
pub open spec fn with_bound_buffer(s: StateView, target: BufferTarget, id: u32) -> StateView {
    match target {
        BufferTarget::Array => StateView { bound_array_buffer: id, ..s },
        BufferTarget::AtomicCounter => StateView { bound_atomic_counter_buffer: id, ..s },
        BufferTarget::CopyRead => StateView { bound_copy_read_buffer: id, ..s },
        BufferTarget::CopyWrite => StateView { bound_copy_write_buffer: id, ..s },
        BufferTarget::DispatchIndirect => StateView { bound_dispatch_indirect_buffer: id, ..s },
        BufferTarget::DrawIndirect => StateView { bound_draw_indirect_buffer: id, ..s },
        BufferTarget::ElementArray => StateView { bound_element_array_buffer: id, ..s },
        BufferTarget::PixelPack => StateView { bound_pixel_pack_buffer: id, ..s },
        BufferTarget::PixelUnpack => StateView { bound_pixel_unpack_buffer: id, ..s },
        BufferTarget::Query => StateView { bound_query_buffer: id, ..s },
        BufferTarget::ShaderStorage => StateView { bound_shader_storage_buffer: id, ..s },
        BufferTarget::Texture => StateView { bound_texture_buffer: id, ..s },
        BufferTarget::TransformFeedback => StateView { bound_transform_feedback_buffer: id, ..s },
        BufferTarget::Uniform => StateView { bound_uniform_buffer: id, ..s },
    }
}

/// The buffer target whose native constant is `kind`, if any.
pub open spec fn target_of_gl(kind: u32) -> Option<BufferTarget> {
    if kind == GL_ARRAY_BUFFER {
        Some(BufferTarget::Array)
    } else if kind == GL_ATOMIC_COUNTER_BUFFER {
        Some(BufferTarget::AtomicCounter)
    } else if kind == GL_COPY_READ_BUFFER {
        Some(BufferTarget::CopyRead)
    } else if kind == GL_COPY_WRITE_BUFFER {
        Some(BufferTarget::CopyWrite)
    } else if kind == GL_DISPATCH_INDIRECT_BUFFER {
        Some(BufferTarget::DispatchIndirect)
    } else if kind == GL_DRAW_INDIRECT_BUFFER {
        Some(BufferTarget::DrawIndirect)
    } else if kind == GL_ELEMENT_ARRAY_BUFFER {
        Some(BufferTarget::ElementArray)
    } else if kind == GL_PIXEL_PACK_BUFFER {
        Some(BufferTarget::PixelPack)
    } else if kind == GL_PIXEL_UNPACK_BUFFER {
        Some(BufferTarget::PixelUnpack)
    } else if kind == GL_QUERY_BUFFER {
        Some(BufferTarget::Query)
    } else if kind == GL_SHADER_STORAGE_BUFFER {
        Some(BufferTarget::ShaderStorage)
    } else if kind == GL_TEXTURE_BUFFER {
        Some(BufferTarget::Texture)
    } else if kind == GL_TRANSFORM_FEEDBACK_BUFFER {
        Some(BufferTarget::TransformFeedback)
    } else if kind == GL_UNIFORM_BUFFER {
        Some(BufferTarget::Uniform)
    } else {
        None
    }
}

/// The transition of [`Context::set_buffer`]: on a miss of the target's
/// slot (or when forced), every enabled attribute is disabled first — an
/// attribute pointer is relative to its buffer, so none may survive a
/// buffer switch — then the bind is issued and both the slot and the
/// most-recent-bind fields are updated.  On a hit nothing changes.
pub open spec fn spec_set_buffer(pre: StateView, id: u32, kind: BufferTarget, force: bool) -> (
    StateView,
    bool,
) {
    if force || bound_buffer(pre, kind) != id {
        let disabled = StateView {
            enabled_attributes: Seq::new(pre.enabled_attributes.len(), |i: int| false),
            calls: pre.calls + spec_disable_calls(pre.enabled_attributes, 0),
            ..pre
        };
        let bound = with_bound_buffer(disabled, kind, id);
        (
            StateView {
                current_buffer: id,
                current_buffer_kind: kind.spec_gl(),
                calls: bound.calls.push(NativeCall::BindBuffer { target: kind.spec_gl(), id }),
                ..bound
            },
            true,
        )
    } else {
        (pre, false)
    }
}

/// The transition of [`Context::remove_buffer`]: when some buffer is
/// tracked as bound (or when forced), attributes are disabled, the zero
/// buffer is bound to the most recently bound target, and the tracking is
/// cleared.
pub open spec fn spec_remove_buffer(pre: StateView, force: bool) -> (StateView, bool) {
    if force || pre.current_buffer != 0 {
        let disabled = StateView {
            enabled_attributes: Seq::new(pre.enabled_attributes.len(), |i: int| false),
            calls: pre.calls + spec_disable_calls(pre.enabled_attributes, 0),
            ..pre
        };
        let cleared = match target_of_gl(pre.current_buffer_kind) {
            Some(target) => with_bound_buffer(disabled, target, 0u32),
            None => disabled,
        };
        (
            StateView {
                current_buffer: 0u32,
                current_buffer_kind: 0u32,
                calls: cleared.calls.push(
                    NativeCall::BindBuffer { target: pre.current_buffer_kind, id: 0u32 },
                ),
                ..cleared
            },
            true,
        )
    } else {
        (pre, false)
    }
}

/// The transition of [`Context::enable_attribute`].
pub open spec fn spec_enable_attribute(pre: StateView, index: usize, force: bool) -> (
    StateView,
    bool,
) {
    if force || !pre.enabled_attributes[index as int] {
        (
            StateView {
                enabled_attributes: pre.enabled_attributes.update(index as int, true),
                calls: pre.calls.push(
                    NativeCall::EnableVertexAttribArray { index: index as u32 },
                ),
                ..pre
            },
            true,
        )
    } else {
        (pre, false)
    }
}

/// The transition of [`Context::set_attrib_pointer`]: the pointer call is
/// issued exactly when the attribute slot had to be (re-)enabled.
pub open spec fn spec_set_attrib_pointer(
    pre: StateView,
    location: u32,
    item_size: u32,
    kind: u32,
    stride: usize,
    offset: usize,
    force: bool,
) -> (StateView, bool) {
    if force || !pre.enabled_attributes[location as int] {
        (
            StateView {
                enabled_attributes: pre.enabled_attributes.update(location as int, true),
                calls: pre.calls + seq![
                    NativeCall::EnableVertexAttribArray { index: location },
                    NativeCall::VertexAttribPointer { location, item_size, kind, stride, offset },
                ],
                ..pre
            },
            true,
        )
    } else {
        (pre, false)
    }
}

impl Context {
    /// Enables the blending capability if it is still disabled.
    fn enable_blending(&mut self)
        ensures
            final(self)@ == (StateView {
                blending_disabled: false,
                calls: old(self)@.calls + spec_enable_calls(old(self)@.blending_disabled, GL_BLEND),
                ..old(self)@
            }),
    {
        if self.blending_disabled {
            self.log(NativeCall::Enable { capability: GL_BLEND });
            self.blending_disabled = false;
        }
        proof {
            assert(self@ =~= (StateView {
                blending_disabled: false,
                calls: old(self)@.calls + spec_enable_calls(old(self)@.blending_disabled, GL_BLEND),
                ..old(self)@
            }));
        }
    }

    /// Applies `blending` unconditionally: enables or disables the
    /// capability as the mode demands and issues its equation and factor
    /// calls.  The cached mode itself is not touched; only the checked
    /// variant updates it.
    #[verifier::rlimit(50)]
    pub fn set_blending_unchecked(&mut self, blending: Blending)
        ensures
            final(self)@ == (StateView {
                blending_disabled: blending == Blending::Off,
                calls: old(self)@.calls + spec_blend_calls(old(self)@.blending_disabled, blending),
                ..old(self)@
            }),
    {
        match blending {
            Blending::Additive => {
                self.enable_blending();
                self.log(NativeCall::BlendEquation { mode: GL_FUNC_ADD });
                self.log(NativeCall::BlendFunc { sfactor: GL_SRC_ALPHA, dfactor: GL_ONE });
            },
            Blending::Subtractive => {
                self.enable_blending();
                self.log(NativeCall::BlendEquation { mode: GL_FUNC_ADD });
                self.log(
                    NativeCall::BlendFunc { sfactor: GL_ZERO, dfactor: GL_ONE_MINUS_SRC_COLOR },
                );
            },
            Blending::Multiply => {
                self.enable_blending();
                self.log(NativeCall::BlendEquation { mode: GL_FUNC_ADD });
                self.log(NativeCall::BlendFunc { sfactor: GL_ZERO, dfactor: GL_SRC_COLOR });
            },
            Blending::Default => {
                self.enable_blending();
                self.log(
                    NativeCall::BlendEquationSeparate {
                        mode_rgb: GL_FUNC_ADD,
                        mode_alpha: GL_FUNC_ADD,
                    },
                );
                self.log(
                    NativeCall::BlendFuncSeparate {
                        src_rgb: GL_SRC_ALPHA,
                        dst_rgb: GL_ONE_MINUS_SRC_ALPHA,
                        src_alpha: GL_ONE,
                        dst_alpha: GL_ONE_MINUS_SRC_ALPHA,
                    },
                );
            },
            Blending::Off => {
                self.log(NativeCall::Disable { capability: GL_BLEND });
                self.blending_disabled = true;
            },
        }
        proof {
            assert(self@ =~= (StateView {
                blending_disabled: blending == Blending::Off,
                calls: old(self)@.calls + spec_blend_calls(old(self)@.blending_disabled, blending),
                ..old(self)@
            }));
        }
    }

    /// Caches the blending mode; applies it only on a cache miss.
    pub fn set_blending(&mut self, blending: Blending) -> (changed: bool)
        ensures
            changed == (old(self)@.blending != blending),
            changed ==> final(self)@ == (StateView {
                blending,
                blending_disabled: blending == Blending::Off,
                calls: old(self)@.calls + spec_blend_calls(old(self)@.blending_disabled, blending),
                ..old(self)@
            }),
            !changed ==> final(self)@ == old(self)@,
    {
        if self.blending != blending {
            self.blending = blending;
            self.set_blending_unchecked(blending);
            proof {
                assert(self@ =~= (StateView {
                    blending,
                    blending_disabled: blending == Blending::Off,
                    calls: old(self)@.calls + spec_blend_calls(
                        old(self)@.blending_disabled,
                        blending,
                    ),
                    ..old(self)@
                }));
            }
            true
        } else {
            false
        }
    }

    /// Enables the culling capability if it is still disabled.
    fn enable_cull_face(&mut self)
        ensures
            final(self)@ == (StateView {
                cull_face_disabled: false,
                calls: old(self)@.calls + spec_enable_calls(
                    old(self)@.cull_face_disabled,
                    GL_CULL_FACE,
                ),
                ..old(self)@
            }),
    {
        if self.cull_face_disabled {
            self.log(NativeCall::Enable { capability: GL_CULL_FACE });
            self.cull_face_disabled = false;
        }
        proof {
            assert(self@ =~= (StateView {
                cull_face_disabled: false,
                calls: old(self)@.calls + spec_enable_calls(
                    old(self)@.cull_face_disabled,
                    GL_CULL_FACE,
                ),
                ..old(self)@
            }));
        }
    }

    /// Applies `cull_face` unconditionally, leaving the cached mode alone.
    pub fn set_cull_face_unchecked(&mut self, cull_face: CullFace)
        ensures
            final(self)@ == (StateView {
                cull_face_disabled: cull_face == CullFace::Off,
                calls: old(self)@.calls + spec_cull_calls(
                    old(self)@.cull_face_disabled,
                    cull_face,
                ),
                ..old(self)@
            }),
    {
        match cull_face {
            CullFace::Back => {
                self.enable_cull_face();
                self.log(NativeCall::CullFace { mode: GL_BACK });
            },
            CullFace::Front => {
                self.enable_cull_face();
                self.log(NativeCall::CullFace { mode: GL_FRONT });
            },
            CullFace::FrontAndBack => {
                self.enable_cull_face();
                self.log(NativeCall::CullFace { mode: GL_FRONT_AND_BACK });
            },
            CullFace::Off => {
                self.cull_face_disabled = true;
                self.log(NativeCall::Disable { capability: GL_CULL_FACE });
            },
        }
        proof {
            assert(self@ =~= (StateView {
                cull_face_disabled: cull_face == CullFace::Off,
                calls: old(self)@.calls + spec_cull_calls(
                    old(self)@.cull_face_disabled,
                    cull_face,
                ),
                ..old(self)@
            }));
        }
    }

    /// Caches the culling mode; applies it only on a cache miss.
    pub fn set_cull_face(&mut self, cull_face: CullFace) -> (changed: bool)
        ensures
            changed == (old(self)@.cull_face != cull_face),
            changed ==> final(self)@ == (StateView {
                cull_face,
                cull_face_disabled: cull_face == CullFace::Off,
                calls: old(self)@.calls + spec_cull_calls(
                    old(self)@.cull_face_disabled,
                    cull_face,
                ),
                ..old(self)@
            }),
            !changed ==> final(self)@ == old(self)@,
    {
        if self.cull_face != cull_face {
            self.cull_face = cull_face;
            self.set_cull_face_unchecked(cull_face);
            proof {
                assert(self@ =~= (StateView {
                    cull_face,
                    cull_face_disabled: cull_face == CullFace::Off,
                    calls: old(self)@.calls + spec_cull_calls(
                        old(self)@.cull_face_disabled,
                        cull_face,
                    ),
                    ..old(self)@
                }));
            }
            true
        } else {
            false
        }
    }

    /// Enables the depth test if it is still disabled.
    fn enable_depth_test(&mut self)
        ensures
            final(self)@ == (StateView {
                depth_test_disabled: false,
                calls: old(self)@.calls + spec_enable_calls(
                    old(self)@.depth_test_disabled,
                    GL_DEPTH_TEST,
                ),
                ..old(self)@
            }),
    {
        if self.depth_test_disabled {
            self.log(NativeCall::Enable { capability: GL_DEPTH_TEST });
            self.depth_test_disabled = false;
        }
        proof {
            assert(self@ =~= (StateView {
                depth_test_disabled: false,
                calls: old(self)@.calls + spec_enable_calls(
                    old(self)@.depth_test_disabled,
                    GL_DEPTH_TEST,
                ),
                ..old(self)@
            }));
        }
    }

    /// Applies `depth_func` unconditionally, leaving the cached mode alone.
    #[verifier::rlimit(50)]
    pub fn set_depth_func_unchecked(&mut self, depth_func: Depth)
        ensures
            final(self)@ == (StateView {
                depth_test_disabled: depth_func == Depth::Off,
                calls: old(self)@.calls + spec_depth_calls(
                    old(self)@.depth_test_disabled,
                    depth_func,
                ),
                ..old(self)@
            }),
    {
        match depth_func {
            Depth::Never => {
                self.enable_depth_test();
                self.log(NativeCall::DepthFunc { func: GL_NEVER });
            },
            Depth::LessThan => {
                self.enable_depth_test();
                self.log(NativeCall::DepthFunc { func: GL_LESS });
            },
            Depth::Equal => {
                self.enable_depth_test();
                self.log(NativeCall::DepthFunc { func: GL_EQUAL });
            },
            Depth::LessThanOrEqual => {
                self.enable_depth_test();
                self.log(NativeCall::DepthFunc { func: GL_LEQUAL });
            },
            Depth::GreaterThan => {
                self.enable_depth_test();
                self.log(NativeCall::DepthFunc { func: GL_GREATER });
            },
            Depth::NotEqual => {
                self.enable_depth_test();
                self.log(NativeCall::DepthFunc { func: GL_NOTEQUAL });
            },
            Depth::GreaterThanOrEqual => {
                self.enable_depth_test();
                self.log(NativeCall::DepthFunc { func: GL_GEQUAL });
            },
            Depth::Always => {
                self.enable_depth_test();
                self.log(NativeCall::DepthFunc { func: GL_ALWAYS });
            },
            Depth::Off => {
                self.depth_test_disabled = true;
                self.log(NativeCall::Disable { capability: GL_DEPTH_TEST });
            },
        }
        proof {
            assert(self@ =~= (StateView {
                depth_test_disabled: depth_func == Depth::Off,
                calls: old(self)@.calls + spec_depth_calls(
                    old(self)@.depth_test_disabled,
                    depth_func,
                ),
                ..old(self)@
            }));
        }
    }

    /// Caches the depth function; applies it only on a cache miss.
    pub fn set_depth_func(&mut self, depth_func: Depth) -> (changed: bool)
        ensures
            changed == (old(self)@.depth_func != depth_func),
            changed ==> final(self)@ == (StateView {
                depth_func,
                depth_test_disabled: depth_func == Depth::Off,
                calls: old(self)@.calls + spec_depth_calls(
                    old(self)@.depth_test_disabled,
                    depth_func,
                ),
                ..old(self)@
            }),
            !changed ==> final(self)@ == old(self)@,
    {
        if self.depth_func != depth_func {
            self.depth_func = depth_func;
            self.set_depth_func_unchecked(depth_func);
            proof {
                assert(self@ =~= (StateView {
                    depth_func,
                    depth_test_disabled: depth_func == Depth::Off,
                    calls: old(self)@.calls + spec_depth_calls(
                        old(self)@.depth_test_disabled,
                        depth_func,
                    ),
                    ..old(self)@
                }));
            }
            true
        } else {
            false
        }
    }

    /// Enables the vertex-attribute slot `index`; the native call is issued
    /// only when the slot is tracked as disabled, or when forced.
    pub fn enable_attribute(&mut self, index: usize, force: bool) -> (changed: bool)
        requires
            index < old(self)@.enabled_attributes.len(),
        ensures
            (final(self)@, changed) == spec_enable_attribute(old(self)@, index, force),
            changed == (force || !old(self)@.enabled_attributes[index as int]),
    {
        if force || !self.enabled_attributes[index] {
            self.log(NativeCall::EnableVertexAttribArray { index: index as u32 });
            self.enabled_attributes[index] = true;
            proof {
                assert(self@ =~= (StateView {
                    enabled_attributes: old(self)@.enabled_attributes.update(index as int, true),
                    calls: old(self)@.calls.push(
                        NativeCall::EnableVertexAttribArray { index: index as u32 },
                    ),
                    ..old(self)@
                }));
            }
            true
        } else {
            false
        }
    }

    /// Disables the vertex-attribute slot `index`; the native call is
    /// issued only when the slot is tracked as enabled.
    pub fn disable_attribute(&mut self, index: usize) -> (changed: bool)
        requires
            index < old(self)@.enabled_attributes.len(),
        ensures
            changed == old(self)@.enabled_attributes[index as int],
            changed ==> final(self)@ == (StateView {
                enabled_attributes: old(self)@.enabled_attributes.update(index as int, false),
                calls: old(self)@.calls.push(
                    NativeCall::DisableVertexAttribArray { index: index as u32 },
                ),
                ..old(self)@
            }),
            !changed ==> final(self)@ == old(self)@,
    {
        if self.enabled_attributes[index] {
            self.log(NativeCall::DisableVertexAttribArray { index: index as u32 });
            self.enabled_attributes[index] = false;
            proof {
                assert(self@ =~= (StateView {
                    enabled_attributes: old(self)@.enabled_attributes.update(index as int, false),
                    calls: old(self)@.calls.push(
                        NativeCall::DisableVertexAttribArray { index: index as u32 },
                    ),
                    ..old(self)@
                }));
            }
            true
        } else {
            false
        }
    }

    /// Disables every enabled vertex-attribute slot, in slot order.
    fn disable_attributes(&mut self)
        ensures
            final(self)@ == (StateView {
                enabled_attributes: Seq::new(
                    old(self)@.enabled_attributes.len(),
                    |i: int| false,
                ),
                calls: old(self)@.calls + spec_disable_calls(old(self)@.enabled_attributes, 0),
                ..old(self)@
            }),
    {
        let ghost orig = old(self)@.enabled_attributes;
        let n = self.enabled_attributes.len();
        let mut index: usize = 0;
        while index < n
            invariant
                index <= n,
                n == orig.len(),
                self@.enabled_attributes.len() == n,
                forall|j: int| 0 <= j < index ==> !self@.enabled_attributes[j],
                forall|j: int| index <= j < n ==> self@.enabled_attributes[j] == orig[j],
                self@.calls + spec_disable_calls(orig, index as int) == old(self)@.calls
                    + spec_disable_calls(orig, 0),
                self@ == (StateView {
                    enabled_attributes: self@.enabled_attributes,
                    calls: self@.calls,
                    ..old(self)@
                }),
            decreases n - index,
        {
            if self.enabled_attributes[index] {
                self.log(NativeCall::DisableVertexAttribArray { index: index as u32 });
                self.enabled_attributes[index] = false;
                proof {
                    assert(spec_disable_calls(orig, index as int) == seq![
                        NativeCall::DisableVertexAttribArray { index: index as u32 },
                    ] + spec_disable_calls(orig, index + 1));
                    assert(self@.calls + spec_disable_calls(orig, index + 1) =~= old(self)@.calls
                        + spec_disable_calls(orig, 0));
                }
            } else {
                proof {
                    assert(spec_disable_calls(orig, index as int) == spec_disable_calls(
                        orig,
                        index + 1,
                    ));
                }
            }
            index = index + 1;
        }
        proof {
            assert(spec_disable_calls(orig, n as int) =~= Seq::<NativeCall>::empty());
            assert(self@.calls =~= old(self)@.calls + spec_disable_calls(orig, 0));
            assert(self@.enabled_attributes =~= Seq::new(orig.len(), |i: int| false));
            assert(self@ =~= (StateView {
                enabled_attributes: Seq::new(old(self)@.enabled_attributes.len(), |i: int| false),
                calls: old(self)@.calls + spec_disable_calls(old(self)@.enabled_attributes, 0),
                ..old(self)@
            }));
        }
    }

    /// The cached binding of one buffer target.
    fn buffer_slot(&self, target: BufferTarget) -> (r: u32)
        ensures
            r == bound_buffer(self@, target),
    {
        match target {
            BufferTarget::Array => self.bound_array_buffer,
            BufferTarget::AtomicCounter => self.bound_atomic_counter_buffer,
            BufferTarget::CopyRead => self.bound_copy_read_buffer,
            BufferTarget::CopyWrite => self.bound_copy_write_buffer,
            BufferTarget::DispatchIndirect => self.bound_dispatch_indirect_buffer,
            BufferTarget::DrawIndirect => self.bound_draw_indirect_buffer,
            BufferTarget::ElementArray => self.bound_element_array_buffer,
            BufferTarget::PixelPack => self.bound_pixel_pack_buffer,
            BufferTarget::PixelUnpack => self.bound_pixel_unpack_buffer,
            BufferTarget::Query => self.bound_query_buffer,
            BufferTarget::ShaderStorage => self.bound_shader_storage_buffer,
            BufferTarget::Texture => self.bound_texture_buffer,
            BufferTarget::TransformFeedback => self.bound_transform_feedback_buffer,
            BufferTarget::Uniform => self.bound_uniform_buffer,
        }
    }

    /// Replaces the cached binding of one buffer target.
    fn set_buffer_slot(&mut self, target: BufferTarget, id: u32)
        ensures
            final(self)@ == with_bound_buffer(old(self)@, target, id),
    {
        match target {
            BufferTarget::Array => {
                self.bound_array_buffer = id;
            },
            BufferTarget::AtomicCounter => {
                self.bound_atomic_counter_buffer = id;
            },
            BufferTarget::CopyRead => {
                self.bound_copy_read_buffer = id;
            },
            BufferTarget::CopyWrite => {
                self.bound_copy_write_buffer = id;
            },
            BufferTarget::DispatchIndirect => {
                self.bound_dispatch_indirect_buffer = id;
            },
            BufferTarget::DrawIndirect => {
                self.bound_draw_indirect_buffer = id;
            },
            BufferTarget::ElementArray => {
                self.bound_element_array_buffer = id;
            },
            BufferTarget::PixelPack => {
                self.bound_pixel_pack_buffer = id;
            },
            BufferTarget::PixelUnpack => {
                self.bound_pixel_unpack_buffer = id;
            },
            BufferTarget::Query => {
                self.bound_query_buffer = id;
            },
            BufferTarget::ShaderStorage => {
                self.bound_shader_storage_buffer = id;
            },
            BufferTarget::Texture => {
                self.bound_texture_buffer = id;
            },
            BufferTarget::TransformFeedback => {
                self.bound_transform_feedback_buffer = id;
            },
            BufferTarget::Uniform => {
                self.bound_uniform_buffer = id;
            },
        }
        proof {
            assert(self@ =~= with_bound_buffer(old(self)@, target, id));
        }
    }

    /// Binds `buffer` to its target if the target's slot does not already
    /// hold it, or when forced; every enabled attribute is disabled before
    /// the bind, so no attribute pointer outlives a buffer switch.
    pub fn set_buffer(&mut self, buffer: &Buffer, force: bool) -> (changed: bool)
        ensures
            (final(self)@, changed) == spec_set_buffer(old(self)@, buffer.id, buffer.kind, force),
            changed == (force || bound_buffer(old(self)@, buffer.kind) != buffer.id),
    {
        let id = buffer.id();
        let kind = buffer.kind();

        if force || self.buffer_slot(kind) != id {
            self.disable_attributes();
            let gl_kind = kind.to_gl();
            self.set_buffer_slot(kind, id);
            self.log(NativeCall::BindBuffer { target: gl_kind, id });
            self.current_buffer = id;
            self.current_buffer_kind = gl_kind;
            proof {
                assert(self@ =~= spec_set_buffer(old(self)@, buffer.id, buffer.kind, force).0);
            }
            true
        } else {
            false
        }
    }

    /// Unbinds whatever buffer is tracked as bound, if any, or when forced;
    /// attributes are disabled first, as for any buffer switch.
    pub fn remove_buffer(&mut self, force: bool) -> (changed: bool)
        ensures
            (final(self)@, changed) == spec_remove_buffer(old(self)@, force),
            changed == (force || old(self)@.current_buffer != 0),
    {
        if force || self.current_buffer != 0 {
            self.disable_attributes();
            let kind = self.current_buffer_kind;
            if let Some(target) = target_of_gl_exec(kind) {
                self.set_buffer_slot(target, 0);
            }
            self.log(NativeCall::BindBuffer { target: kind, id: 0u32 });
            self.current_buffer = 0;
            self.current_buffer_kind = 0;
            proof {
                assert(self@ =~= spec_remove_buffer(old(self)@, force).0);
            }
            true
        } else {
            false
        }
    }

    /// Re-enables the attribute slot `location` (issuing the enable call on
    /// a miss or when forced) and, exactly when that call was issued,
    /// configures its pointer into the currently bound buffer.
    pub fn set_attrib_pointer(
        &mut self,
        location: u32,
        item_size: u32,
        kind: u32,
        stride: usize,
        offset: usize,
        force: bool,
    ) -> (changed: bool)
        requires
            (location as int) < old(self)@.enabled_attributes.len(),
        ensures
            (final(self)@, changed) == spec_set_attrib_pointer(
                old(self)@,
                location,
                item_size,
                kind,
                stride,
                offset,
                force,
            ),
            changed == (force || !old(self)@.enabled_attributes[location as int]),
    {
        if self.enable_attribute(location as usize, force) {
            self.log(
                NativeCall::VertexAttribPointer { location, item_size, kind, stride, offset },
            );
            proof {
                assert(self@ =~= spec_set_attrib_pointer(
                    old(self)@,
                    location,
                    item_size,
                    kind,
                    stride,
                    offset,
                    force,
                ).0);
            }
            true
        } else {
            false
        }
    }

    /// Binds `vertex_array` if it is not the tracked current one, or when
    /// forced.
    pub fn set_vertex_array(&mut self, vertex_array: &VertexArray, force: bool) -> (changed: bool)
        ensures
            changed == (force || old(self)@.current_vertex_array != vertex_array.id),
            changed ==> final(self)@ == (StateView {
                current_vertex_array: vertex_array.id,
                calls: old(self)@.calls.push(NativeCall::BindVertexArray { id: vertex_array.id }),
                ..old(self)@
            }),
            !changed ==> final(self)@ == old(self)@,
    {
        let id = vertex_array.id();
        if force || self.current_vertex_array != id {
            self.log(NativeCall::BindVertexArray { id });
            self.current_vertex_array = id;
            proof {
                assert(self@ =~= (StateView {
                    current_vertex_array: vertex_array.id,
                    calls: old(self)@.calls.push(
                        NativeCall::BindVertexArray { id: vertex_array.id },
                    ),
                    ..old(self)@
                }));
            }
            true
        } else {
            false
        }
    }

    /// Unbinds the tracked vertex array, if any, or when forced.
    pub fn remove_vertex_array(&mut self, force: bool) -> (changed: bool)
        ensures
            changed == (force || old(self)@.current_vertex_array != 0),
            changed ==> final(self)@ == (StateView {
                current_vertex_array: 0u32,
                calls: old(self)@.calls.push(NativeCall::BindVertexArray { id: 0u32 }),
                ..old(self)@
            }),
            !changed ==> final(self)@ == old(self)@,
    {
        if force || self.current_vertex_array != 0 {
            self.log(NativeCall::BindVertexArray { id: 0u32 });
            self.current_vertex_array = 0;
            proof {
                assert(self@ =~= (StateView {
                    current_vertex_array: 0u32,
                    calls: old(self)@.calls.push(NativeCall::BindVertexArray { id: 0u32 }),
                    ..old(self)@
                }));
            }
            true
        } else {
            false
        }
    }

    /// Binds `framebuffer` if it is not the tracked current one, or when
    /// forced.  A switch of render target resets the viewport and
    /// clear-color tracking, which the backend scopes per target.
    pub fn set_framebuffer(&mut self, framebuffer: &Framebuffer, force: bool) -> (changed: bool)
        ensures
            changed == (force || old(self)@.current_framebuffer != framebuffer.id),
            changed ==> final(self)@ == (StateView {
                current_framebuffer: framebuffer.id,
                clear_color: seq![0u32, 0u32, 0u32, F32_ONE_BITS],
                viewport_x: 0usize,
                viewport_y: 0usize,
                viewport_width: 1usize,
                viewport_height: 1usize,
                calls: old(self)@.calls.push(
                    NativeCall::BindFramebuffer { id: framebuffer.id },
                ),
                ..old(self)@
            }),
            !changed ==> final(self)@ == old(self)@,
    {
        let id = framebuffer.id();
        if force || self.current_framebuffer != id {
            self.log(NativeCall::BindFramebuffer { id });
            self.current_framebuffer = id;
            self.soft_reset();
            proof {
                assert(self@ =~= (StateView {
                    current_framebuffer: framebuffer.id,
                    clear_color: seq![0u32, 0u32, 0u32, F32_ONE_BITS],
                    viewport_x: 0usize,
                    viewport_y: 0usize,
                    viewport_width: 1usize,
                    viewport_height: 1usize,
                    calls: old(self)@.calls.push(
                        NativeCall::BindFramebuffer { id: framebuffer.id },
                    ),
                    ..old(self)@
                }));
            }
            true
        } else {
            false
        }
    }

    /// Unbinds the tracked framebuffer, if any, or when forced, restoring
    /// the default render target; viewport and clear-color tracking reset.
    pub fn remove_framebuffer(&mut self, force: bool) -> (changed: bool)
        ensures
            changed == (force || old(self)@.current_framebuffer != 0),
            changed ==> final(self)@ == (StateView {
                current_framebuffer: 0u32,
                clear_color: seq![0u32, 0u32, 0u32, F32_ONE_BITS],
                viewport_x: 0usize,
                viewport_y: 0usize,
                viewport_width: 1usize,
                viewport_height: 1usize,
                calls: old(self)@.calls.push(NativeCall::BindFramebuffer { id: 0u32 }),
                ..old(self)@
            }),
            !changed ==> final(self)@ == old(self)@,
    {
        if force || self.current_framebuffer != 0 {
            self.log(NativeCall::BindFramebuffer { id: 0u32 });
            self.current_framebuffer = 0;
            self.soft_reset();
            proof {
                assert(self@ =~= (StateView {
                    current_framebuffer: 0u32,
                    clear_color: seq![0u32, 0u32, 0u32, F32_ONE_BITS],
                    viewport_x: 0usize,
                    viewport_y: 0usize,
                    viewport_width: 1usize,
                    viewport_height: 1usize,
                    calls: old(self)@.calls.push(NativeCall::BindFramebuffer { id: 0u32 }),
                    ..old(self)@
                }));
            }
            true
        } else {
            false
        }
    }

    /// Binds `renderbuffer` if it is not the tracked current one, or when
    /// forced.
    pub fn set_renderbuffer(&mut self, renderbuffer: &Renderbuffer, force: bool) -> (changed:
        bool)
        ensures
            changed == (force || old(self)@.current_renderbuffer != renderbuffer.id),
            changed ==> final(self)@ == (StateView {
                current_renderbuffer: renderbuffer.id,
                calls: old(self)@.calls.push(
                    NativeCall::BindRenderbuffer { id: renderbuffer.id },
                ),
                ..old(self)@
            }),
            !changed ==> final(self)@ == old(self)@,
    {
        let id = renderbuffer.id();
        if force || self.current_renderbuffer != id {
            self.log(NativeCall::BindRenderbuffer { id });
            self.current_renderbuffer = id;
            proof {
                assert(self@ =~= (StateView {
                    current_renderbuffer: renderbuffer.id,
                    calls: old(self)@.calls.push(
                        NativeCall::BindRenderbuffer { id: renderbuffer.id },
                    ),
                    ..old(self)@
                }));
            }
            true
        } else {
            false
        }
    }

    /// Unbinds the tracked renderbuffer, if any, or when forced.
    pub fn remove_renderbuffer(&mut self, force: bool) -> (changed: bool)
        ensures
            changed == (force || old(self)@.current_renderbuffer != 0),
            changed ==> final(self)@ == (StateView {
                current_renderbuffer: 0u32,
                calls: old(self)@.calls.push(NativeCall::BindRenderbuffer { id: 0u32 }),
                ..old(self)@
            }),
            !changed ==> final(self)@ == old(self)@,
    {
        if force || self.current_renderbuffer != 0 {
            self.log(NativeCall::BindRenderbuffer { id: 0u32 });
            self.current_renderbuffer = 0;
            proof {
                assert(self@ =~= (StateView {
                    current_renderbuffer: 0u32,
                    calls: old(self)@.calls.push(NativeCall::BindRenderbuffer { id: 0u32 }),
                    ..old(self)@
                }));
            }
            true
        } else {
            false
        }
    }
}

/// The buffer target whose native constant is `kind`, if any.
fn target_of_gl_exec(kind: u32) -> (r: Option<BufferTarget>)
    ensures
        r == target_of_gl(kind),
{
    if kind == GL_ARRAY_BUFFER {
        Some(BufferTarget::Array)
    } else if kind == GL_ATOMIC_COUNTER_BUFFER {
        Some(BufferTarget::AtomicCounter)
    } else if kind == GL_COPY_READ_BUFFER {
        Some(BufferTarget::CopyRead)
    } else if kind == GL_COPY_WRITE_BUFFER {
        Some(BufferTarget::CopyWrite)
    } else if kind == GL_DISPATCH_INDIRECT_BUFFER {
        Some(BufferTarget::DispatchIndirect)
    } else if kind == GL_DRAW_INDIRECT_BUFFER {
        Some(BufferTarget::DrawIndirect)
    } else if kind == GL_ELEMENT_ARRAY_BUFFER {
        Some(BufferTarget::ElementArray)
    } else if kind == GL_PIXEL_PACK_BUFFER {
        Some(BufferTarget::PixelPack)
    } else if kind == GL_PIXEL_UNPACK_BUFFER {
        Some(BufferTarget::PixelUnpack)
    } else if kind == GL_QUERY_BUFFER {
        Some(BufferTarget::Query)
    } else if kind == GL_SHADER_STORAGE_BUFFER {
        Some(BufferTarget::ShaderStorage)
    } else if kind == GL_TEXTURE_BUFFER {
        Some(BufferTarget::Texture)
    } else if kind == GL_TRANSFORM_FEEDBACK_BUFFER {
        Some(BufferTarget::TransformFeedback)
    } else if kind == GL_UNIFORM_BUFFER {
        Some(BufferTarget::Uniform)
    } else {
        None
    }
}


/// The texture unit a sampler location was last declared with: the value of
/// the first table entry bearing `location`, if any.
pub open spec fn sampler_lookup(units: Seq<(i32, u32)>, location: i32) -> Option<u32>
    decreases units.len(),
{
    if units.len() == 0 {
        None
    } else if units[0].0 == location {
        Some(units[0].1)
    } else {
        sampler_lookup(units.drop_first(), location)
    }
}

/// The sampler table with `location` now bound to `unit`: the first entry
/// bearing `location` is replaced, or a new entry appended.
pub open spec fn sampler_record(units: Seq<(i32, u32)>, location: i32, unit: u32) -> Seq<
    (i32, u32),
>
    decreases units.len(),
{
    if units.len() == 0 {
        seq![(location, unit)]
    } else if units[0].0 == location {
        seq![(location, unit)] + units.drop_first()
    } else {
        seq![units[0]] + sampler_record(units.drop_first(), location, unit)
    }
}

/// Looking up a location resolves to its first table entry, and recording
/// over it updates that entry in place.
proof fn lemma_sampler_found(units: Seq<(i32, u32)>, location: i32, unit: u32, i: int)
    requires
        0 <= i < units.len(),
        units[i].0 == location,
        forall|j: int| 0 <= j < i ==> units[j].0 != location,
    ensures
        sampler_lookup(units, location) == Some(units[i].1),
        sampler_record(units, location, unit) == units.update(i, (location, unit)),
    decreases i,
{
    if i == 0 {
        assert(sampler_record(units, location, unit) =~= units.update(0, (location, unit)));
    } else {
        let rest = units.drop_first();
        assert(forall|j: int| 0 <= j < i - 1 ==> rest[j].0 != location);
        lemma_sampler_found(rest, location, unit, i - 1);
        assert(sampler_record(units, location, unit) =~= units.update(i, (location, unit)));
    }
}

/// Looking up a location absent from the table yields nothing, and
/// recording it appends a new entry.
proof fn lemma_sampler_absent(units: Seq<(i32, u32)>, location: i32, unit: u32)
    requires
        forall|j: int| 0 <= j < units.len() ==> units[j].0 != location,
    ensures
        sampler_lookup(units, location) is None,
        sampler_record(units, location, unit) == units.push((location, unit)),
    decreases units.len(),
{
    if units.len() > 0 {
        let rest = units.drop_first();
        assert(forall|j: int| 0 <= j < rest.len() ==> rest[j].0 != location);
        lemma_sampler_absent(rest, location, unit);
        assert(sampler_record(units, location, unit) =~= units.push((location, unit)));
    } else {
        assert(sampler_record(units, location, unit) =~= units.push((location, unit)));
    }
}

/// The transition of [`Context::set_texture`]: the next sequential texture
/// unit is granted.  The unit is made active only when it differs from the
/// tracked active unit (or when forced) — a texture bind is relative to
/// the active unit, so the switch must be issued whenever the granted unit
/// is not already the active one.  The sampler-uniform call is issued only
/// when forced or when the table does not already bind this location to
/// this unit.  The texture itself is always bound, on the granted unit.
pub open spec fn spec_set_texture(pre: StateView, location: i32, id: u32, force: bool) -> StateView {
    let unit = pre.texture_index;
    let activated = if force || pre.active_texture_unit != unit {
        StateView {
            active_texture_unit: unit,
            calls: pre.calls.push(NativeCall::ActiveTexture { unit: (GL_TEXTURE0 + unit) as u32 }),
            ..pre
        }
    } else {
        pre
    };
    let declared = if force || sampler_lookup(pre.sampler_units, location) != Some(unit) {
        StateView {
            sampler_units: sampler_record(pre.sampler_units, location, unit),
            calls: activated.calls.push(NativeCall::Uniform1i { location, value: unit as i32 }),
            ..activated
        }
    } else {
        activated
    };
    StateView {
        texture_index: (unit + 1) as u32,
        current_texture_index: unit as i32,
        current_texture: id,
        calls: declared.calls.push(NativeCall::BindTexture { target: GL_TEXTURE_2D, id }),
        ..declared
    }
}

/// The transition of [`Context::set_program`] and
/// [`Context::remove_program`] (the latter with `id` zero): a switch binds
/// the program, marks every sampler declaration stale and clears the
/// table, and reports a change; re-binding the current program is a no-op
/// — no native call, reported `false` — that still does the same
/// bookkeeping when texture units were in use since the last bind (a
/// nonzero cursor, or a unit granted and not yet retired).  Either way the
/// texture unit cursor restarts at zero.
pub open spec fn spec_set_program(pre: StateView, id: u32, force: bool) -> (StateView, bool) {
    let changed = force || pre.current_program != id;
    let s = if changed {
        StateView {
            current_program: id,
            force: true,
            sampler_units: Seq::empty(),
            calls: pre.calls.push(NativeCall::UseProgram { id }),
            ..pre
        }
    } else if pre.texture_index != 0 || pre.current_texture_index != -1 {
        StateView { force: true, sampler_units: Seq::empty(), ..pre }
    } else {
        StateView { force: false, ..pre }
    };
    (StateView { texture_index: 0u32, current_texture_index: -1i32, ..s }, changed)
}

impl Context {
    /// Whether the sampler table binds `location` to exactly `unit`.
    fn sampler_is(&self, location: i32, unit: u32) -> (r: bool)
        ensures
            r == (sampler_lookup(self@.sampler_units, location) == Some(unit)),
    {
        let n = self.sampler_units.len();
        let mut i: usize = 0;
        while i < n
            invariant
                i <= n,
                n == self.sampler_units@.len(),
                forall|j: int| 0 <= j < i ==> self.sampler_units@[j].0 != location,
            decreases n - i,
        {
            let entry = self.sampler_units[i];
            if entry.0 == location {
                proof {
                    lemma_sampler_found(self@.sampler_units, location, entry.1, i as int);
                }
                return entry.1 == unit;
            }
            i = i + 1;
        }
        proof {
            lemma_sampler_absent(self@.sampler_units, location, unit);
        }
        false
    }

    /// Records that `location` was declared with `unit`.
    fn sampler_set(&mut self, location: i32, unit: u32)
        ensures
            final(self)@ == (StateView {
                sampler_units: sampler_record(old(self)@.sampler_units, location, unit),
                ..old(self)@
            }),
    {
        let n = self.sampler_units.len();
        let mut i: usize = 0;
        while i < n
            invariant
                i <= n,
                n == self.sampler_units@.len(),
                self@ == old(self)@,
                forall|j: int| 0 <= j < i ==> self.sampler_units@[j].0 != location,
            decreases n - i,
        {
            if self.sampler_units[i].0 == location {
                proof {
                    lemma_sampler_found(self@.sampler_units, location, unit, i as int);
                }
                self.sampler_units[i] = (location, unit);
                proof {
                    assert(self@ =~= (StateView {
                        sampler_units: sampler_record(old(self)@.sampler_units, location, unit),
                        ..old(self)@
                    }));
                }
                return ;
            }
            i = i + 1;
        }
        proof {
            lemma_sampler_absent(self@.sampler_units, location, unit);
        }
        self.sampler_units.push((location, unit));
        proof {
            assert(self@ =~= (StateView {
                sampler_units: sampler_record(old(self)@.sampler_units, location, unit),
                ..old(self)@
            }));
        }
    }

    /// The texture-unit logic shared by [`Context::set_texture`] and the
    /// sampler setters: grants the next unit, makes it active only when it
    /// is not already, re-declares the sampler only when its unit
    /// assignment is not already current, and binds the texture.
    #[verifier::rlimit(100)]
    pub(crate) fn set_texture_unit(&mut self, location: i32, id: u32, force: bool) -> (changed:
        bool)
        requires
            old(self)@.texture_index < 0x7FFF_0000,
        ensures
            changed,
            final(self)@ == spec_set_texture(old(self)@, location, id, force),
    {
        let unit = self.texture_index;
        if force || self.active_texture_unit != unit {
            self.log(NativeCall::ActiveTexture { unit: GL_TEXTURE0 + unit });
            self.active_texture_unit = unit;
        }
        if force || !self.sampler_is(location, unit) {
            self.log(NativeCall::Uniform1i { location, value: unit as i32 });
            self.sampler_set(location, unit);
        }
        self.log(NativeCall::BindTexture { target: GL_TEXTURE_2D, id });
        self.texture_index = unit + 1;
        self.current_texture_index = unit as i32;
        self.current_texture = id;
        proof {
            assert(self@ =~= spec_set_texture(old(self)@, location, id, force));
        }
        true
    }

    /// Binds `texture` to the next sequential texture unit — switching the
    /// active unit if it is not already the granted one — and declares the
    /// unit to the sampler uniform at `location` unless the declaration is
    /// already current.  The bind itself is always issued: a unit switch
    /// changes which binding point is active, so the single tracked
    /// texture id is no proof the bind would be redundant.
    pub fn set_texture(&mut self, location: i32, texture: &Texture, force: bool) -> (changed:
        bool)
        requires
            old(self)@.texture_index < 0x7FFF_0000,
        ensures
            changed,
            final(self)@ == spec_set_texture(old(self)@, location, texture.id, force),
    {
        self.set_texture_unit(location, texture.id(), force)
    }

    /// Unbinds the tracked texture, if any, or when forced, and restarts
    /// the unit cursor.  The unbind is issued on unit zero, returning
    /// there first when some other unit is active — a bare bind would
    /// otherwise land on whatever unit the last texture bind activated.
    pub fn remove_texture(&mut self, force: bool) -> (changed: bool)
        ensures
            changed == (force || old(self)@.current_texture != 0),
            changed ==> final(self)@ == (StateView {
                texture_index: 0u32,
                current_texture_index: -1i32,
                current_texture: 0u32,
                active_texture_unit: 0u32,
                calls: old(self)@.calls + (if old(self)@.active_texture_unit != 0 {
                    seq![NativeCall::ActiveTexture { unit: GL_TEXTURE0 }]
                } else {
                    Seq::empty()
                }) + seq![NativeCall::BindTexture { target: GL_TEXTURE_2D, id: 0u32 }],
                ..old(self)@
            }),
            !changed ==> final(self)@ == old(self)@,
    {
        if force || self.current_texture != 0 {
            if self.active_texture_unit != 0 {
                self.log(NativeCall::ActiveTexture { unit: GL_TEXTURE0 });
                self.active_texture_unit = 0;
            }
            self.texture_index = 0;
            self.current_texture_index = -1;
            self.current_texture = 0;
            self.log(NativeCall::BindTexture { target: GL_TEXTURE_2D, id: 0u32 });
            proof {
                assert(self@ =~= (StateView {
                    texture_index: 0u32,
                    current_texture_index: -1i32,
                    current_texture: 0u32,
                    active_texture_unit: 0u32,
                    calls: old(self)@.calls + (if old(self)@.active_texture_unit != 0 {
                        seq![NativeCall::ActiveTexture { unit: GL_TEXTURE0 }]
                    } else {
                        Seq::<NativeCall>::empty()
                    }) + seq![NativeCall::BindTexture { target: GL_TEXTURE_2D, id: 0u32 }],
                    ..old(self)@
                }));
            }
            true
        } else {
            false
        }
    }

    /// Issues a non-indexed draw.  Draws are never cached; the texture unit
    /// cursor restarts, so the next frame's texture binds reuse the same
    /// units.
    pub fn draw_arrays(&mut self, mode: DrawMode, first: usize, count: usize)
        ensures
            final(self)@ == (StateView {
                texture_index: 0u32,
                calls: old(self)@.calls.push(
                    NativeCall::DrawArrays { mode: mode.spec_gl(), first, count },
                ),
                ..old(self)@
            }),
    {
        let gl_mode = mode.to_gl();
        self.log(NativeCall::DrawArrays { mode: gl_mode, first, count });
        self.texture_index = 0;
        proof {
            assert(self@ =~= (StateView {
                texture_index: 0u32,
                calls: old(self)@.calls.push(
                    NativeCall::DrawArrays { mode: mode.spec_gl(), first, count },
                ),
                ..old(self)@
            }));
        }
    }

    /// Issues an indexed draw reading `count` indices of `kind` starting
    /// `offset` bytes into the bound element buffer.  Never cached; the
    /// texture unit cursor restarts.
    pub fn draw_elements(&mut self, mode: DrawMode, count: usize, kind: IndexKind, offset: usize)
        ensures
            final(self)@ == (StateView {
                texture_index: 0u32,
                calls: old(self)@.calls.push(
                    NativeCall::DrawElements {
                        mode: mode.spec_gl(),
                        count,
                        kind: kind.spec_gl(),
                        offset,
                    },
                ),
                ..old(self)@
            }),
    {
        let gl_mode = mode.to_gl();
        let gl_kind = kind.to_gl();
        self.log(NativeCall::DrawElements { mode: gl_mode, count, kind: gl_kind, offset });
        self.texture_index = 0;
        proof {
            assert(self@ =~= (StateView {
                texture_index: 0u32,
                calls: old(self)@.calls.push(
                    NativeCall::DrawElements {
                        mode: mode.spec_gl(),
                        count,
                        kind: kind.spec_gl(),
                        offset,
                    },
                ),
                ..old(self)@
            }));
        }
    }

    /// Whether the device advertises the extension named `string`.
    pub fn has_extenstion(&self, string: &str) -> (r: bool)
        ensures
            r == self@.extenstions.contains(string@),
    {
        let n = self.extenstions.len();
        let mut i: usize = 0;
        while i < n
            invariant
                i <= n,
                n == self.extenstions@.len(),
                forall|j: int| 0 <= j < i ==> self@.extenstions[j] != string@,
            decreases n - i,
        {
            if str_eq(string, self.extenstions[i].as_str()) {
                proof {
                    assert(self@.extenstions[i as int] == string@);
                }
                return true;
            }
            i = i + 1;
        }
        false
    }
}


/// The context version the cache adopts: when the version string carries a
/// `major.minor` pair with major above two (or carries none, which is read
/// as a modern context), the integer-queried version is used; otherwise the
/// context is taken as version 2.0.
pub open spec fn spec_context_version(
    version: Seq<char>,
    queried_major: usize,
    queried_minor: usize,
) -> (usize, usize) {
    let parsed_major = match spec_parse_version(version, 0) {
        Some(pair) => pair.0,
        None => 3u32,
    };
    if parsed_major > 2 {
        (queried_major, queried_minor)
    } else {
        (2usize, 0usize)
    }
}

/// The extension list the cache adopts: modern contexts report one name per
/// indexed query; version-2 contexts report a single whitespace-separated
/// string.
pub open spec fn spec_device_extenstions(info: DeviceInfo, major: usize) -> Seq<Seq<char>> {
    if major > 2 {
        info.extension_list.deep_view()
    } else {
        spec_split_words(info.extension_blob@, 0)
    }
}

/// The native commands a reset issues, in order: orientation and unpack
/// defaults, then every piece of default render state applied
/// unconditionally, then a full clear.
pub open spec fn spec_reset_calls() -> Seq<NativeCall> {
    seq![
        NativeCall::FrontFace { mode: GL_CCW },
        NativeCall::PixelStorei { pname: GL_UNPACK_ALIGNMENT, param: 1u32 },
        NativeCall::Viewport { x: 0usize, y: 0usize, width: 1usize, height: 1usize },
        NativeCall::ClearDepth { depth_bits: F64_ONE_BITS },
        NativeCall::ClearStencil { stencil: 0isize },
        NativeCall::DepthMask { flag: true },
        NativeCall::DepthRange { near_bits: 0u64, far_bits: F64_ONE_BITS },
        NativeCall::LineWidth { width_bits: F32_ONE_BITS },
        NativeCall::Enable { capability: GL_BLEND },
        NativeCall::BlendEquationSeparate { mode_rgb: GL_FUNC_ADD, mode_alpha: GL_FUNC_ADD },
        NativeCall::BlendFuncSeparate {
            src_rgb: GL_SRC_ALPHA,
            dst_rgb: GL_ONE_MINUS_SRC_ALPHA,
            src_alpha: GL_ONE,
            dst_alpha: GL_ONE_MINUS_SRC_ALPHA,
        },
        NativeCall::Enable { capability: GL_CULL_FACE },
        NativeCall::CullFace { mode: GL_BACK },
        NativeCall::Enable { capability: GL_DEPTH_TEST },
        NativeCall::DepthFunc { func: GL_LESS },
        NativeCall::ClearColor {
            red_bits: 0u32,
            green_bits: 0u32,
            blue_bits: 0u32,
            alpha_bits: F32_ONE_BITS,
        },
        NativeCall::Clear {
            mask: GL_COLOR_BUFFER_BIT | GL_DEPTH_BUFFER_BIT | GL_STENCIL_BUFFER_BIT,
        },
    ]
}

/// The state after a reset against `info`: every cached binding back to its
/// initial value, the capability snapshot recomputed from `info`, default
/// render state applied (so the lazily enabled capabilities are all on),
/// and the reset commands appended to the log.
pub open spec fn spec_reset_state(pre: StateView, info: DeviceInfo) -> StateView {
    let version = spec_context_version(info.version@, info.queried_major, info.queried_minor);
    let glsl = spec_glsl_version(version.0, version.1);
    StateView {
        version: info.version@,
        major: version.0,
        minor: version.1,
        glsl_major: glsl.0,
        glsl_minor: glsl.1,
        extenstions: spec_device_extenstions(info, version.0),
        clear_color: seq![0u32, 0u32, 0u32, F32_ONE_BITS],
        max_anisotropy: 0usize,
        max_textures: info.max_textures,
        max_vertex_textures: info.max_vertex_textures,
        max_texture_size: info.max_texture_size,
        max_cube_texture_size: info.max_cube_texture_size,
        max_render_buffer_size: info.max_render_buffer_size,
        max_uniforms: (4 * (if info.vs_max_uniforms < info.fs_max_uniforms {
            info.vs_max_uniforms
        } else {
            info.fs_max_uniforms
        })) as usize,
        max_varyings: (4 * info.max_varyings) as usize,
        max_attributes: info.max_attributes,
        precision: spec_precision(
            info.vs_high_float_precision,
            info.fs_high_float_precision,
            info.vs_mediump_float_precision,
            info.fs_mediump_float_precision,
        ),
        enabled_attributes: Seq::new(info.max_attributes as nat, |i: int| false),
        viewport_x: 0usize,
        viewport_y: 0usize,
        viewport_width: 1usize,
        viewport_height: 1usize,
        blending: Blending::Default,
        cull_face: CullFace::Back,
        depth_func: Depth::LessThan,
        blending_disabled: false,
        cull_face_disabled: false,
        depth_test_disabled: false,
        clear_depth: F64_ONE_BITS,
        clear_stencil: 0isize,
        depth_write: true,
        depth_range_near: 0u64,
        depth_range_far: F64_ONE_BITS,
        line_width: F32_ONE_BITS,
        current_buffer: 0u32,
        current_buffer_kind: 0u32,
        current_vertex_array: 0u32,
        current_framebuffer: 0u32,
        current_renderbuffer: 0u32,
        current_program: 0u32,
        force: false,
        texture_index: 0u32,
        current_texture_index: -1i32,
        current_texture: 0u32,
        active_texture_unit: 0u32,
        bound_array_buffer: 0u32,
        bound_atomic_counter_buffer: 0u32,
        bound_copy_read_buffer: 0u32,
        bound_copy_write_buffer: 0u32,
        bound_dispatch_indirect_buffer: 0u32,
        bound_draw_indirect_buffer: 0u32,
        bound_element_array_buffer: 0u32,
        bound_pixel_pack_buffer: 0u32,
        bound_pixel_unpack_buffer: 0u32,
        bound_query_buffer: 0u32,
        bound_shader_storage_buffer: 0u32,
        bound_texture_buffer: 0u32,
        bound_transform_feedback_buffer: 0u32,
        bound_uniform_buffer: 0u32,
        sampler_units: Seq::empty(),
        calls: pre.calls + spec_reset_calls(),
    }
}

impl Context {
    /// Rebuilds the whole capability snapshot from `info`, forgets every
    /// cached binding, and re-applies the default render state to the
    /// backend — the recovery path after context loss, and the second half
    /// of initialisation.
    #[verifier::rlimit(100)]
    pub fn reset(&mut self, info: &DeviceInfo)
        requires
            info.vs_max_uniforms <= usize::MAX / 4,
            info.fs_max_uniforms <= usize::MAX / 4,
            info.max_varyings <= usize::MAX / 4,
        ensures
            final(self)@ == spec_reset_state(old(self)@, *info),
    {
        self.version = info.version.clone();

        let parsed = parse_version_pair(info.version.as_str());
        let parsed_major: u32 = match parsed {
            Some(pair) => pair.0,
            None => 3,
        };
        if parsed_major > 2 {
            self.major = info.queried_major;
            self.minor = info.queried_minor;
        } else {
            self.major = 2;
            self.minor = 0;
        }
        let glsl = glsl_version(self.major, self.minor);
        self.glsl_major = glsl.0;
        self.glsl_minor = glsl.1;

        if self.major > 2 {
            let mut list: Vec<String> = Vec::new();
            let mut i: usize = 0;
            while i < info.extension_list.len()
                invariant
                    i <= info.extension_list@.len(),
                    list@ =~= info.extension_list@.take(i as int),
                decreases info.extension_list@.len() - i,
            {
                list.push(info.extension_list[i].clone());
                proof {
                    assert(list@ =~= info.extension_list@.take(i + 1));
                }
                i = i + 1;
            }
            proof {
                assert(info.extension_list@.take(info.extension_list@.len() as int)
                    =~= info.extension_list@);
                assert(list.deep_view() =~= info.extension_list.deep_view());
            }
            self.extenstions = list;
        } else {
            self.extenstions = split_words(info.extension_blob.as_str());
        }

        self.clear_color = [0u32, 0u32, 0u32, F32_ONE_BITS];
        self.max_anisotropy = 0;
        self.max_textures = info.max_textures;
        self.max_vertex_textures = info.max_vertex_textures;
        self.max_texture_size = info.max_texture_size;
        self.max_cube_texture_size = info.max_cube_texture_size;
        self.max_render_buffer_size = info.max_render_buffer_size;
        self.max_uniforms = 4 * (if info.vs_max_uniforms < info.fs_max_uniforms {
            info.vs_max_uniforms
        } else {
            info.fs_max_uniforms
        });
        self.max_varyings = 4 * info.max_varyings;
        self.max_attributes = info.max_attributes;
        self.precision = if info.vs_high_float_precision > 0 && info.fs_high_float_precision
            > 0 {
            Precision::High
        } else if info.vs_mediump_float_precision > 0 && info.fs_mediump_float_precision > 0 {
            Precision::Medium
        } else {
            Precision::Low
        };

        let mut attrs: Vec<bool> = Vec::new();
        let mut k: usize = 0;
        while k < info.max_attributes
            invariant
                k <= info.max_attributes,
                attrs@.len() == k,
                forall|j: int| 0 <= j < k ==> !attrs@[j],
            decreases info.max_attributes - k,
        {
            attrs.push(false);
            k = k + 1;
        }
        proof {
            assert(attrs@ =~= Seq::new(info.max_attributes as nat, |i: int| false));
        }
        self.enabled_attributes = attrs;

        self.viewport_x = 0;
        self.viewport_y = 0;
        self.viewport_width = 1;
        self.viewport_height = 1;
        self.blending = Blending::Default;
        self.cull_face = CullFace::Back;
        self.depth_func = Depth::LessThan;
        self.blending_disabled = true;
        self.cull_face_disabled = true;
        self.depth_test_disabled = true;
        self.clear_depth = F64_ONE_BITS;
        self.clear_stencil = 0;
        self.depth_write = true;
        self.depth_range_near = 0;
        self.depth_range_far = F64_ONE_BITS;
        self.line_width = F32_ONE_BITS;
        self.current_buffer = 0;
        self.current_buffer_kind = 0;
        self.current_vertex_array = 0;
        self.current_framebuffer = 0;
        self.current_renderbuffer = 0;
        self.current_program = 0;
        self.force = false;
        self.texture_index = 0;
        self.current_texture_index = -1;
        self.current_texture = 0;
        self.active_texture_unit = 0;
        self.bound_array_buffer = 0;
        self.bound_atomic_counter_buffer = 0;
        self.bound_copy_read_buffer = 0;
        self.bound_copy_write_buffer = 0;
        self.bound_dispatch_indirect_buffer = 0;
        self.bound_draw_indirect_buffer = 0;
        self.bound_element_array_buffer = 0;
        self.bound_pixel_pack_buffer = 0;
        self.bound_pixel_unpack_buffer = 0;
        self.bound_query_buffer = 0;
        self.bound_shader_storage_buffer = 0;
        self.bound_texture_buffer = 0;
        self.bound_transform_feedback_buffer = 0;
        self.bound_uniform_buffer = 0;
        self.sampler_units = Vec::new();

        self.log(NativeCall::FrontFace { mode: GL_CCW });
        self.log(NativeCall::PixelStorei { pname: GL_UNPACK_ALIGNMENT, param: 1u32 });
        self.set_viewport_unchecked(0, 0, 1, 1);
        self.set_clear_depth_unchecked(F64_ONE_BITS);
        self.set_clear_stencil_unchecked(0);
        self.set_depth_write_unchecked(true);
        self.set_depth_range_unchecked(0, F64_ONE_BITS);
        self.set_line_width_unchecked(F32_ONE_BITS);
        self.set_blending_unchecked(Blending::Default);
        self.set_cull_face_unchecked(CullFace::Back);
        self.set_depth_func_unchecked(Depth::LessThan);
        self.set_clear_color_unchecked(&[0u32, 0u32, 0u32, F32_ONE_BITS]);
        self.clear(true, true, true);

        proof {
            assert(self@.calls =~= old(self)@.calls + spec_reset_calls());
            assert(self@ =~= spec_reset_state(old(self)@, *info));
        }
    }

    /// Initialises the cache against a fresh native context: the same work
    /// as [`Context::reset`].
    pub fn init(&mut self, info: &DeviceInfo)
        requires
            info.vs_max_uniforms <= usize::MAX / 4,
            info.fs_max_uniforms <= usize::MAX / 4,
            info.max_varyings <= usize::MAX / 4,
        ensures
            final(self)@ == spec_reset_state(old(self)@, *info),
    {
        self.reset(info);
    }

    /// A handle for the freshly allocated buffer id `id`.
    pub fn new_buffer(&self, id: u32) -> (r: Buffer)
        ensures
            r.id == id,
            r.stride == 0,
            r.size == 0,
            r.kind_size == 0,
            r.length == 0,
    {
        Buffer::new(id)
    }

    /// A handle for the freshly allocated framebuffer id `id`.
    pub fn new_framebuffer(&self, id: u32) -> (r: Framebuffer)
        ensures
            r.id == id,
    {
        Framebuffer::new(id)
    }

    /// A handle for the freshly allocated renderbuffer id `id`.
    pub fn new_renderbuffer(&self, id: u32) -> (r: Renderbuffer)
        ensures
            r.id == id,
    {
        Renderbuffer::new(id)
    }

    /// A handle for the freshly allocated texture id `id`.
    pub fn new_texture(&self, id: u32) -> (r: Texture)
        ensures
            r.id == id,
            r.kind == GL_TEXTURE_2D,
    {
        Texture::new(id)
    }

    /// A handle for the freshly allocated vertex-array id `id`.
    pub fn new_vertex_array(&self, id: u32) -> (r: VertexArray)
        ensures
            r.id == id,
    {
        VertexArray::new(id)
    }
}

impl Context {
    pub fn version(&self) -> (r: &String)
        ensures
            r@ == self@.version,
    {
        &self.version
    }

    pub fn major(&self) -> (r: usize)
        ensures
            r == self@.major,
    {
        self.major
    }

    pub fn minor(&self) -> (r: usize)
        ensures
            r == self@.minor,
    {
        self.minor
    }

    pub fn glsl_major(&self) -> (r: usize)
        ensures
            r == self@.glsl_major,
    {
        self.glsl_major
    }

    pub fn glsl_minor(&self) -> (r: usize)
        ensures
            r == self@.glsl_minor,
    {
        self.glsl_minor
    }

    pub fn extenstions(&self) -> (r: &Vec<String>)
        ensures
            r.deep_view() == self@.extenstions,
    {
        &self.extenstions
    }

    /// The tracked clear color, as channel bit patterns.
    pub fn clear_color(&self) -> (r: &[u32; 4])
        ensures
            r@ == self@.clear_color,
    {
        &self.clear_color
    }

    pub fn max_anisotropy(&self) -> (r: usize)
        ensures
            r == self@.max_anisotropy,
    {
        self.max_anisotropy
    }

    pub fn max_textures(&self) -> (r: usize)
        ensures
            r == self@.max_textures,
    {
        self.max_textures
    }

    pub fn max_vertex_textures(&self) -> (r: usize)
        ensures
            r == self@.max_vertex_textures,
    {
        self.max_vertex_textures
    }

    pub fn max_texture_size(&self) -> (r: usize)
        ensures
            r == self@.max_texture_size,
    {
        self.max_texture_size
    }

    pub fn max_cube_texture_size(&self) -> (r: usize)
        ensures
            r == self@.max_cube_texture_size,
    {
        self.max_cube_texture_size
    }

    pub fn max_render_buffer_size(&self) -> (r: usize)
        ensures
            r == self@.max_render_buffer_size,
    {
        self.max_render_buffer_size
    }

    pub fn max_uniforms(&self) -> (r: usize)
        ensures
            r == self@.max_uniforms,
    {
        self.max_uniforms
    }

    pub fn max_varyings(&self) -> (r: usize)
        ensures
            r == self@.max_varyings,
    {
        self.max_varyings
    }

    pub fn max_attributes(&self) -> (r: usize)
        ensures
            r == self@.max_attributes,
    {
        self.max_attributes
    }

    pub fn precision(&self) -> (r: Precision)
        ensures
            r == self@.precision,
    {
        self.precision
    }

    pub fn enabled_attributes(&self) -> (r: &Vec<bool>)
        ensures
            r@ == self@.enabled_attributes,
    {
        &self.enabled_attributes
    }

    pub fn viewport_x(&self) -> (r: usize)
        ensures
            r == self@.viewport_x,
    {
        self.viewport_x
    }

    pub fn viewport_y(&self) -> (r: usize)
        ensures
            r == self@.viewport_y,
    {
        self.viewport_y
    }

    pub fn viewport_width(&self) -> (r: usize)
        ensures
            r == self@.viewport_width,
    {
        self.viewport_width
    }

    pub fn viewport_height(&self) -> (r: usize)
        ensures
            r == self@.viewport_height,
    {
        self.viewport_height
    }

    pub fn blending(&self) -> (r: Blending)
        ensures
            r == self@.blending,
    {
        self.blending
    }

    pub fn cull_face(&self) -> (r: CullFace)
        ensures
            r == self@.cull_face,
    {
        self.cull_face
    }

    pub fn depth_func(&self) -> (r: Depth)
        ensures
            r == self@.depth_func,
    {
        self.depth_func
    }

    pub fn blending_disabled(&self) -> (r: bool)
        ensures
            r == self@.blending_disabled,
    {
        self.blending_disabled
    }

    pub fn cull_face_disabled(&self) -> (r: bool)
        ensures
            r == self@.cull_face_disabled,
    {
        self.cull_face_disabled
    }

    pub fn depth_test_disabled(&self) -> (r: bool)
        ensures
            r == self@.depth_test_disabled,
    {
        self.depth_test_disabled
    }

    /// The tracked clear depth, as a bit pattern.
    pub fn clear_depth(&self) -> (r: u64)
        ensures
            r == self@.clear_depth,
    {
        self.clear_depth
    }

    pub fn clear_stencil(&self) -> (r: isize)
        ensures
            r == self@.clear_stencil,
    {
        self.clear_stencil
    }

    pub fn depth_write(&self) -> (r: bool)
        ensures
            r == self@.depth_write,
    {
        self.depth_write
    }

    /// The tracked near depth-range bound, as a bit pattern.
    pub fn depth_range_near(&self) -> (r: u64)
        ensures
            r == self@.depth_range_near,
    {
        self.depth_range_near
    }

    /// The tracked far depth-range bound, as a bit pattern.
    pub fn depth_range_far(&self) -> (r: u64)
        ensures
            r == self@.depth_range_far,
    {
        self.depth_range_far
    }

    /// The tracked line width, as a bit pattern.
    pub fn line_width(&self) -> (r: u32)
        ensures
            r == self@.line_width,
    {
        self.line_width
    }

    pub fn current_buffer(&self) -> (r: u32)
        ensures
            r == self@.current_buffer,
    {
        self.current_buffer
    }

    pub fn current_buffer_kind(&self) -> (r: u32)
        ensures
            r == self@.current_buffer_kind,
    {
        self.current_buffer_kind
    }

    pub fn current_vertex_array(&self) -> (r: u32)
        ensures
            r == self@.current_vertex_array,
    {
        self.current_vertex_array
    }

    pub fn current_framebuffer(&self) -> (r: u32)
        ensures
            r == self@.current_framebuffer,
    {
        self.current_framebuffer
    }

    pub fn current_renderbuffer(&self) -> (r: u32)
        ensures
            r == self@.current_renderbuffer,
    {
        self.current_renderbuffer
    }

    pub fn current_program(&self) -> (r: u32)
        ensures
            r == self@.current_program,
    {
        self.current_program
    }

    /// Whether sampler declarations must be re-issued: set by a program
    /// switch, cleared by a clean re-bind of the current program.
    pub fn force(&self) -> (r: bool)
        ensures
            r == self@.force,
    {
        self.force
    }

    /// The next texture unit to grant.
    pub fn texture_index(&self) -> (r: u32)
        ensures
            r == self@.texture_index,
    {
        self.texture_index
    }

    /// The unit granted by the most recent texture bind, or minus one.
    pub fn current_texture_index(&self) -> (r: i32)
        ensures
            r == self@.current_texture_index,
    {
        self.current_texture_index
    }

    pub fn current_texture(&self) -> (r: u32)
        ensures
            r == self@.current_texture,
    {
        self.current_texture
    }

    /// The texture unit the executor has active, as mirrored.
    pub fn active_texture_unit(&self) -> (r: u32)
        ensures
            r == self@.active_texture_unit,
    {
        self.active_texture_unit
    }

    /// The recorded native commands, in issue order.
    pub fn calls(&self) -> (r: &Vec<NativeCall>)
        ensures
            r@ == self@.calls,
    {
        &self.calls
    }
}


impl Context {
    /// Makes `program` the current program.  A switch issues the native
    /// call and marks every sampler declaration stale (clearing the sampler
    /// table); re-binding the current program is a no-op, signalled by
    /// `false`, that still invalidates the table when texture units were in
    /// use since the last bind.  The unit cursor always restarts.
    pub fn set_program(&mut self, program: &Program, force: bool) -> (changed: bool)
        ensures
            changed == (force || old(self)@.current_program != program.id),
            (final(self)@, changed) == spec_set_program(old(self)@, program.id, force),
    {
        self.use_program_id(program.id(), force)
    }

    /// Makes the zero program current, with the same bookkeeping as a
    /// program switch; a no-op (nothing was bound) is signalled by `false`.
    pub fn remove_program(&mut self, force: bool) -> (changed: bool)
        ensures
            changed == (force || old(self)@.current_program != 0),
            (final(self)@, changed) == spec_set_program(old(self)@, 0u32, force),
    {
        self.use_program_id(0, force)
    }

    /// The program-binding logic shared by bind and unbind.
    fn use_program_id(&mut self, id: u32, force: bool) -> (changed: bool)
        ensures
            changed == (force || old(self)@.current_program != id),
            (final(self)@, changed) == spec_set_program(old(self)@, id, force),
    {
        let changed = force || self.current_program != id;
        if changed {
            self.current_program = id;
            self.force = true;
            self.sampler_units = Vec::new();
            self.log(NativeCall::UseProgram { id });
        } else {
            if self.texture_index != 0 || self.current_texture_index != -1 {
                self.force = true;
                self.sampler_units = Vec::new();
            } else {
                self.force = false;
            }
        }
        self.texture_index = 0;
        self.current_texture_index = -1;
        proof {
            assert(self@ =~= spec_set_program(old(self)@, id, force).0);
        }
        changed
    }

    /// A fresh program handle with no native id attached.
    pub fn new_program(&self) -> (r: Program)
        ensures
            r.id == 0,
            r.uniforms.deep_view() == Seq::<crate::uniform::UniformView>::empty(),
            r.attributes.deep_view() == Seq::<crate::attribute::AttributeView>::empty(),
    {
        Program::new()
    }
}


/// Redundant binds are idempotent: binding the same buffer twice in a row
/// without force issues the native bind once — the second request is a
/// no-op that reports `false` and leaves the state, the log included,
/// untouched.
pub proof fn lemma_set_buffer_idempotent(pre: StateView, id: u32, kind: BufferTarget)
    ensures
        ({
            let first = spec_set_buffer(pre, id, kind, false);
            let second = spec_set_buffer(first.0, id, kind, false);
            second.0 == first.0 && !second.1
        }),
{
    let first = spec_set_buffer(pre, id, kind, false);
    assert(bound_buffer(first.0, kind) == id);
}

/// The force flag bypasses the cache: a forced buffer bind always issues
/// the native call and reports a change, whatever the cache holds.
pub proof fn lemma_set_buffer_force(pre: StateView, id: u32, kind: BufferTarget)
    ensures
        spec_set_buffer(pre, id, kind, true).1,
        spec_set_buffer(pre, id, kind, true).0.calls.len() > pre.calls.len(),
{
    let s = spec_set_buffer(pre, id, kind, true).0;
    assert(s.calls.len() == pre.calls.len() + spec_disable_calls(pre.enabled_attributes, 0).len()
        + 1);
}

/// Every enabled slot's disable command appears in the disable block.
pub proof fn lemma_disable_calls_cover(attrs: Seq<bool>, from: int, k: int)
    requires
        0 <= from <= k < attrs.len(),
        attrs[k],
    ensures
        spec_disable_calls(attrs, from).contains(
            NativeCall::DisableVertexAttribArray { index: k as u32 },
        ),
    decreases k - from,
{
    if from == k {
        assert(spec_disable_calls(attrs, from)[0] == NativeCall::DisableVertexAttribArray {
            index: k as u32,
        });
    } else {
        lemma_disable_calls_cover(attrs, from + 1, k);
        let rest = spec_disable_calls(attrs, from + 1);
        let i = choose|i: int|
            0 <= i < rest.len() && rest[i] == NativeCall::DisableVertexAttribArray {
                index: k as u32,
            };
        if attrs[from] {
            assert(spec_disable_calls(attrs, from)[i + 1]
                == NativeCall::DisableVertexAttribArray { index: k as u32 });
        }
    }
}

/// No attribute pointer survives a buffer switch: after binding one buffer
/// and enabling two attribute slots, binding a different buffer first
/// emits the disable block — which disables both slots — and only then the
/// new bind, and afterwards no slot is tracked enabled.
pub proof fn lemma_buffer_switch_invalidates_attributes(
    pre: StateView,
    id1: u32,
    id2: u32,
    kind: BufferTarget,
    i: usize,
    j: usize,
)
    requires
        i < j,
        (j as int) < pre.enabled_attributes.len(),
        id2 != id1,
    ensures
        ({
            let s1 = spec_set_buffer(pre, id1, kind, false).0;
            let s2 = spec_enable_attribute(s1, i, false).0;
            let s3 = spec_enable_attribute(s2, j, false).0;
            let s4 = spec_set_buffer(s3, id2, kind, false).0;
            let disables = spec_disable_calls(s3.enabled_attributes, 0);
            &&& spec_set_buffer(s3, id2, kind, false).1
            &&& s4.calls == s3.calls + disables + seq![
                NativeCall::BindBuffer { target: kind.spec_gl(), id: id2 },
            ]
            &&& disables.contains(NativeCall::DisableVertexAttribArray { index: i as u32 })
            &&& disables.contains(NativeCall::DisableVertexAttribArray { index: j as u32 })
            &&& forall|k: int| 0 <= k < s4.enabled_attributes.len() ==> !s4.enabled_attributes[k]
        }),
{
    let s1 = spec_set_buffer(pre, id1, kind, false).0;
    let s2 = spec_enable_attribute(s1, i, false).0;
    let s3 = spec_enable_attribute(s2, j, false).0;
    assert(bound_buffer(s1, kind) == id1);
    assert(bound_buffer(s3, kind) == id1);
    assert(s3.enabled_attributes[i as int]);
    assert(s3.enabled_attributes[j as int]);
    lemma_disable_calls_cover(s3.enabled_attributes, 0, i as int);
    lemma_disable_calls_cover(s3.enabled_attributes, 0, j as int);
    let s4 = spec_set_buffer(s3, id2, kind, false).0;
    assert(s4.calls =~= s3.calls + spec_disable_calls(s3.enabled_attributes, 0) + seq![
        NativeCall::BindBuffer { target: kind.spec_gl(), id: id2 },
    ]);
}

/// Texture unit reuse: after a program switch, a texture bound to a
/// sampler and a draw, re-binding the same texture to the same sampler
/// re-issues neither the active-texture nor the sampler-uniform call —
/// exactly one command is appended, the texture bind itself.  The first
/// bind declares the sampler, switching the active unit only if some
/// other unit was active.
pub proof fn lemma_texture_unit_reuse(
    pre: StateView,
    program_id: u32,
    location: i32,
    texture_id: u32,
    draw_call: NativeCall,
)
    requires
        pre.current_program != program_id,
    ensures
        ({
            let s1 = spec_set_program(pre, program_id, false).0;
            let s2 = spec_set_texture(s1, location, texture_id, false);
            let s3 = StateView { texture_index: 0u32, calls: s2.calls.push(draw_call), ..s2 };
            let s4 = spec_set_texture(s3, location, texture_id, false);
            &&& s2.calls == s1.calls + (if pre.active_texture_unit != 0 {
                seq![NativeCall::ActiveTexture { unit: GL_TEXTURE0 }]
            } else {
                Seq::empty()
            }) + seq![
                NativeCall::Uniform1i { location, value: 0i32 },
                NativeCall::BindTexture { target: GL_TEXTURE_2D, id: texture_id },
            ]
            &&& s2.active_texture_unit == 0
            &&& s4.calls == s3.calls.push(
                NativeCall::BindTexture { target: GL_TEXTURE_2D, id: texture_id },
            )
        }),
{
    let s1 = spec_set_program(pre, program_id, false).0;
    assert(s1.sampler_units =~= Seq::<(i32, u32)>::empty());
    let s2 = spec_set_texture(s1, location, texture_id, false);
    assert(sampler_lookup(s1.sampler_units, location) is None);
    assert(s2.sampler_units =~= seq![(location, 0u32)]);
    assert(s2.calls =~= s1.calls + (if pre.active_texture_unit != 0 {
        seq![NativeCall::ActiveTexture { unit: GL_TEXTURE0 }]
    } else {
        Seq::<NativeCall>::empty()
    }) + seq![
        NativeCall::Uniform1i { location, value: 0i32 },
        NativeCall::BindTexture { target: GL_TEXTURE_2D, id: texture_id },
    ]);
    let s3 = StateView { texture_index: 0u32, calls: s2.calls.push(draw_call), ..s2 };
    assert(sampler_lookup(s3.sampler_units, location) == Some(0u32));
}

/// A texture bind always lands on its granted unit: when the granted unit
/// is not the active one, the unit switch is issued — and nothing else —
/// even though the sampler's declaration is current and would allow
/// skipping the sampler-uniform call.
pub proof fn lemma_texture_bind_lands_on_its_unit(pre: StateView, location: i32, id: u32)
    requires
        pre.active_texture_unit != pre.texture_index,
        sampler_lookup(pre.sampler_units, location) == Some(pre.texture_index),
    ensures
        ({
            let s = spec_set_texture(pre, location, id, false);
            &&& s.calls == pre.calls + seq![
                NativeCall::ActiveTexture { unit: (GL_TEXTURE0 + pre.texture_index) as u32 },
                NativeCall::BindTexture { target: GL_TEXTURE_2D, id },
            ]
            &&& s.active_texture_unit == pre.texture_index
        }),
{
    let s = spec_set_texture(pre, location, id, false);
    assert(s.calls =~= pre.calls + seq![
        NativeCall::ActiveTexture { unit: (GL_TEXTURE0 + pre.texture_index) as u32 },
        NativeCall::BindTexture { target: GL_TEXTURE_2D, id },
    ]);
}

/// A program switch resets the texture unit cursor: binding any texture
/// right after switching programs is granted unit zero, whatever unit was
/// in use before the switch.
pub proof fn lemma_program_switch_resets_cursor(
    pre: StateView,
    program_id: u32,
    location: i32,
    texture_id: u32,
    force: bool,
)
    ensures
        spec_set_program(pre, program_id, force).0.texture_index == 0,
        spec_set_texture(
            spec_set_program(pre, program_id, force).0,
            location,
            texture_id,
            false,
        ).current_texture_index == 0,
{
}


} // verus!
