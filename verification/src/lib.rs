//! A state-caching layer over an immediate-mode graphics backend.
//!
//! The library mirrors the binding state of one graphics context (bound
//! buffer, vertex array, program, textures, enabled vertex attributes and
//! render state) and decides, for every mutation request, whether a native
//! call is necessary.  Every decision is recorded as a [`NativeCall`] value in
//! the context's call log; an unverified executor replays that log against
//! the real backend.  The cache is only sound while every binding goes
//! through it: rebinding behind its back desynchronises the mirror (a usage
//! contract, not an enforced invariant).

mod attribute;
mod buffer;
mod context;
mod enums;
mod framebuffer;
mod info;
mod native;
mod program;
mod renderbuffer;
mod texture;
mod uniform;
mod vertex_array;

pub use attribute::{new_attribute, Attribute, AttributeView};
pub use buffer::Buffer;
pub use context::Context;
pub use context::StateView;
pub use enums::{
    Attachment, Blending, BufferTarget, CullFace, Depth, DrawMode, FilterMode, IndexKind,
    TextureFormat, TextureKind, TextureWrap, Usage,
};
pub use framebuffer::Framebuffer;
pub use info::{
    glsl_version, parse_version_pair, split_words, str_eq, DeviceInfo, Precision,
};
pub use native::{
    NativeCall, GL_BLEND, GL_CULL_FACE, GL_DEPTH_TEST, GL_FUNC_ADD, GL_ZERO, GL_ONE,
    GL_SRC_COLOR, GL_ONE_MINUS_SRC_COLOR, GL_SRC_ALPHA, GL_ONE_MINUS_SRC_ALPHA,
    GL_FRONT, GL_BACK, GL_FRONT_AND_BACK, GL_NEVER, GL_LESS, GL_EQUAL, GL_LEQUAL,
    GL_GREATER, GL_NOTEQUAL, GL_GEQUAL, GL_ALWAYS, GL_DEPTH_BUFFER_BIT,
    GL_STENCIL_BUFFER_BIT, GL_COLOR_BUFFER_BIT, GL_POINTS, GL_LINES, GL_LINE_LOOP,
    GL_LINE_STRIP, GL_TRIANGLES, GL_TRIANGLE_STRIP, GL_TRIANGLE_FAN, GL_LINES_ADJACENCY,
    GL_LINE_STRIP_ADJACENCY, GL_TRIANGLES_ADJACENCY, GL_TRIANGLE_STRIP_ADJACENCY,
    GL_PATCHES, GL_BYTE, GL_UNSIGNED_BYTE, GL_SHORT, GL_UNSIGNED_SHORT, GL_INT,
    GL_UNSIGNED_INT, GL_FLOAT, GL_STREAM_DRAW, GL_STREAM_READ, GL_STREAM_COPY,
    GL_STATIC_DRAW, GL_STATIC_READ, GL_STATIC_COPY, GL_DYNAMIC_DRAW, GL_DYNAMIC_READ,
    GL_DYNAMIC_COPY, GL_ARRAY_BUFFER, GL_ELEMENT_ARRAY_BUFFER, GL_PIXEL_PACK_BUFFER,
    GL_PIXEL_UNPACK_BUFFER, GL_UNIFORM_BUFFER, GL_TEXTURE_BUFFER,
    GL_TRANSFORM_FEEDBACK_BUFFER, GL_COPY_READ_BUFFER, GL_COPY_WRITE_BUFFER,
    GL_DRAW_INDIRECT_BUFFER, GL_SHADER_STORAGE_BUFFER, GL_DISPATCH_INDIRECT_BUFFER,
    GL_QUERY_BUFFER, GL_ATOMIC_COUNTER_BUFFER, GL_COLOR_ATTACHMENT0, GL_DEPTH_ATTACHMENT,
    GL_STENCIL_ATTACHMENT, GL_STENCIL_INDEX, GL_DEPTH_COMPONENT, GL_RED, GL_RGB, GL_RGBA,
    GL_BGR, GL_BGRA, GL_RG, GL_RG_INTEGER, GL_DEPTH_STENCIL, GL_RED_INTEGER,
    GL_RGB_INTEGER, GL_RGBA_INTEGER, GL_BGR_INTEGER, GL_BGRA_INTEGER,
    GL_UNSIGNED_BYTE_3_3_2, GL_UNSIGNED_SHORT_4_4_4_4, GL_UNSIGNED_SHORT_5_5_5_1,
    GL_UNSIGNED_INT_8_8_8_8, GL_UNSIGNED_INT_10_10_10_2, GL_UNSIGNED_BYTE_2_3_3_REV,
    GL_UNSIGNED_SHORT_5_6_5, GL_UNSIGNED_SHORT_5_6_5_REV, GL_UNSIGNED_SHORT_4_4_4_4_REV,
    GL_UNSIGNED_SHORT_1_5_5_5_REV, GL_UNSIGNED_INT_8_8_8_8_REV,
    GL_UNSIGNED_INT_2_10_10_10_REV, GL_REPEAT, GL_CLAMP_TO_EDGE, GL_MIRRORED_REPEAT,
    GL_NEAREST, GL_LINEAR, GL_LINEAR_MIPMAP_NEAREST, GL_LINEAR_MIPMAP_LINEAR,
    GL_TEXTURE_MAG_FILTER, GL_TEXTURE_MIN_FILTER, GL_TEXTURE_WRAP_S, GL_TEXTURE_WRAP_T,
    GL_FLOAT_VEC2, GL_FLOAT_VEC3, GL_FLOAT_VEC4, GL_INT_VEC2, GL_INT_VEC3, GL_INT_VEC4,
    GL_BOOL, GL_BOOL_VEC2, GL_BOOL_VEC3, GL_BOOL_VEC4, GL_FLOAT_MAT2, GL_FLOAT_MAT3,
    GL_FLOAT_MAT4, GL_SAMPLER_2D, GL_TEXTURE_2D, GL_TEXTURE0, GL_FRAMEBUFFER,
    GL_RENDERBUFFER, GL_CCW, GL_UNPACK_ALIGNMENT,
};
pub use program::{
    normalize_uniform_name, parse_attributes, parse_uniforms, ActiveEntry, Program, ReflectError,
};
pub use renderbuffer::Renderbuffer;
pub use texture::{is_power_of_two, Texture};
pub use uniform::{
    new_uniform, ne_array, copy_array, Uniform, UniformKind, UniformValue, UniformView,
};
pub use vertex_array::VertexArray;
