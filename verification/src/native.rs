//! Native constants of the backend, and the call log's entry type.
//!
//! Each `GL_*` constant is the numeric value the backend assigns to the
//! corresponding symbol.  A [`NativeCall`] names one native command together
//! with the arguments the cache decided on; the unverified executor turns
//! each entry into the equally named backend call, in order.

use vstd::prelude::*;

verus! {

// Capabilities.
pub const GL_BLEND: u32 = 0x0BE2;
pub const GL_CULL_FACE: u32 = 0x0B44;
pub const GL_DEPTH_TEST: u32 = 0x0B71;

// Blend equations and factors.
pub const GL_FUNC_ADD: u32 = 0x8006;
pub const GL_ZERO: u32 = 0;
pub const GL_ONE: u32 = 1;
pub const GL_SRC_COLOR: u32 = 0x0300;
pub const GL_ONE_MINUS_SRC_COLOR: u32 = 0x0301;
pub const GL_SRC_ALPHA: u32 = 0x0302;
pub const GL_ONE_MINUS_SRC_ALPHA: u32 = 0x0303;

// Face culling.
pub const GL_FRONT: u32 = 0x0404;
pub const GL_BACK: u32 = 0x0405;
pub const GL_FRONT_AND_BACK: u32 = 0x0408;

// Depth functions.
pub const GL_NEVER: u32 = 0x0200;
pub const GL_LESS: u32 = 0x0201;
pub const GL_EQUAL: u32 = 0x0202;
pub const GL_LEQUAL: u32 = 0x0203;
pub const GL_GREATER: u32 = 0x0204;
pub const GL_NOTEQUAL: u32 = 0x0205;
pub const GL_GEQUAL: u32 = 0x0206;
pub const GL_ALWAYS: u32 = 0x0207;

// Clear masks.
pub const GL_DEPTH_BUFFER_BIT: u32 = 0x0000_0100;
pub const GL_STENCIL_BUFFER_BIT: u32 = 0x0000_0400;
pub const GL_COLOR_BUFFER_BIT: u32 = 0x0000_4000;

// Draw modes.
pub const GL_POINTS: u32 = 0x0000;
pub const GL_LINES: u32 = 0x0001;
pub const GL_LINE_LOOP: u32 = 0x0002;
pub const GL_LINE_STRIP: u32 = 0x0003;
pub const GL_TRIANGLES: u32 = 0x0004;
pub const GL_TRIANGLE_STRIP: u32 = 0x0005;
pub const GL_TRIANGLE_FAN: u32 = 0x0006;
pub const GL_LINES_ADJACENCY: u32 = 0x000A;
pub const GL_LINE_STRIP_ADJACENCY: u32 = 0x000B;
pub const GL_TRIANGLES_ADJACENCY: u32 = 0x000C;
pub const GL_TRIANGLE_STRIP_ADJACENCY: u32 = 0x000D;
pub const GL_PATCHES: u32 = 0x000E;

// Scalar kinds.
pub const GL_BYTE: u32 = 0x1400;
pub const GL_UNSIGNED_BYTE: u32 = 0x1401;
pub const GL_SHORT: u32 = 0x1402;
pub const GL_UNSIGNED_SHORT: u32 = 0x1403;
pub const GL_INT: u32 = 0x1404;
pub const GL_UNSIGNED_INT: u32 = 0x1405;
pub const GL_FLOAT: u32 = 0x1406;

// Buffer usage.
pub const GL_STREAM_DRAW: u32 = 0x88E0;
pub const GL_STREAM_READ: u32 = 0x88E1;
pub const GL_STREAM_COPY: u32 = 0x88E2;
pub const GL_STATIC_DRAW: u32 = 0x88E4;
pub const GL_STATIC_READ: u32 = 0x88E5;
pub const GL_STATIC_COPY: u32 = 0x88E6;
pub const GL_DYNAMIC_DRAW: u32 = 0x88E8;
pub const GL_DYNAMIC_READ: u32 = 0x88E9;
pub const GL_DYNAMIC_COPY: u32 = 0x88EA;

// Buffer targets.
pub const GL_ARRAY_BUFFER: u32 = 0x8892;
pub const GL_ELEMENT_ARRAY_BUFFER: u32 = 0x8893;
pub const GL_PIXEL_PACK_BUFFER: u32 = 0x88EB;
pub const GL_PIXEL_UNPACK_BUFFER: u32 = 0x88EC;
pub const GL_UNIFORM_BUFFER: u32 = 0x8A11;
pub const GL_TEXTURE_BUFFER: u32 = 0x8C2A;
pub const GL_TRANSFORM_FEEDBACK_BUFFER: u32 = 0x8C8E;
pub const GL_COPY_READ_BUFFER: u32 = 0x8F36;
pub const GL_COPY_WRITE_BUFFER: u32 = 0x8F37;
pub const GL_DRAW_INDIRECT_BUFFER: u32 = 0x8F3F;
pub const GL_SHADER_STORAGE_BUFFER: u32 = 0x90D2;
pub const GL_DISPATCH_INDIRECT_BUFFER: u32 = 0x90EE;
pub const GL_QUERY_BUFFER: u32 = 0x9192;
pub const GL_ATOMIC_COUNTER_BUFFER: u32 = 0x92C0;

// Framebuffer attachments.
pub const GL_COLOR_ATTACHMENT0: u32 = 0x8CE0;
pub const GL_DEPTH_ATTACHMENT: u32 = 0x8D00;
pub const GL_STENCIL_ATTACHMENT: u32 = 0x8D20;

// Pixel formats.
pub const GL_STENCIL_INDEX: u32 = 0x1901;
pub const GL_DEPTH_COMPONENT: u32 = 0x1902;
pub const GL_RED: u32 = 0x1903;
pub const GL_RGB: u32 = 0x1907;
pub const GL_RGBA: u32 = 0x1908;
pub const GL_BGR: u32 = 0x80E0;
pub const GL_BGRA: u32 = 0x80E1;
pub const GL_RG: u32 = 0x8227;
pub const GL_RG_INTEGER: u32 = 0x8228;
pub const GL_DEPTH_STENCIL: u32 = 0x84F9;
pub const GL_RED_INTEGER: u32 = 0x8D94;
pub const GL_RGB_INTEGER: u32 = 0x8D98;
pub const GL_RGBA_INTEGER: u32 = 0x8D99;
pub const GL_BGR_INTEGER: u32 = 0x8D9A;
pub const GL_BGRA_INTEGER: u32 = 0x8D9B;

// Packed pixel kinds.
pub const GL_UNSIGNED_BYTE_3_3_2: u32 = 0x8032;
pub const GL_UNSIGNED_SHORT_4_4_4_4: u32 = 0x8033;
pub const GL_UNSIGNED_SHORT_5_5_5_1: u32 = 0x8034;
pub const GL_UNSIGNED_INT_8_8_8_8: u32 = 0x8035;
pub const GL_UNSIGNED_INT_10_10_10_2: u32 = 0x8036;
pub const GL_UNSIGNED_BYTE_2_3_3_REV: u32 = 0x8362;
pub const GL_UNSIGNED_SHORT_5_6_5: u32 = 0x8363;
pub const GL_UNSIGNED_SHORT_5_6_5_REV: u32 = 0x8364;
pub const GL_UNSIGNED_SHORT_4_4_4_4_REV: u32 = 0x8365;
pub const GL_UNSIGNED_SHORT_1_5_5_5_REV: u32 = 0x8366;
pub const GL_UNSIGNED_INT_8_8_8_8_REV: u32 = 0x8367;
pub const GL_UNSIGNED_INT_2_10_10_10_REV: u32 = 0x8368;

// Texture wrapping.
pub const GL_REPEAT: u32 = 0x2901;
pub const GL_CLAMP_TO_EDGE: u32 = 0x812F;
pub const GL_MIRRORED_REPEAT: u32 = 0x8370;

// Texture filters and parameters.
pub const GL_NEAREST: u32 = 0x2600;
pub const GL_LINEAR: u32 = 0x2601;
pub const GL_LINEAR_MIPMAP_NEAREST: u32 = 0x2701;
pub const GL_LINEAR_MIPMAP_LINEAR: u32 = 0x2703;
pub const GL_TEXTURE_MAG_FILTER: u32 = 0x2800;
pub const GL_TEXTURE_MIN_FILTER: u32 = 0x2801;
pub const GL_TEXTURE_WRAP_S: u32 = 0x2802;
pub const GL_TEXTURE_WRAP_T: u32 = 0x2803;

// Reflected value kinds.
pub const GL_FLOAT_VEC2: u32 = 0x8B50;
pub const GL_FLOAT_VEC3: u32 = 0x8B51;
pub const GL_FLOAT_VEC4: u32 = 0x8B52;
pub const GL_INT_VEC2: u32 = 0x8B53;
pub const GL_INT_VEC3: u32 = 0x8B54;
pub const GL_INT_VEC4: u32 = 0x8B55;
pub const GL_BOOL: u32 = 0x8B56;
pub const GL_BOOL_VEC2: u32 = 0x8B57;
pub const GL_BOOL_VEC3: u32 = 0x8B58;
pub const GL_BOOL_VEC4: u32 = 0x8B59;
pub const GL_FLOAT_MAT2: u32 = 0x8B5A;
pub const GL_FLOAT_MAT3: u32 = 0x8B5B;
pub const GL_FLOAT_MAT4: u32 = 0x8B5C;
pub const GL_SAMPLER_2D: u32 = 0x8B5E;

// Binding points and miscellany.
pub const GL_TEXTURE_2D: u32 = 0x0DE1;
pub const GL_TEXTURE0: u32 = 0x84C0;
pub const GL_FRAMEBUFFER: u32 = 0x8D40;
pub const GL_RENDERBUFFER: u32 = 0x8D41;
pub const GL_CCW: u32 = 0x0901;
pub const GL_UNPACK_ALIGNMENT: u32 = 0x0CF5;

/// One native command the cache decided to issue.  Argument order and
/// meaning follow the equally named backend entry point; floating-point
/// arguments are carried as their bit patterns.
#[derive(Debug, PartialEq)]
pub enum NativeCall {
    FrontFace { mode: u32 },
    PixelStorei { pname: u32, param: u32 },
    Viewport { x: usize, y: usize, width: usize, height: usize },
    ClearDepth { depth_bits: u64 },
    ClearStencil { stencil: isize },
    DepthMask { flag: bool },
    DepthRange { near_bits: u64, far_bits: u64 },
    LineWidth { width_bits: u32 },
    Enable { capability: u32 },
    Disable { capability: u32 },
    BlendEquation { mode: u32 },
    BlendFunc { sfactor: u32, dfactor: u32 },
    BlendEquationSeparate { mode_rgb: u32, mode_alpha: u32 },
    BlendFuncSeparate { src_rgb: u32, dst_rgb: u32, src_alpha: u32, dst_alpha: u32 },
    CullFace { mode: u32 },
    DepthFunc { func: u32 },
    ClearColor { red_bits: u32, green_bits: u32, blue_bits: u32, alpha_bits: u32 },
    Clear { mask: u32 },
    EnableVertexAttribArray { index: u32 },
    DisableVertexAttribArray { index: u32 },
    BindBuffer { target: u32, id: u32 },
    BufferData { target: u32, size: usize, usage: u32 },
    VertexAttribPointer { location: u32, item_size: u32, kind: u32, stride: usize, offset: usize },
    BindVertexArray { id: u32 },
    BindFramebuffer { id: u32 },
    BindRenderbuffer { id: u32 },
    ActiveTexture { unit: u32 },
    Uniform1i { location: i32, value: i32 },
    BindTexture { target: u32, id: u32 },
    UseProgram { id: u32 },
    DrawArrays { mode: u32, first: usize, count: usize },
    DrawElements { mode: u32, count: usize, kind: u32, offset: usize },
    TexImage2D { format: u32, width: usize, height: usize, kind: u32, with_data: bool },
    TexParameteri { pname: u32, param: u32 },
    GenerateTextureMipmap { id: u32 },
    GenerateMipmap { target: u32 },
    FramebufferTexture { attachment: u32, texture: u32, level: i32 },
    DrawBuffers { attachments: Vec<u32> },
    CheckFramebufferStatus,
    RenderbufferStorage { format: u32, width: usize, height: usize },
    FramebufferRenderbuffer { attachment: u32, renderbuffer: u32 },
    UniformData { location: i32, kind: u32, count: usize, words: Vec<u32> },
}

} // verus!
