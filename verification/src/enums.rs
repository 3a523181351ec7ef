//! Closed sets of portable state values, each with a total mapping to the
//! native constant it stands for.

use vstd::prelude::*;
use crate::native::{
    GL_POINTS, GL_LINE_STRIP, GL_LINE_LOOP, GL_LINES, GL_LINE_STRIP_ADJACENCY,
    GL_LINES_ADJACENCY, GL_TRIANGLE_STRIP, GL_TRIANGLE_FAN, GL_TRIANGLES,
    GL_TRIANGLE_STRIP_ADJACENCY, GL_TRIANGLES_ADJACENCY, GL_PATCHES,
    GL_UNSIGNED_BYTE, GL_UNSIGNED_SHORT, GL_UNSIGNED_INT, GL_BYTE, GL_SHORT, GL_INT, GL_FLOAT,
    GL_STREAM_DRAW, GL_STREAM_READ, GL_STREAM_COPY, GL_STATIC_DRAW, GL_STATIC_READ,
    GL_STATIC_COPY, GL_DYNAMIC_DRAW, GL_DYNAMIC_READ, GL_DYNAMIC_COPY,
    GL_ARRAY_BUFFER, GL_ATOMIC_COUNTER_BUFFER, GL_COPY_READ_BUFFER, GL_COPY_WRITE_BUFFER,
    GL_DISPATCH_INDIRECT_BUFFER, GL_DRAW_INDIRECT_BUFFER, GL_ELEMENT_ARRAY_BUFFER,
    GL_PIXEL_PACK_BUFFER, GL_PIXEL_UNPACK_BUFFER, GL_QUERY_BUFFER, GL_SHADER_STORAGE_BUFFER,
    GL_TEXTURE_BUFFER, GL_TRANSFORM_FEEDBACK_BUFFER, GL_UNIFORM_BUFFER,
    GL_COLOR_ATTACHMENT0, GL_DEPTH_ATTACHMENT, GL_STENCIL_ATTACHMENT,
    GL_RED, GL_RG, GL_RGB, GL_BGR, GL_RGBA, GL_BGRA, GL_RED_INTEGER, GL_RG_INTEGER,
    GL_RGB_INTEGER, GL_BGR_INTEGER, GL_RGBA_INTEGER, GL_BGRA_INTEGER, GL_STENCIL_INDEX,
    GL_DEPTH_COMPONENT, GL_DEPTH_STENCIL,
    GL_UNSIGNED_BYTE_3_3_2, GL_UNSIGNED_BYTE_2_3_3_REV, GL_UNSIGNED_SHORT_5_6_5,
    GL_UNSIGNED_SHORT_5_6_5_REV, GL_UNSIGNED_SHORT_4_4_4_4, GL_UNSIGNED_SHORT_4_4_4_4_REV,
    GL_UNSIGNED_SHORT_5_5_5_1, GL_UNSIGNED_SHORT_1_5_5_5_REV, GL_UNSIGNED_INT_8_8_8_8,
    GL_UNSIGNED_INT_8_8_8_8_REV, GL_UNSIGNED_INT_10_10_10_2, GL_UNSIGNED_INT_2_10_10_10_REV,
    GL_REPEAT, GL_CLAMP_TO_EDGE, GL_MIRRORED_REPEAT,
};

verus! {

/// Blending mode; `Off` disables the blending capability.
#[derive(Debug, Copy, Clone, Eq, PartialEq, Ord, PartialOrd, Hash, Structural)]
pub enum Blending {
    Off,
    Default,
    Additive,
    Subtractive,
    Multiply,
}

/// Face-culling mode; `Off` disables the culling capability.
#[derive(Debug, Copy, Clone, Eq, PartialEq, Ord, PartialOrd, Hash, Structural)]
pub enum CullFace {
    Off,
    Back,
    Front,
    FrontAndBack,
}

/// Depth-test function; `Off` disables the depth test.
#[derive(Debug, Copy, Clone, Eq, PartialEq, Ord, PartialOrd, Hash, Structural)]
pub enum Depth {
    Off,
    Never,
    LessThan,
    Equal,
    LessThanOrEqual,
    GreaterThan,
    NotEqual,
    GreaterThanOrEqual,
    Always,
}

/// Texture sampling filter.
#[derive(Debug, Copy, Clone, Eq, PartialEq, Ord, PartialOrd, Hash, Structural)]
pub enum FilterMode {
    Off,
    Linear,
}

/// Primitive assembly mode of a draw call.
#[derive(Debug, Copy, Clone, Eq, PartialEq, Ord, PartialOrd, Hash, Structural)]
pub enum DrawMode {
    Points,
    LineStrip,
    LineLoop,
    Lines,
    LineStripAdjacency,
    LineAdjacency,
    TriangleStrip,
    TriangleFan,
    Triangles,
    TriangleStripAdjacency,
    TrianglesAdjacency,
    Patches,
}

impl DrawMode {
    /// The native constant this mode stands for.
    pub open spec fn spec_gl(self) -> u32 {
        match self {
            DrawMode::Points => GL_POINTS,
            DrawMode::LineStrip => GL_LINE_STRIP,
            DrawMode::LineLoop => GL_LINE_LOOP,
            DrawMode::Lines => GL_LINES,
            DrawMode::LineStripAdjacency => GL_LINE_STRIP_ADJACENCY,
            DrawMode::LineAdjacency => GL_LINES_ADJACENCY,
            DrawMode::TriangleStrip => GL_TRIANGLE_STRIP,
            DrawMode::TriangleFan => GL_TRIANGLE_FAN,
            DrawMode::Triangles => GL_TRIANGLES,
            DrawMode::TriangleStripAdjacency => GL_TRIANGLE_STRIP_ADJACENCY,
            DrawMode::TrianglesAdjacency => GL_TRIANGLES_ADJACENCY,
            DrawMode::Patches => GL_PATCHES,
        }
    }

    pub fn to_gl(&self) -> (r: u32)
        ensures
            r == self.spec_gl(),
    {
        match self {
            DrawMode::Points => GL_POINTS,
            DrawMode::LineStrip => GL_LINE_STRIP,
            DrawMode::LineLoop => GL_LINE_LOOP,
            DrawMode::Lines => GL_LINES,
            DrawMode::LineStripAdjacency => GL_LINE_STRIP_ADJACENCY,
            DrawMode::LineAdjacency => GL_LINES_ADJACENCY,
            DrawMode::TriangleStrip => GL_TRIANGLE_STRIP,
            DrawMode::TriangleFan => GL_TRIANGLE_FAN,
            DrawMode::Triangles => GL_TRIANGLES,
            DrawMode::TriangleStripAdjacency => GL_TRIANGLE_STRIP_ADJACENCY,
            DrawMode::TrianglesAdjacency => GL_TRIANGLES_ADJACENCY,
            DrawMode::Patches => GL_PATCHES,
        }
    }
}

/// Element-index width of an indexed draw call.
#[derive(Debug, Copy, Clone, Eq, PartialEq, Ord, PartialOrd, Hash, Structural)]
pub enum IndexKind {
    UnsignedByte,
    UnsignedShort,
    UnsignedInt,
}

impl IndexKind {
    /// The native constant this kind stands for.
    pub open spec fn spec_gl(self) -> u32 {
        match self {
            IndexKind::UnsignedByte => GL_UNSIGNED_BYTE,
            IndexKind::UnsignedShort => GL_UNSIGNED_SHORT,
            IndexKind::UnsignedInt => GL_UNSIGNED_INT,
        }
    }

    pub fn to_gl(&self) -> (r: u32)
        ensures
            r == self.spec_gl(),
    {
        match self {
            IndexKind::UnsignedByte => GL_UNSIGNED_BYTE,
            IndexKind::UnsignedShort => GL_UNSIGNED_SHORT,
            IndexKind::UnsignedInt => GL_UNSIGNED_INT,
        }
    }
}

/// Declared usage pattern of a buffer's data store.
#[derive(Debug, Copy, Clone, Eq, PartialEq, Ord, PartialOrd, Hash, Structural)]
pub enum Usage {
    StreamDraw,
    StreamRead,
    StreamCopy,
    StaticDraw,
    StaticRead,
    StaticCopy,
    DynamicDraw,
    DynamicRead,
    DynamicCopy,
}

impl Usage {
    /// The native constant this usage stands for.
    pub open spec fn spec_gl(self) -> u32 {
        match self {
            Usage::StreamDraw => GL_STREAM_DRAW,
            Usage::StreamRead => GL_STREAM_READ,
            Usage::StreamCopy => GL_STREAM_COPY,
            Usage::StaticDraw => GL_STATIC_DRAW,
            Usage::StaticRead => GL_STATIC_READ,
            Usage::StaticCopy => GL_STATIC_COPY,
            Usage::DynamicDraw => GL_DYNAMIC_DRAW,
            Usage::DynamicRead => GL_DYNAMIC_READ,
            Usage::DynamicCopy => GL_DYNAMIC_COPY,
        }
    }

    pub fn to_gl(&self) -> (r: u32)
        ensures
            r == self.spec_gl(),
    {
        match self {
            Usage::StreamDraw => GL_STREAM_DRAW,
            Usage::StreamRead => GL_STREAM_READ,
            Usage::StreamCopy => GL_STREAM_COPY,
            Usage::StaticDraw => GL_STATIC_DRAW,
            Usage::StaticRead => GL_STATIC_READ,
            Usage::StaticCopy => GL_STATIC_COPY,
            Usage::DynamicDraw => GL_DYNAMIC_DRAW,
            Usage::DynamicRead => GL_DYNAMIC_READ,
            Usage::DynamicCopy => GL_DYNAMIC_COPY,
        }
    }
}

/// Binding target of a buffer.
#[derive(Debug, Copy, Clone, Eq, PartialEq, Ord, PartialOrd, Hash, Structural)]
pub enum BufferTarget {
    Array,
    AtomicCounter,
    CopyRead,
    CopyWrite,
    DispatchIndirect,
    DrawIndirect,
    ElementArray,
    PixelPack,
    PixelUnpack,
    Query,
    ShaderStorage,
    Texture,
    TransformFeedback,
    Uniform,
}

impl BufferTarget {
    /// The native constant this target stands for.
    pub open spec fn spec_gl(self) -> u32 {
        match self {
            BufferTarget::Array => GL_ARRAY_BUFFER,
            BufferTarget::AtomicCounter => GL_ATOMIC_COUNTER_BUFFER,
            BufferTarget::CopyRead => GL_COPY_READ_BUFFER,
            BufferTarget::CopyWrite => GL_COPY_WRITE_BUFFER,
            BufferTarget::DispatchIndirect => GL_DISPATCH_INDIRECT_BUFFER,
            BufferTarget::DrawIndirect => GL_DRAW_INDIRECT_BUFFER,
            BufferTarget::ElementArray => GL_ELEMENT_ARRAY_BUFFER,
            BufferTarget::PixelPack => GL_PIXEL_PACK_BUFFER,
            BufferTarget::PixelUnpack => GL_PIXEL_UNPACK_BUFFER,
            BufferTarget::Query => GL_QUERY_BUFFER,
            BufferTarget::ShaderStorage => GL_SHADER_STORAGE_BUFFER,
            BufferTarget::Texture => GL_TEXTURE_BUFFER,
            BufferTarget::TransformFeedback => GL_TRANSFORM_FEEDBACK_BUFFER,
            BufferTarget::Uniform => GL_UNIFORM_BUFFER,
        }
    }

    pub fn to_gl(&self) -> (r: u32)
        ensures
            r == self.spec_gl(),
    {
        match self {
            BufferTarget::Array => GL_ARRAY_BUFFER,
            BufferTarget::AtomicCounter => GL_ATOMIC_COUNTER_BUFFER,
            BufferTarget::CopyRead => GL_COPY_READ_BUFFER,
            BufferTarget::CopyWrite => GL_COPY_WRITE_BUFFER,
            BufferTarget::DispatchIndirect => GL_DISPATCH_INDIRECT_BUFFER,
            BufferTarget::DrawIndirect => GL_DRAW_INDIRECT_BUFFER,
            BufferTarget::ElementArray => GL_ELEMENT_ARRAY_BUFFER,
            BufferTarget::PixelPack => GL_PIXEL_PACK_BUFFER,
            BufferTarget::PixelUnpack => GL_PIXEL_UNPACK_BUFFER,
            BufferTarget::Query => GL_QUERY_BUFFER,
            BufferTarget::ShaderStorage => GL_SHADER_STORAGE_BUFFER,
            BufferTarget::Texture => GL_TEXTURE_BUFFER,
            BufferTarget::TransformFeedback => GL_TRANSFORM_FEEDBACK_BUFFER,
            BufferTarget::Uniform => GL_UNIFORM_BUFFER,
        }
    }
}

/// Attachment point of a framebuffer.
#[derive(Debug, Copy, Clone, Eq, PartialEq, Ord, PartialOrd, Hash, Structural)]
pub enum Attachment {
    Color,
    Depth,
    Stencil,
}

impl Attachment {
    /// The native constant this attachment stands for.
    pub open spec fn spec_gl(self) -> u32 {
        match self {
            Attachment::Color => GL_COLOR_ATTACHMENT0,
            Attachment::Depth => GL_DEPTH_ATTACHMENT,
            Attachment::Stencil => GL_STENCIL_ATTACHMENT,
        }
    }

    pub fn to_gl(&self) -> (r: u32)
        ensures
            r == self.spec_gl(),
    {
        match self {
            Attachment::Color => GL_COLOR_ATTACHMENT0,
            Attachment::Depth => GL_DEPTH_ATTACHMENT,
            Attachment::Stencil => GL_STENCIL_ATTACHMENT,
        }
    }
}

/// Channel layout of texture data.
#[derive(Debug, Copy, Clone, Eq, PartialEq, Ord, PartialOrd, Hash, Structural)]
pub enum TextureFormat {
    Red,
    RG,
    RGB,
    BGR,
    RGBA,
    BGRA,
    RedInteger,
    RGInteger,
    RGBInteger,
    BGRInteger,
    RGBAInteger,
    BGRAInteger,
    StencilInteger,
    DepthComponent,
    DepthStencil,
}

impl TextureFormat {
    /// The native constant this format stands for.
    pub open spec fn spec_gl(self) -> u32 {
        match self {
            TextureFormat::Red => GL_RED,
            TextureFormat::RG => GL_RG,
            TextureFormat::RGB => GL_RGB,
            TextureFormat::BGR => GL_BGR,
            TextureFormat::RGBA => GL_RGBA,
            TextureFormat::BGRA => GL_BGRA,
            TextureFormat::RedInteger => GL_RED_INTEGER,
            TextureFormat::RGInteger => GL_RG_INTEGER,
            TextureFormat::RGBInteger => GL_RGB_INTEGER,
            TextureFormat::BGRInteger => GL_BGR_INTEGER,
            TextureFormat::RGBAInteger => GL_RGBA_INTEGER,
            TextureFormat::BGRAInteger => GL_BGRA_INTEGER,
            TextureFormat::StencilInteger => GL_STENCIL_INDEX,
            TextureFormat::DepthComponent => GL_DEPTH_COMPONENT,
            TextureFormat::DepthStencil => GL_DEPTH_STENCIL,
        }
    }

    pub fn to_gl(&self) -> (r: u32)
        ensures
            r == self.spec_gl(),
    {
        match self {
            TextureFormat::Red => GL_RED,
            TextureFormat::RG => GL_RG,
            TextureFormat::RGB => GL_RGB,
            TextureFormat::BGR => GL_BGR,
            TextureFormat::RGBA => GL_RGBA,
            TextureFormat::BGRA => GL_BGRA,
            TextureFormat::RedInteger => GL_RED_INTEGER,
            TextureFormat::RGInteger => GL_RG_INTEGER,
            TextureFormat::RGBInteger => GL_RGB_INTEGER,
            TextureFormat::BGRInteger => GL_BGR_INTEGER,
            TextureFormat::RGBAInteger => GL_RGBA_INTEGER,
            TextureFormat::BGRAInteger => GL_BGRA_INTEGER,
            TextureFormat::StencilInteger => GL_STENCIL_INDEX,
            TextureFormat::DepthComponent => GL_DEPTH_COMPONENT,
            TextureFormat::DepthStencil => GL_DEPTH_STENCIL,
        }
    }
}

/// Component kind of texture data.
#[derive(Debug, Copy, Clone, Eq, PartialEq, Ord, PartialOrd, Hash, Structural)]
pub enum TextureKind {
    UnsignedByte,
    Byte,
    UnsignedShort,
    Short,
    UnsignedInt,
    Int,
    Float,
    UnsignedByte332,
    UnsignedByte223Rev,
    UnsignedShort565,
    UnsignedShort565Rev,
    UnsignedShort4444,
    UnsignedShort4444Rev,
    UnsignedShort5551,
    UnsignedShort1555Rev,
    UnsignedInt8888,
    UnsignedInt8888Rev,
    UnsignedInt1010102,
    UnsignedInt2101010Rev,
}

impl TextureKind {
    /// The native constant this kind stands for.
    pub open spec fn spec_gl(self) -> u32 {
        match self {
            TextureKind::UnsignedByte => GL_UNSIGNED_BYTE,
            TextureKind::Byte => GL_BYTE,
            TextureKind::UnsignedShort => GL_UNSIGNED_SHORT,
            TextureKind::Short => GL_SHORT,
            TextureKind::UnsignedInt => GL_UNSIGNED_INT,
            TextureKind::Int => GL_INT,
            TextureKind::Float => GL_FLOAT,
            TextureKind::UnsignedByte332 => GL_UNSIGNED_BYTE_3_3_2,
            TextureKind::UnsignedByte223Rev => GL_UNSIGNED_BYTE_2_3_3_REV,
            TextureKind::UnsignedShort565 => GL_UNSIGNED_SHORT_5_6_5,
            TextureKind::UnsignedShort565Rev => GL_UNSIGNED_SHORT_5_6_5_REV,
            TextureKind::UnsignedShort4444 => GL_UNSIGNED_SHORT_4_4_4_4,
            TextureKind::UnsignedShort4444Rev => GL_UNSIGNED_SHORT_4_4_4_4_REV,
            TextureKind::UnsignedShort5551 => GL_UNSIGNED_SHORT_5_5_5_1,
            TextureKind::UnsignedShort1555Rev => GL_UNSIGNED_SHORT_1_5_5_5_REV,
            TextureKind::UnsignedInt8888 => GL_UNSIGNED_INT_8_8_8_8,
            TextureKind::UnsignedInt8888Rev => GL_UNSIGNED_INT_8_8_8_8_REV,
            TextureKind::UnsignedInt1010102 => GL_UNSIGNED_INT_10_10_10_2,
            TextureKind::UnsignedInt2101010Rev => GL_UNSIGNED_INT_2_10_10_10_REV,
        }
    }

    pub fn to_gl(&self) -> (r: u32)
        ensures
            r == self.spec_gl(),
    {
        match self {
            TextureKind::UnsignedByte => GL_UNSIGNED_BYTE,
            TextureKind::Byte => GL_BYTE,
            TextureKind::UnsignedShort => GL_UNSIGNED_SHORT,
            TextureKind::Short => GL_SHORT,
            TextureKind::UnsignedInt => GL_UNSIGNED_INT,
            TextureKind::Int => GL_INT,
            TextureKind::Float => GL_FLOAT,
            TextureKind::UnsignedByte332 => GL_UNSIGNED_BYTE_3_3_2,
            TextureKind::UnsignedByte223Rev => GL_UNSIGNED_BYTE_2_3_3_REV,
            TextureKind::UnsignedShort565 => GL_UNSIGNED_SHORT_5_6_5,
            TextureKind::UnsignedShort565Rev => GL_UNSIGNED_SHORT_5_6_5_REV,
            TextureKind::UnsignedShort4444 => GL_UNSIGNED_SHORT_4_4_4_4,
            TextureKind::UnsignedShort4444Rev => GL_UNSIGNED_SHORT_4_4_4_4_REV,
            TextureKind::UnsignedShort5551 => GL_UNSIGNED_SHORT_5_5_5_1,
            TextureKind::UnsignedShort1555Rev => GL_UNSIGNED_SHORT_1_5_5_5_REV,
            TextureKind::UnsignedInt8888 => GL_UNSIGNED_INT_8_8_8_8,
            TextureKind::UnsignedInt8888Rev => GL_UNSIGNED_INT_8_8_8_8_REV,
            TextureKind::UnsignedInt1010102 => GL_UNSIGNED_INT_10_10_10_2,
            TextureKind::UnsignedInt2101010Rev => GL_UNSIGNED_INT_2_10_10_10_REV,
        }
    }
}

/// Texture coordinate wrapping mode.
#[derive(Debug, Copy, Clone, Eq, PartialEq, Ord, PartialOrd, Hash, Structural)]
pub enum TextureWrap {
    Repeat,
    Clamp,
    MirroredRepeat,
}

impl TextureWrap {
    /// The native constant this mode stands for.
    pub open spec fn spec_gl(self) -> u32 {
        match self {
            TextureWrap::Repeat => GL_REPEAT,
            TextureWrap::Clamp => GL_CLAMP_TO_EDGE,
            TextureWrap::MirroredRepeat => GL_MIRRORED_REPEAT,
        }
    }

    pub fn to_gl(&self) -> (r: u32)
        ensures
            r == self.spec_gl(),
    {
        match self {
            TextureWrap::Repeat => GL_REPEAT,
            TextureWrap::Clamp => GL_CLAMP_TO_EDGE,
            TextureWrap::MirroredRepeat => GL_MIRRORED_REPEAT,
        }
    }
}

} // verus!
