//! Handle of one native texture, and the upload plans for two-dimensional
//! image data.

use vstd::prelude::*;
use crate::context::{Context, StateView};
use crate::enums::{FilterMode, TextureFormat, TextureKind, TextureWrap};
use crate::native::{
    NativeCall, GL_TEXTURE_2D, GL_NEAREST, GL_LINEAR, GL_LINEAR_MIPMAP_NEAREST,
    GL_LINEAR_MIPMAP_LINEAR, GL_TEXTURE_MAG_FILTER, GL_TEXTURE_MIN_FILTER,
    GL_TEXTURE_WRAP_S, GL_TEXTURE_WRAP_T,
};

verus! {

/// Whether `n` is a power of two.
pub open spec fn spec_is_pot(n: nat) -> bool
    decreases n,
{
    if n == 0 {
        false
    } else if n == 1 {
        true
    } else {
        n % 2 == 0 && spec_is_pot(n / 2)
    }
}

/// Decides whether `n` is a power of two.
pub fn is_power_of_two(n: usize) -> (r: bool)
    ensures
        r == spec_is_pot(n as nat),
{
    if n == 0 {
        return false;
    }
    let mut m: usize = n;
    while m > 1
        invariant
            m >= 1,
            spec_is_pot(n as nat) == spec_is_pot(m as nat),
        decreases m,
    {
        if m % 2 == 1 {
            return false;
        }
        m = m / 2;
    }
    true
}

/// The magnification filter chosen for `filter`.
pub open spec fn spec_mag_filter(filter: FilterMode) -> u32 {
    if filter == FilterMode::Off {
        GL_NEAREST
    } else {
        GL_LINEAR
    }
}

/// The minification filter chosen for `filter`, given whether mipmaps will
/// be generated (requested and both dimensions powers of two).
pub open spec fn spec_min_filter(filter: FilterMode, mipmapped: bool) -> u32 {
    if filter == FilterMode::Off {
        if mipmapped {
            GL_LINEAR_MIPMAP_NEAREST
        } else {
            GL_NEAREST
        }
    } else {
        if mipmapped {
            GL_LINEAR_MIPMAP_LINEAR
        } else {
            GL_LINEAR
        }
    }
}

/// The mipmap-generation command for a context version: the direct-state
/// call where the version offers it, the bound-target call otherwise.
pub open spec fn spec_mipmap_call(id: u32, major: usize, minor: usize) -> NativeCall {
    if major >= 4 && minor >= 5 {
        NativeCall::GenerateTextureMipmap { id }
    } else {
        NativeCall::GenerateMipmap { target: GL_TEXTURE_2D }
    }
}

/// The native commands of one two-dimensional upload: bind, image upload,
/// the four sampling parameters, mipmap generation where applicable, and
/// the unbind.
pub open spec fn spec_upload_calls(
    id: u32,
    width: usize,
    height: usize,
    format: TextureFormat,
    kind: TextureKind,
    wrap: TextureWrap,
    filter: FilterMode,
    mipmapped: bool,
    with_data: bool,
    major: usize,
    minor: usize,
) -> Seq<NativeCall> {
    seq![
        NativeCall::BindTexture { target: GL_TEXTURE_2D, id },
        NativeCall::TexImage2D { format: format.spec_gl(), width, height, kind: kind.spec_gl(), with_data },
        NativeCall::TexParameteri { pname: GL_TEXTURE_MAG_FILTER, param: spec_mag_filter(filter) },
        NativeCall::TexParameteri { pname: GL_TEXTURE_MIN_FILTER, param: spec_min_filter(filter, mipmapped) },
        NativeCall::TexParameteri { pname: GL_TEXTURE_WRAP_S, param: wrap.spec_gl() },
        NativeCall::TexParameteri { pname: GL_TEXTURE_WRAP_T, param: wrap.spec_gl() },
    ] + (if mipmapped {
        seq![spec_mipmap_call(id, major, minor)]
    } else {
        Seq::empty()
    }) + seq![NativeCall::BindTexture { target: GL_TEXTURE_2D, id: 0u32 }]
}

/// Owns exactly one native texture id and remembers the target it was last
/// uploaded through; move-only, like every resource handle of this library.
pub struct Texture {
    pub id: u32,
    /// Native target of the last upload.
    pub kind: u32,
}

impl Texture {
    /// Wraps the freshly allocated native id `id`.
    pub fn new(id: u32) -> (r: Self)
        ensures
            r.id == id,
            r.kind == GL_TEXTURE_2D,
    {
        Texture { id, kind: GL_TEXTURE_2D }
    }

    pub fn id(&self) -> (r: u32)
        ensures
            r == self.id,
    {
        self.id
    }

    pub fn kind(&self) -> (r: u32)
        ensures
            r == self.kind,
    {
        self.kind
    }

    /// Records a two-dimensional upload of image data (the bytes travel
    /// beside the log, in the executor's hands).  Mipmaps are generated
    /// only when requested and both dimensions are powers of two.
    pub fn set_data2d(
        &mut self,
        context: &mut Context,
        width: usize,
        height: usize,
        format: TextureFormat,
        kind: TextureKind,
        wrap: TextureWrap,
        filter: FilterMode,
        generate_mipmap: bool,
    )
        ensures
            final(self).id == old(self).id,
            final(self).kind == GL_TEXTURE_2D,
            final(context)@ == (StateView {
                calls: old(context)@.calls + spec_upload_calls(
                    old(self).id,
                    width,
                    height,
                    format,
                    kind,
                    wrap,
                    filter,
                    generate_mipmap && spec_is_pot(width as nat) && spec_is_pot(height as nat),
                    true,
                    old(context)@.major,
                    old(context)@.minor,
                ),
                ..old(context)@
            }),
    {
        self.upload2d(context, width, height, format, kind, wrap, filter, generate_mipmap, true);
    }

    /// Records a two-dimensional allocation without data: the image call is
    /// issued with a null pointer, reserving storage only.
    pub fn set_null2d(
        &mut self,
        context: &mut Context,
        width: usize,
        height: usize,
        format: TextureFormat,
        kind: TextureKind,
        wrap: TextureWrap,
        filter: FilterMode,
        generate_mipmap: bool,
    )
        ensures
            final(self).id == old(self).id,
            final(self).kind == GL_TEXTURE_2D,
            final(context)@ == (StateView {
                calls: old(context)@.calls + spec_upload_calls(
                    old(self).id,
                    width,
                    height,
                    format,
                    kind,
                    wrap,
                    filter,
                    generate_mipmap && spec_is_pot(width as nat) && spec_is_pot(height as nat),
                    false,
                    old(context)@.major,
                    old(context)@.minor,
                ),
                ..old(context)@
            }),
    {
        self.upload2d(context, width, height, format, kind, wrap, filter, generate_mipmap, false);
    }

    fn upload2d(
        &mut self,
        context: &mut Context,
        width: usize,
        height: usize,
        format: TextureFormat,
        kind: TextureKind,
        wrap: TextureWrap,
        filter: FilterMode,
        generate_mipmap: bool,
        with_data: bool,
    )
        ensures
            final(self).id == old(self).id,
            final(self).kind == GL_TEXTURE_2D,
            final(context)@ == (StateView {
                calls: old(context)@.calls + spec_upload_calls(
                    old(self).id,
                    width,
                    height,
                    format,
                    kind,
                    wrap,
                    filter,
                    generate_mipmap && spec_is_pot(width as nat) && spec_is_pot(height as nat),
                    with_data,
                    old(context)@.major,
                    old(context)@.minor,
                ),
                ..old(context)@
            }),
    {
        let pot = is_power_of_two(width) && is_power_of_two(height);
        let mipmapped = generate_mipmap && pot;

        let major = context.major;
        let minor = context.minor;

        let mag_filter: u32 = if matches!(filter, FilterMode::Off) {
            GL_NEAREST
        } else {
            GL_LINEAR
        };
        let min_filter: u32 = if matches!(filter, FilterMode::Off) {
            if mipmapped {
                GL_LINEAR_MIPMAP_NEAREST
            } else {
                GL_NEAREST
            }
        } else {
            if mipmapped {
                GL_LINEAR_MIPMAP_LINEAR
            } else {
                GL_LINEAR
            }
        };

        let gl_format = format.to_gl();
        let gl_wrap = wrap.to_gl();
        let gl_kind = kind.to_gl();

        context.log(NativeCall::BindTexture { target: GL_TEXTURE_2D, id: self.id });
        context.log(
            NativeCall::TexImage2D { format: gl_format, width, height, kind: gl_kind, with_data },
        );
        context.log(NativeCall::TexParameteri { pname: GL_TEXTURE_MAG_FILTER, param: mag_filter });
        context.log(NativeCall::TexParameteri { pname: GL_TEXTURE_MIN_FILTER, param: min_filter });
        context.log(NativeCall::TexParameteri { pname: GL_TEXTURE_WRAP_S, param: gl_wrap });
        context.log(NativeCall::TexParameteri { pname: GL_TEXTURE_WRAP_T, param: gl_wrap });
        if mipmapped {
            if major >= 4 && minor >= 5 {
                context.log(NativeCall::GenerateTextureMipmap { id: self.id });
            } else {
                context.log(NativeCall::GenerateMipmap { target: GL_TEXTURE_2D });
            }
        }
        context.log(NativeCall::BindTexture { target: GL_TEXTURE_2D, id: 0u32 });
        self.kind = GL_TEXTURE_2D;

        proof {
            assert(context@.calls =~= old(context)@.calls + spec_upload_calls(
                old(self).id,
                width,
                height,
                format,
                kind,
                wrap,
                filter,
                generate_mipmap && spec_is_pot(width as nat) && spec_is_pot(height as nat),
                with_data,
                old(context)@.major,
                old(context)@.minor,
            ));
            assert(context@ =~= (StateView {
                calls: old(context)@.calls + spec_upload_calls(
                    old(self).id,
                    width,
                    height,
                    format,
                    kind,
                    wrap,
                    filter,
                    generate_mipmap && spec_is_pot(width as nat) && spec_is_pot(height as nat),
                    with_data,
                    old(context)@.major,
                    old(context)@.minor,
                ),
                ..old(context)@
            }));
        }
    }
}

} // verus!
