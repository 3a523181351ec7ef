//! Handle of one native renderbuffer.

use vstd::prelude::*;
use crate::context::Context;
use crate::enums::{Attachment, TextureFormat};
use crate::native::NativeCall;

verus! {

/// Owns exactly one native renderbuffer id; move-only, like every resource
/// handle of this library.
pub struct Renderbuffer {
    pub id: u32,
}

impl Renderbuffer {
    /// Wraps the freshly allocated native id `id`.
    pub fn new(id: u32) -> (r: Self)
        ensures
            r.id == id,
    {
        Renderbuffer { id }
    }

    pub fn id(&self) -> (r: u32)
        ensures
            r == self.id,
    {
        self.id
    }

    /// Allocates storage of `width` by `height` pixels in `format` and
    /// attaches this renderbuffer to the current framebuffer, then restores
    /// the zero renderbuffer binding.  The four native commands are appended
    /// to the context's call log; no cached state is consulted or changed.
    pub fn set(
        &self,
        context: &mut Context,
        format: TextureFormat,
        attachment: Attachment,
        width: usize,
        height: usize,
    )
        ensures
            final(context)@ == (crate::context::StateView {
                calls: old(context)@.calls
                    + seq![
                        NativeCall::BindRenderbuffer { id: self.id },
                        NativeCall::RenderbufferStorage {
                            format: format.spec_gl(),
                            width: width,
                            height: height,
                        },
                        NativeCall::FramebufferRenderbuffer {
                            attachment: attachment.spec_gl(),
                            renderbuffer: self.id,
                        },
                        NativeCall::BindRenderbuffer { id: 0u32 },
                    ],
                ..old(context)@
            }),
    {
        let format = format.to_gl();
        let attachment = attachment.to_gl();

        context.log(NativeCall::BindRenderbuffer { id: self.id });
        context.log(NativeCall::RenderbufferStorage { format, width, height });
        context.log(NativeCall::FramebufferRenderbuffer { attachment, renderbuffer: self.id });
        context.log(NativeCall::BindRenderbuffer { id: 0u32 });
    }
}

} // verus!
