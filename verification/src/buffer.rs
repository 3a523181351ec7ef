//! Handle and metadata of one native buffer object.

use vstd::prelude::*;
use crate::context::{Context, StateView};
use crate::enums::{BufferTarget, Usage};
use crate::native::NativeCall;

verus! {

/// Owns exactly one native buffer id plus the layout of its last upload;
/// move-only, like every resource handle of this library.
pub struct Buffer {
    pub id: u32,
    /// Elements per vertex of the last upload.
    pub stride: usize,
    /// Target the buffer was last uploaded through.
    pub kind: BufferTarget,
    /// Usage pattern of the last upload.
    pub usage: Usage,
    /// Byte size of the last upload.
    pub size: usize,
    /// Byte size of one element of the last upload.
    pub kind_size: usize,
    /// Element count of the last upload.
    pub length: usize,
}

impl Buffer {
    /// Wraps the freshly allocated native id `id`; no data uploaded yet.
    pub fn new(id: u32) -> (r: Self)
        ensures
            r.id == id,
            r.stride == 0,
            r.kind == BufferTarget::Array,
            r.usage == Usage::StaticDraw,
            r.size == 0,
            r.kind_size == 0,
            r.length == 0,
    {
        Buffer {
            id,
            stride: 0,
            kind: BufferTarget::Array,
            usage: Usage::StaticDraw,
            size: 0,
            kind_size: 0,
            length: 0,
        }
    }

    pub fn id(&self) -> (r: u32)
        ensures
            r == self.id,
    {
        self.id
    }

    pub fn stride(&self) -> (r: usize)
        ensures
            r == self.stride,
    {
        self.stride
    }

    pub fn kind(&self) -> (r: BufferTarget)
        ensures
            r == self.kind,
    {
        self.kind
    }

    pub fn usage(&self) -> (r: Usage)
        ensures
            r == self.usage,
    {
        self.usage
    }

    pub fn size(&self) -> (r: usize)
        ensures
            r == self.size,
    {
        self.size
    }

    pub fn kind_size(&self) -> (r: usize)
        ensures
            r == self.kind_size,
    {
        self.kind_size
    }

    pub fn length(&self) -> (r: usize)
        ensures
            r == self.length,
    {
        self.length
    }

    /// Records a full re-upload of `length` elements of `kind_size` bytes
    /// each and overwrites all metadata.  The native upload binds the
    /// buffer directly, uploads, and unbinds — bypassing the cache's
    /// buffer slots on purpose, exactly as the executor will replay it.
    /// The data bytes themselves travel beside the log, in the executor's
    /// hands.
    pub fn set(
        &mut self,
        context: &mut Context,
        kind: BufferTarget,
        length: usize,
        kind_size: usize,
        stride: usize,
        usage: Usage,
    )
        requires
            length * kind_size <= usize::MAX,
        ensures
            final(self).id == old(self).id,
            final(self).stride == stride,
            final(self).kind == kind,
            final(self).usage == usage,
            final(self).size == length * kind_size,
            final(self).kind_size == kind_size,
            final(self).length == length,
            final(context)@ == (StateView {
                calls: old(context)@.calls + seq![
                    NativeCall::BindBuffer { target: kind.spec_gl(), id: old(self).id },
                    NativeCall::BufferData {
                        target: kind.spec_gl(),
                        size: (length * kind_size) as usize,
                        usage: usage.spec_gl(),
                    },
                    NativeCall::BindBuffer { target: kind.spec_gl(), id: 0u32 },
                ],
                ..old(context)@
            }),
    {
        let size = kind_size * length;
        let gl_kind = kind.to_gl();
        let gl_usage = usage.to_gl();

        context.log(NativeCall::BindBuffer { target: gl_kind, id: self.id });
        context.log(NativeCall::BufferData { target: gl_kind, size, usage: gl_usage });
        context.log(NativeCall::BindBuffer { target: gl_kind, id: 0u32 });

        self.stride = stride;
        self.kind = kind;
        self.usage = usage;
        self.size = size;
        self.kind_size = kind_size;
        self.length = length;

        proof {
            assert(context@.calls =~= old(context)@.calls + seq![
                NativeCall::BindBuffer { target: kind.spec_gl(), id: old(self).id },
                NativeCall::BufferData {
                    target: kind.spec_gl(),
                    size: (length * kind_size) as usize,
                    usage: usage.spec_gl(),
                },
                NativeCall::BindBuffer { target: kind.spec_gl(), id: 0u32 },
            ]);
            assert(context@ =~= (StateView {
                calls: old(context)@.calls + seq![
                    NativeCall::BindBuffer { target: kind.spec_gl(), id: old(self).id },
                    NativeCall::BufferData {
                        target: kind.spec_gl(),
                        size: (length * kind_size) as usize,
                        usage: usage.spec_gl(),
                    },
                    NativeCall::BindBuffer { target: kind.spec_gl(), id: 0u32 },
                ],
                ..old(context)@
            }));
        }
    }
}

} // verus!
