//! Handle of one native framebuffer.

use vstd::prelude::*;
use crate::context::{Context, StateView};
use crate::enums::Attachment;
use crate::native::NativeCall;
use crate::texture::Texture;

verus! {

/// The attachment commands of a framebuffer setup, one per requested
/// attachment point, in order.
pub open spec fn spec_attach_calls(attachments: Seq<Attachment>, texture: u32, level: i32) -> Seq<
    NativeCall,
> {
    attachments.map_values(
        |a: Attachment| NativeCall::FramebufferTexture {
            attachment: a.spec_gl(),
            texture,
            level,
        },
    )
}

/// Owns exactly one native framebuffer id; move-only, like every resource
/// handle of this library.
pub struct Framebuffer {
    pub id: u32,
}

impl Framebuffer {
    /// Wraps the freshly allocated native id `id`.
    pub fn new(id: u32) -> (r: Self)
        ensures
            r.id == id,
    {
        Framebuffer { id }
    }

    pub fn id(&self) -> (r: u32)
        ensures
            r == self.id,
    {
        self.id
    }

    /// Attaches `texture` to the named attachment points of this
    /// framebuffer, declares them as draw buffers, and asks the executor to
    /// check completeness (the executor halts on an incomplete framebuffer,
    /// a fatal content error).  The commands bypass the cache's framebuffer
    /// slot on purpose, exactly as the executor will replay them; only the
    /// call log changes.
    pub fn set(
        &self,
        context: &mut Context,
        texture: &Texture,
        buffers: &[Attachment],
        level: i32,
    )
        ensures
            final(context)@ == (StateView { calls: final(context)@.calls, ..old(context)@ }),
            ({
                let calls = final(context)@.calls;
                let n = old(context)@.calls.len() as int;
                let m = buffers@.len() as int;
                &&& calls.len() == n + m + 4
                &&& calls.subrange(0, n) == old(context)@.calls
                &&& calls[n] == (NativeCall::BindFramebuffer { id: self.id })
                &&& calls[n + 1] == (NativeCall::BindTexture {
                    target: texture.kind,
                    id: texture.id,
                })
                &&& calls.subrange(n + 2, n + 2 + m) == spec_attach_calls(
                    buffers@,
                    texture.id,
                    level,
                )
                &&& calls[n + 2 + m] matches NativeCall::DrawBuffers { attachments }
                    && attachments@ == buffers@.map_values(|a: Attachment| a.spec_gl())
                &&& calls[n + 3 + m] == NativeCall::CheckFramebufferStatus
            }),
    {
        let texture_id = texture.id();

        let mut gl_enums: Vec<u32> = Vec::new();
        let mut i: usize = 0;
        while i < buffers.len()
            invariant
                i <= buffers@.len(),
                gl_enums@ == buffers@.take(i as int).map_values(|a: Attachment| a.spec_gl()),
            decreases buffers@.len() - i,
        {
            let ghost prefix = buffers@.take(i as int);
            gl_enums.push(buffers[i].to_gl());
            proof {
                assert(buffers@.take(i + 1) =~= prefix.push(buffers@[i as int]));
                assert(buffers@.take(i + 1).map_values(|a: Attachment| a.spec_gl()) =~= prefix
                    .map_values(|a: Attachment| a.spec_gl()).push(buffers@[i as int].spec_gl()));
            }
            i = i + 1;
        }
        proof {
            assert(buffers@.take(buffers@.len() as int) =~= buffers@);
        }

        context.log(NativeCall::BindFramebuffer { id: self.id });
        context.log(NativeCall::BindTexture { target: texture.kind, id: texture_id });

        let ghost base = context@.calls;
        proof {
            assert(spec_attach_calls(buffers@.take(0), texture.id, level) =~= Seq::<
                NativeCall,
            >::empty());
            assert(base + spec_attach_calls(buffers@.take(0), texture.id, level) =~= base);
            assert(context@ =~= (StateView {
                calls: base + spec_attach_calls(buffers@.take(0), texture.id, level),
                ..old(context)@
            }));
        }
        let mut k: usize = 0;
        while k < buffers.len()
            invariant
                k <= buffers@.len(),
                texture_id == texture.id,
                context@ == (StateView {
                    calls: base + spec_attach_calls(buffers@.take(k as int), texture.id, level),
                    ..old(context)@
                }),
            decreases buffers@.len() - k,
        {
            let ghost prefix = buffers@.take(k as int);
            let ghost entry = NativeCall::FramebufferTexture {
                attachment: buffers@[k as int].spec_gl(),
                texture: texture.id,
                level,
            };
            context.log(
                NativeCall::FramebufferTexture {
                    attachment: buffers[k].to_gl(),
                    texture: texture_id,
                    level,
                },
            );
            proof {
                assert(context@.calls == (base + spec_attach_calls(prefix, texture.id, level))
                    .push(entry));
                assert(buffers@.take(k + 1) =~= prefix.push(buffers@[k as int]));
                assert(spec_attach_calls(buffers@.take(k + 1), texture.id, level)
                    =~= spec_attach_calls(prefix, texture.id, level).push(entry));
                assert((base + spec_attach_calls(prefix, texture.id, level)).push(entry) =~= base
                    + spec_attach_calls(prefix, texture.id, level).push(entry));
                assert(context@ =~= (StateView {
                    calls: base + spec_attach_calls(buffers@.take(k + 1), texture.id, level),
                    ..old(context)@
                }));
            }
            k = k + 1;
        }
        proof {
            assert(buffers@.take(buffers@.len() as int) =~= buffers@);
        }

        context.log(NativeCall::DrawBuffers { attachments: gl_enums });
        context.log(NativeCall::CheckFramebufferStatus);

        proof {
            let calls = context@.calls;
            let n = old(context)@.calls.len() as int;
            let m = buffers@.len() as int;
            assert(calls.subrange(0, n) =~= old(context)@.calls);
            assert(calls.subrange(n + 2, n + 2 + m) =~= spec_attach_calls(
                buffers@,
                texture.id,
                level,
            ));
            assert(context@ =~= (StateView { calls: context@.calls, ..old(context)@ }));
        }
    }
}

} // verus!
