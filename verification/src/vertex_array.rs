//! Handle of one native vertex-array object.

use vstd::prelude::*;

verus! {

/// Owns exactly one native vertex-array id.  The id is allocated by the
/// backend before construction and released by the owner of the native
/// context after the handle is dropped; the handle itself is move-only so
/// ownership of the id is never ambiguous.
pub struct VertexArray {
    pub id: u32,
}

impl VertexArray {
    /// Wraps the freshly allocated native id `id`.
    pub fn new(id: u32) -> (r: Self)
        ensures
            r.id == id,
    {
        VertexArray { id }
    }

    pub fn id(&self) -> (r: u32)
        ensures
            r == self.id,
    {
        self.id
    }
}

} // verus!
