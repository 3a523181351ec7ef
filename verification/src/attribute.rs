//! Typed vertex-attribute setters: one per reflected attribute, carrying
//! the component count and pointer kind its native value kind demands.

use vstd::prelude::*;
use crate::buffer::Buffer;
use crate::context::{spec_set_attrib_pointer, spec_set_buffer, Context};
use crate::native::{
    GL_BOOL, GL_BOOL_VEC2, GL_BOOL_VEC3, GL_BOOL_VEC4, GL_FLOAT, GL_FLOAT_VEC2, GL_FLOAT_VEC3,
    GL_FLOAT_VEC4, GL_INT, GL_INT_VEC2, GL_INT_VEC3, GL_INT_VEC4,
};
use crate::program::ReflectError;

verus! {

/// Component count and native pointer kind chosen for a reflected attribute
/// value kind; boolean attributes are fed as integers.  Nothing for an
/// unsupported kind.
pub open spec fn spec_attribute_dims(kind: u32) -> Option<(u32, u32)> {
    if kind == GL_BOOL {
        Some((1u32, GL_INT))
    } else if kind == GL_INT {
        Some((1u32, GL_INT))
    } else if kind == GL_FLOAT {
        Some((1u32, GL_FLOAT))
    } else if kind == GL_BOOL_VEC2 {
        Some((2u32, GL_INT))
    } else if kind == GL_INT_VEC2 {
        Some((2u32, GL_INT))
    } else if kind == GL_FLOAT_VEC2 {
        Some((2u32, GL_FLOAT))
    } else if kind == GL_BOOL_VEC3 {
        Some((3u32, GL_INT))
    } else if kind == GL_INT_VEC3 {
        Some((3u32, GL_INT))
    } else if kind == GL_FLOAT_VEC3 {
        Some((3u32, GL_FLOAT))
    } else if kind == GL_BOOL_VEC4 {
        Some((4u32, GL_INT))
    } else if kind == GL_INT_VEC4 {
        Some((4u32, GL_INT))
    } else if kind == GL_FLOAT_VEC4 {
        Some((4u32, GL_FLOAT))
    } else {
        None
    }
}

/// The mathematical value of an [`Attribute`].
#[verifier::ext_equal]
pub struct AttributeView {
    pub name: Seq<char>,
    pub kind: u32,
    pub item_size: u32,
    pub pointer_kind: u32,
    pub size: usize,
    pub location: i32,
}

impl AttributeView {
    /// Well-formedness: the dimensions are the ones reflection chose for
    /// the native kind.
    pub open spec fn wf(self) -> bool {
        spec_attribute_dims(self.kind) == Some((self.item_size, self.pointer_kind))
    }
}

/// One typed vertex-attribute setter, keyed by name, immutable once built.
pub struct Attribute {
    pub name: String,
    pub kind: u32,
    pub item_size: u32,
    pub pointer_kind: u32,
    pub size: usize,
    pub location: i32,
}

impl View for Attribute {
    type V = AttributeView;

    open spec fn view(&self) -> AttributeView {
        AttributeView {
            name: self.name@,
            kind: self.kind,
            item_size: self.item_size,
            pointer_kind: self.pointer_kind,
            size: self.size,
            location: self.location,
        }
    }
}

impl DeepView for Attribute {
    type V = AttributeView;

    open spec fn deep_view(&self) -> AttributeView {
        self@
    }
}

/// Builds the typed setter for one reflected attribute, or reports its
/// native value kind as unknown.
pub fn new_attribute(name: String, kind: u32, size: usize, location: i32) -> (r: Result<
    Attribute,
    ReflectError,
>)
    ensures
        r is Ok <==> spec_attribute_dims(kind) is Some,
        r matches Ok(a) ==> a@ == (AttributeView {
            name: name@,
            kind,
            item_size: spec_attribute_dims(kind).unwrap().0,
            pointer_kind: spec_attribute_dims(kind).unwrap().1,
            size,
            location,
        }) && a@.wf(),
        r matches Err(e) ==> e == ReflectError::UnknownAttributeKind(kind),
{
    let dims: (u32, u32) = if kind == GL_BOOL {
        (1, GL_INT)
    } else if kind == GL_INT {
        (1, GL_INT)
    } else if kind == GL_FLOAT {
        (1, GL_FLOAT)
    } else if kind == GL_BOOL_VEC2 {
        (2, GL_INT)
    } else if kind == GL_INT_VEC2 {
        (2, GL_INT)
    } else if kind == GL_FLOAT_VEC2 {
        (2, GL_FLOAT)
    } else if kind == GL_BOOL_VEC3 {
        (3, GL_INT)
    } else if kind == GL_INT_VEC3 {
        (3, GL_INT)
    } else if kind == GL_FLOAT_VEC3 {
        (3, GL_FLOAT)
    } else if kind == GL_BOOL_VEC4 {
        (4, GL_INT)
    } else if kind == GL_INT_VEC4 {
        (4, GL_INT)
    } else if kind == GL_FLOAT_VEC4 {
        (4, GL_FLOAT)
    } else {
        return Err(ReflectError::UnknownAttributeKind(kind));
    };
    Ok(
        Attribute {
            name,
            kind,
            item_size: dims.0,
            pointer_kind: dims.1,
            size,
            location,
        },
    )
}

impl Attribute {
    /// The attribute's name.
    pub fn name(&self) -> (r: String)
        ensures
            r@ == self@.name,
    {
        self.name.clone()
    }

    /// The native value-kind constant reflection reported.
    pub fn kind(&self) -> (r: u32)
        ensures
            r == self@.kind,
    {
        self.kind
    }

    /// The reflected array size.
    pub fn size(&self) -> (r: usize)
        ensures
            r == self@.size,
    {
        self.size
    }

    /// The attribute's location in its program.
    pub fn location(&self) -> (r: i32)
        ensures
            r == self@.location,
    {
        self.location
    }

    /// Makes `buffer` current through the cache (disabling all attribute
    /// slots on a buffer switch) and re-points this attribute into it, with
    /// stride and offset scaled by the buffer's element byte size.
    pub fn set(&self, context: &mut Context, buffer: &Buffer, offset: usize, force: bool) -> (
        changed: bool)
        requires
            0 <= self.location,
            self.location < old(context)@.enabled_attributes.len(),
            buffer.stride * buffer.kind_size <= usize::MAX,
            offset * buffer.kind_size <= usize::MAX,
        ensures
            ({
                let after_buffer = spec_set_buffer(
                    old(context)@,
                    buffer.id,
                    buffer.kind,
                    force,
                ).0;
                (final(context)@, changed) == spec_set_attrib_pointer(
                    after_buffer,
                    self.location as u32,
                    self.item_size,
                    self.pointer_kind,
                    (buffer.stride * buffer.kind_size) as usize,
                    (offset * buffer.kind_size) as usize,
                    force,
                )
            }),
    {
        let kind_size = buffer.kind_size();
        context.set_buffer(buffer, force);
        context.set_attrib_pointer(
            self.location as u32,
            self.item_size,
            self.pointer_kind,
            buffer.stride() * kind_size,
            offset * kind_size,
            force,
        )
    }
}

} // verus!
