//! Typed uniform setters: one value-kind-tagged setter per reflected
//! uniform, with a cached last-set value for non-array numeric uniforms.

use vstd::prelude::*;
use vstd::pervasive::unreached;
use crate::context::{spec_set_texture, Context, StateView};
use crate::native::{
    NativeCall, GL_FLOAT, GL_INT, GL_FLOAT_VEC2, GL_INT_VEC2, GL_FLOAT_VEC3, GL_INT_VEC3,
    GL_FLOAT_VEC4, GL_INT_VEC4, GL_FLOAT_MAT2, GL_FLOAT_MAT3, GL_FLOAT_MAT4, GL_SAMPLER_2D,
};
use crate::program::ReflectError;

verus! {

/// The closed set of value kinds a reflected uniform can have.
#[derive(Debug, Copy, Clone, Eq, PartialEq, Ord, PartialOrd, Hash, Structural)]
pub enum UniformKind {
    Float,
    Int,
    FloatVec2,
    IntVec2,
    FloatVec3,
    IntVec3,
    FloatVec4,
    IntVec4,
    Mat2,
    Mat3,
    Mat4,
    Sampler2D,
}

/// Words of storage one element of this kind occupies (floats as their bit
/// patterns, one word per component); samplers hold no words.
pub open spec fn spec_word_count(kind: UniformKind) -> nat {
    match kind {
        UniformKind::Float => 1,
        UniformKind::Int => 1,
        UniformKind::FloatVec2 => 2,
        UniformKind::IntVec2 => 2,
        UniformKind::FloatVec3 => 3,
        UniformKind::IntVec3 => 3,
        UniformKind::FloatVec4 => 4,
        UniformKind::IntVec4 => 4,
        UniformKind::Mat2 => 4,
        UniformKind::Mat3 => 9,
        UniformKind::Mat4 => 16,
        UniformKind::Sampler2D => 0,
    }
}

/// Elements a reflected array size stands for: a size of zero or one is a
/// single element.
pub open spec fn spec_size_count(size: usize) -> nat {
    if size <= 1 {
        1
    } else {
        size as nat
    }
}

/// The typed kind chosen for a reflected native value kind and array size;
/// nothing for an unsupported kind (samplers may not be arrays).
pub open spec fn spec_uniform_kind(kind: u32, size: usize) -> Option<UniformKind> {
    if kind == GL_FLOAT {
        Some(UniformKind::Float)
    } else if kind == GL_INT {
        Some(UniformKind::Int)
    } else if kind == GL_FLOAT_VEC2 {
        Some(UniformKind::FloatVec2)
    } else if kind == GL_INT_VEC2 {
        Some(UniformKind::IntVec2)
    } else if kind == GL_FLOAT_VEC3 {
        Some(UniformKind::FloatVec3)
    } else if kind == GL_INT_VEC3 {
        Some(UniformKind::IntVec3)
    } else if kind == GL_FLOAT_VEC4 {
        Some(UniformKind::FloatVec4)
    } else if kind == GL_INT_VEC4 {
        Some(UniformKind::IntVec4)
    } else if kind == GL_FLOAT_MAT2 {
        Some(UniformKind::Mat2)
    } else if kind == GL_FLOAT_MAT3 {
        Some(UniformKind::Mat3)
    } else if kind == GL_FLOAT_MAT4 {
        Some(UniformKind::Mat4)
    } else if kind == GL_SAMPLER_2D && size <= 1 {
        Some(UniformKind::Sampler2D)
    } else {
        None
    }
}

/// A uniform value as the caller hands it over: a closed tagged variant,
/// floats as bit patterns.  Vector, matrix and whole-array contents travel
/// in one carrier of their base type; a sampler value names a texture id.
#[derive(Debug, PartialEq)]
pub enum UniformValue {
    Int(i32),
    Float(u32),
    IntVec(Vec<i32>),
    FloatVec(Vec<u32>),
    Mat(Vec<u32>),
    Texture(u32),
}

/// The raw words a value uploads, integers reinterpreted as words.
pub open spec fn spec_value_words(value: UniformValue) -> Seq<u32> {
    match value {
        UniformValue::Int(i) => seq![i as u32],
        UniformValue::Float(bits) => seq![bits],
        UniformValue::IntVec(v) => v@.map_values(|x: i32| x as u32),
        UniformValue::FloatVec(v) => v@,
        UniformValue::Mat(v) => v@,
        UniformValue::Texture(_) => Seq::empty(),
    }
}

/// The texture id a sampler value names.
pub open spec fn spec_texture_id(value: UniformValue) -> u32 {
    match value {
        UniformValue::Texture(id) => id,
        _ => 0u32,
    }
}

/// Whether `value`'s shape matches a setter of kind `kind` with reflected
/// array size `size`: the variant tag must agree with the kind's base type
/// and the payload must hold exactly one element per declared array slot.
pub open spec fn value_fits(kind: UniformKind, size: usize, value: UniformValue) -> bool {
    match kind {
        UniformKind::Sampler2D => value is Texture,
        UniformKind::Float => if size <= 1 {
            value is Float
        } else {
            value matches UniformValue::FloatVec(v) && v@.len() == size
        },
        UniformKind::Int => if size <= 1 {
            value is Int
        } else {
            value matches UniformValue::IntVec(v) && v@.len() == size
        },
        UniformKind::FloatVec2 => value matches UniformValue::FloatVec(v) && v@.len() == 2
            * spec_size_count(size),
        UniformKind::FloatVec3 => value matches UniformValue::FloatVec(v) && v@.len() == 3
            * spec_size_count(size),
        UniformKind::FloatVec4 => value matches UniformValue::FloatVec(v) && v@.len() == 4
            * spec_size_count(size),
        UniformKind::IntVec2 => value matches UniformValue::IntVec(v) && v@.len() == 2
            * spec_size_count(size),
        UniformKind::IntVec3 => value matches UniformValue::IntVec(v) && v@.len() == 3
            * spec_size_count(size),
        UniformKind::IntVec4 => value matches UniformValue::IntVec(v) && v@.len() == 4
            * spec_size_count(size),
        UniformKind::Mat2 => value matches UniformValue::Mat(v) && v@.len() == 4
            * spec_size_count(size),
        UniformKind::Mat3 => value matches UniformValue::Mat(v) && v@.len() == 9
            * spec_size_count(size),
        UniformKind::Mat4 => value matches UniformValue::Mat(v) && v@.len() == 16
            * spec_size_count(size),
    }
}

/// The mathematical value of a [`Uniform`].
#[verifier::ext_equal]
pub struct UniformView {
    pub name: Seq<char>,
    pub kind: u32,
    pub vkind: UniformKind,
    pub size: usize,
    pub location: i32,
    pub value: Seq<u32>,
}

impl UniformView {
    /// Well-formedness: the typed kind is the one reflection chose for the
    /// native kind and size, and the cache holds exactly one element's
    /// words for cacheable (non-array, non-sampler) uniforms and nothing
    /// otherwise.
    pub open spec fn wf(self) -> bool {
        &&& spec_uniform_kind(self.kind, self.size) == Some(self.vkind)
        &&& if self.size <= 1 && self.vkind != UniformKind::Sampler2D {
            self.value.len() == spec_word_count(self.vkind)
        } else {
            self.value.len() == 0
        }
    }
}

/// One typed uniform setter, keyed by name, carrying its reflected kind,
/// array size, location, and — for cacheable kinds — the last words
/// uploaded (initially zero, the backend's own default for uniforms).
pub struct Uniform {
    pub name: String,
    pub kind: u32,
    pub vkind: UniformKind,
    pub size: usize,
    pub location: i32,
    pub value: Vec<u32>,
}

impl View for Uniform {
    type V = UniformView;

    open spec fn view(&self) -> UniformView {
        UniformView {
            name: self.name@,
            kind: self.kind,
            vkind: self.vkind,
            size: self.size,
            location: self.location,
            value: self.value@,
        }
    }
}

impl DeepView for Uniform {
    type V = UniformView;

    open spec fn deep_view(&self) -> UniformView {
        self@
    }
}

/// Whether a set request uploads: samplers and arrays always do; a
/// cacheable uniform uploads when forced or when the requested words differ
/// from the cached ones.
pub open spec fn spec_uniform_changed(
    u: UniformView,
    value: UniformValue,
    force: bool,
) -> bool {
    if u.vkind == UniformKind::Sampler2D {
        true
    } else if u.size > 1 {
        true
    } else {
        force || spec_value_words(value) != u.value
    }
}

/// The setter after a checked set: only a cacheable uniform that uploaded
/// adopts the new words.
pub open spec fn spec_uniform_after(u: UniformView, value: UniformValue, force: bool) -> UniformView {
    if u.vkind == UniformKind::Sampler2D || u.size > 1 {
        u
    } else if force || spec_value_words(value) != u.value {
        UniformView { value: spec_value_words(value), ..u }
    } else {
        u
    }
}

/// The setter after an unchecked set: a cacheable uniform always adopts
/// the new words.
pub open spec fn spec_uniform_after_unchecked(u: UniformView, value: UniformValue) -> UniformView {
    if u.vkind == UniformKind::Sampler2D || u.size > 1 {
        u
    } else {
        UniformView { value: spec_value_words(value), ..u }
    }
}

/// Exactly one upload command was appended to the log, carrying the
/// setter's location, native kind, element count, and `words`; nothing
/// else about the context changed.
pub open spec fn upload_logged(
    pre: StateView,
    post: StateView,
    u: UniformView,
    words: Seq<u32>,
) -> bool {
    &&& post == (StateView { calls: post.calls, ..pre })
    &&& post.calls.len() == pre.calls.len() + 1
    &&& post.calls.subrange(0, pre.calls.len() as int) == pre.calls
    &&& post.calls.last() matches NativeCall::UniformData { location, kind, count, words: w }
        && location == u.location && kind == u.kind && count == spec_size_count(u.size) && w@
        == words
}

/// What a checked or unchecked set did to the context: a sampler delegates
/// to the texture-unit logic; an upload appends one upload command; a
/// cache hit leaves the context untouched.
pub open spec fn uniform_set_post(
    u: UniformView,
    pre: StateView,
    post: StateView,
    value: UniformValue,
    force: bool,
    uploaded: bool,
) -> bool {
    if u.vkind == UniformKind::Sampler2D {
        post == spec_set_texture(pre, u.location, spec_texture_id(value), force)
    } else if uploaded {
        upload_logged(pre, post, u, spec_value_words(value))
    } else {
        post == pre
    }
}

/// Whether two equal-length word vectors differ anywhere.
pub fn ne_array(a: &Vec<u32>, b: &Vec<u32>) -> (r: bool)
    requires
        a@.len() == b@.len(),
    ensures
        r == (a@ != b@),
{
    let mut i: usize = 0;
    let il = b.len();
    while i < il
        invariant
            i <= il,
            il == a@.len(),
            il == b@.len(),
            forall|j: int| 0 <= j < i ==> a@[j] == b@[j],
        decreases il - i,
    {
        if a[i] != b[i] {
            return true;
        }
        i = i + 1;
    }
    proof {
        assert(a@ =~= b@);
    }
    false
}

/// Overwrites `a` with the contents of the equal-length vector `b`.
pub fn copy_array(a: &mut Vec<u32>, b: &Vec<u32>)
    requires
        old(a)@.len() == b@.len(),
    ensures
        final(a)@ == b@,
{
    let mut i: usize = 0;
    let il = b.len();
    while i < il
        invariant
            i <= il,
            il == a@.len(),
            il == b@.len(),
            forall|j: int| 0 <= j < i ==> a@[j] == b@[j],
        decreases il - i,
    {
        a[i] = b[i];
        i = i + 1;
    }
    proof {
        assert(a@ =~= b@);
    }
}

/// The raw words `value` uploads.
fn value_words(value: &UniformValue) -> (r: Vec<u32>)
    ensures
        r@ == spec_value_words(*value),
{
    match value {
        UniformValue::Int(i) => {
            let mut words: Vec<u32> = Vec::new();
            words.push(*i as u32);
            proof {
                assert(words@ =~= spec_value_words(*value));
            }
            words
        },
        UniformValue::Float(bits) => {
            let mut words: Vec<u32> = Vec::new();
            words.push(*bits);
            proof {
                assert(words@ =~= spec_value_words(*value));
            }
            words
        },
        UniformValue::IntVec(v) => {
            let mut words: Vec<u32> = Vec::new();
            let n = v.len();
            let mut i: usize = 0;
            while i < n
                invariant
                    i <= n,
                    n == v@.len(),
                    words@ =~= v@.take(i as int).map_values(|x: i32| x as u32),
                decreases n - i,
            {
                let ghost prefix = v@.take(i as int);
                words.push(v[i] as u32);
                proof {
                    assert(v@.take(i + 1) =~= prefix.push(v@[i as int]));
                    assert(v@.take(i + 1).map_values(|x: i32| x as u32) =~= prefix.map_values(
                        |x: i32| x as u32,
                    ).push(v@[i as int] as u32));
                }
                i = i + 1;
            }
            proof {
                assert(v@.take(v@.len() as int) =~= v@);
            }
            words
        },
        UniformValue::FloatVec(v) => {
            let mut words: Vec<u32> = Vec::new();
            let n = v.len();
            let mut i: usize = 0;
            while i < n
                invariant
                    i <= n,
                    n == v@.len(),
                    words@ =~= v@.take(i as int),
                decreases n - i,
            {
                words.push(v[i]);
                proof {
                    assert(v@.take(i + 1) =~= v@.take(i as int).push(v@[i as int]));
                }
                i = i + 1;
            }
            proof {
                assert(v@.take(v@.len() as int) =~= v@);
            }
            words
        },
        UniformValue::Mat(v) => {
            let mut words: Vec<u32> = Vec::new();
            let n = v.len();
            let mut i: usize = 0;
            while i < n
                invariant
                    i <= n,
                    n == v@.len(),
                    words@ =~= v@.take(i as int),
                decreases n - i,
            {
                words.push(v[i]);
                proof {
                    assert(v@.take(i + 1) =~= v@.take(i as int).push(v@[i as int]));
                }
                i = i + 1;
            }
            proof {
                assert(v@.take(v@.len() as int) =~= v@);
            }
            words
        },
        UniformValue::Texture(_) => Vec::new(),
    }
}

/// Builds the typed setter for one reflected uniform, or reports its
/// native value kind as unknown — an unrecognised kind must not silently
/// become a setter that does nothing.
pub fn new_uniform(name: String, kind: u32, size: usize, location: i32) -> (r: Result<
    Uniform,
    ReflectError,
>)
    ensures
        r is Ok <==> spec_uniform_kind(kind, size) is Some,
        r matches Ok(u) ==> u@ == (UniformView {
            name: name@,
            kind,
            vkind: spec_uniform_kind(kind, size).unwrap(),
            size,
            location,
            value: zero_words(spec_uniform_kind(kind, size).unwrap(), size),
        }) && u@.wf(),
        r matches Err(e) ==> e == ReflectError::UnknownUniformKind(kind),
{
    let vkind: UniformKind = if kind == GL_FLOAT {
        UniformKind::Float
    } else if kind == GL_INT {
        UniformKind::Int
    } else if kind == GL_FLOAT_VEC2 {
        UniformKind::FloatVec2
    } else if kind == GL_INT_VEC2 {
        UniformKind::IntVec2
    } else if kind == GL_FLOAT_VEC3 {
        UniformKind::FloatVec3
    } else if kind == GL_INT_VEC3 {
        UniformKind::IntVec3
    } else if kind == GL_FLOAT_VEC4 {
        UniformKind::FloatVec4
    } else if kind == GL_INT_VEC4 {
        UniformKind::IntVec4
    } else if kind == GL_FLOAT_MAT2 {
        UniformKind::Mat2
    } else if kind == GL_FLOAT_MAT3 {
        UniformKind::Mat3
    } else if kind == GL_FLOAT_MAT4 {
        UniformKind::Mat4
    } else if kind == GL_SAMPLER_2D && size <= 1 {
        UniformKind::Sampler2D
    } else {
        return Err(ReflectError::UnknownUniformKind(kind));
    };

    let cached: usize = if size <= 1 {
        word_count(vkind)
    } else {
        0
    };
    let mut value: Vec<u32> = Vec::new();
    let mut i: usize = 0;
    while i < cached
        invariant
            i <= cached,
            value@.len() == i,
            forall|j: int| 0 <= j < i ==> value@[j] == 0u32,
        decreases cached - i,
    {
        value.push(0);
        i = i + 1;
    }
    let u = Uniform { name, kind, vkind, size, location, value };
    proof {
        assert(u@.value =~= zero_words(vkind, size));
        assert(u@ =~= (UniformView {
            name: u.name@,
            kind,
            vkind,
            size,
            location,
            value: zero_words(vkind, size),
        }));
    }
    Ok(u)
}

/// The all-zero cache a fresh setter starts with: one element's words for
/// cacheable kinds, nothing for samplers and arrays.
pub open spec fn zero_words(vkind: UniformKind, size: usize) -> Seq<u32> {
    if size <= 1 && vkind != UniformKind::Sampler2D {
        Seq::new(spec_word_count(vkind), |i: int| 0u32)
    } else {
        Seq::empty()
    }
}

/// Words of storage one element of this kind occupies.
pub fn word_count(kind: UniformKind) -> (r: usize)
    ensures
        r == spec_word_count(kind),
{
    match kind {
        UniformKind::Float => 1,
        UniformKind::Int => 1,
        UniformKind::FloatVec2 => 2,
        UniformKind::IntVec2 => 2,
        UniformKind::FloatVec3 => 3,
        UniformKind::IntVec3 => 3,
        UniformKind::FloatVec4 => 4,
        UniformKind::IntVec4 => 4,
        UniformKind::Mat2 => 4,
        UniformKind::Mat3 => 9,
        UniformKind::Mat4 => 16,
        UniformKind::Sampler2D => 0,
    }
}

impl Uniform {
    /// The uniform's base name.
    pub fn name(&self) -> (r: String)
        ensures
            r@ == self@.name,
    {
        self.name.clone()
    }

    /// The native value-kind constant reflection reported.
    pub fn kind(&self) -> (r: u32)
        ensures
            r == self@.kind,
    {
        self.kind
    }

    /// The typed kind chosen for the setter.
    pub fn value_kind(&self) -> (r: UniformKind)
        ensures
            r == self@.vkind,
    {
        self.vkind
    }

    /// The reflected array size.
    pub fn size(&self) -> (r: usize)
        ensures
            r == self@.size,
    {
        self.size
    }

    /// The uniform's location in its program.
    pub fn location(&self) -> (r: i32)
        ensures
            r == self@.location,
    {
        self.location
    }

    /// Checked set: a sampler value delegates to the context's
    /// texture-unit logic; an array always uploads (array contents are
    /// never cached); a cacheable value uploads only when forced or when
    /// its words differ from the cached ones, and the cache adopts them.
    #[verifier::rlimit(100)]
    pub fn set(&mut self, context: &mut Context, value: &UniformValue, force: bool) -> (changed:
        bool)
        requires
            old(self)@.wf(),
            value_fits(old(self)@.vkind, old(self)@.size, *value),
            old(self)@.vkind == UniformKind::Sampler2D ==> old(context)@.texture_index
                < 0x7FFF_0000,
        ensures
            changed == spec_uniform_changed(old(self)@, *value, force),
            final(self)@ == spec_uniform_after(old(self)@, *value, force),
            uniform_set_post(old(self)@, old(context)@, final(context)@, *value, force, changed),
    {
        if matches!(self.vkind, UniformKind::Sampler2D) {
            let id = if let UniformValue::Texture(id) = value {
                *id
            } else {
                unreached()
            };
            context.set_texture_unit(self.location, id, force)
        } else {
            let words = value_words(value);
            if self.size > 1 {
                let count = self.size;
                context.log(
                    NativeCall::UniformData {
                        location: self.location,
                        kind: self.kind,
                        count,
                        words,
                    },
                );
                proof {
                    assert(context@.calls.subrange(0, old(context)@.calls.len() as int)
                        =~= old(context)@.calls);
                    assert(context@ =~= (StateView { calls: context@.calls, ..old(context)@ }));
                }
                true
            } else {
                if force || ne_array(&self.value, &words) {
                    copy_array(&mut self.value, &words);
                    context.log(
                        NativeCall::UniformData {
                            location: self.location,
                            kind: self.kind,
                            count: 1,
                            words,
                        },
                    );
                    proof {
                        assert(context@.calls.subrange(0, old(context)@.calls.len() as int)
                            =~= old(context)@.calls);
                        assert(context@ =~= (StateView { calls: context@.calls, ..old(context)@ }));
                        assert(self@ =~= spec_uniform_after(old(self)@, *value, force));
                    }
                    true
                } else {
                    false
                }
            }
        }
    }

    /// Unchecked set: skips the cached comparison and always uploads (or,
    /// for a sampler, always runs the texture-unit logic with the given
    /// force flag); the cache still adopts the words.
    #[verifier::rlimit(100)]
    pub fn set_unchecked(&mut self, context: &mut Context, value: &UniformValue, force: bool) -> (
        changed: bool)
        requires
            old(self)@.wf(),
            value_fits(old(self)@.vkind, old(self)@.size, *value),
            old(self)@.vkind == UniformKind::Sampler2D ==> old(context)@.texture_index
                < 0x7FFF_0000,
        ensures
            changed,
            final(self)@ == spec_uniform_after_unchecked(old(self)@, *value),
            uniform_set_post(old(self)@, old(context)@, final(context)@, *value, force, changed),
    {
        if matches!(self.vkind, UniformKind::Sampler2D) {
            let id = if let UniformValue::Texture(id) = value {
                *id
            } else {
                unreached()
            };
            context.set_texture_unit(self.location, id, force)
        } else {
            let words = value_words(value);
            if self.size > 1 {
                let count = self.size;
                context.log(
                    NativeCall::UniformData {
                        location: self.location,
                        kind: self.kind,
                        count,
                        words,
                    },
                );
                proof {
                    assert(context@.calls.subrange(0, old(context)@.calls.len() as int)
                        =~= old(context)@.calls);
                    assert(context@ =~= (StateView { calls: context@.calls, ..old(context)@ }));
                }
                true
            } else {
                copy_array(&mut self.value, &words);
                context.log(
                    NativeCall::UniformData {
                        location: self.location,
                        kind: self.kind,
                        count: 1,
                        words,
                    },
                );
                proof {
                    assert(context@.calls.subrange(0, old(context)@.calls.len() as int)
                        =~= old(context)@.calls);
                    assert(context@ =~= (StateView { calls: context@.calls, ..old(context)@ }));
                    assert(self@ =~= spec_uniform_after_unchecked(old(self)@, *value));
                }
                true
            }
        }
    }
}

/// Uniform cache correctness: setting the same cacheable value twice
/// uploads once — after the first set the cache holds the value's words,
/// so an identical second request is a no-op — while a value with
/// different words uploads again.
pub proof fn lemma_uniform_cache(u: UniformView, v1: UniformValue, v2: UniformValue)
    requires
        u.size <= 1,
        u.vkind != UniformKind::Sampler2D,
    ensures
        ({
            let after_first = spec_uniform_after(u, v1, false);
            &&& after_first.value == spec_value_words(v1)
            &&& !spec_uniform_changed(after_first, v1, false)
            &&& spec_value_words(v2) != spec_value_words(v1) ==> spec_uniform_changed(
                after_first,
                v2,
                false,
            )
        }),
{
}

/// Array uniforms always upload: a setter with array size above one never
/// caches, so every set — the same contents included — reports an upload,
/// and two consecutive identical sets upload twice.
pub proof fn lemma_array_uniform_always_uploads(
    u: UniformView,
    value: UniformValue,
    force: bool,
)
    requires
        u.size > 1,
    ensures
        spec_uniform_changed(u, value, force),
        spec_uniform_after(u, value, force) == u,
        spec_uniform_changed(spec_uniform_after(u, value, force), value, false),
{
}


} // verus!
