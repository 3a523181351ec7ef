//! Programs: a native program id plus the two reflected, name-keyed maps of
//! typed setters, rebuilt in full from the raw reflection records.

use vstd::prelude::*;
use vstd::pervasive::unreached;
use vstd::string::StrSliceExecFns;
use crate::attribute::{
    new_attribute, spec_attribute_dims, Attribute, AttributeView,
};
use crate::buffer::Buffer;
use crate::context::{spec_set_attrib_pointer, spec_set_buffer, Context, StateView};
use crate::info::{digit_at, is_digit, str_eq};
use crate::uniform::{
    new_uniform, spec_uniform_after, spec_uniform_after_unchecked, spec_uniform_changed,
    spec_uniform_kind, uniform_set_post, value_fits, zero_words, Uniform, UniformKind,
    UniformValue, UniformView,
};

verus! {

/// A fatal reflection failure: a native value kind this library has no
/// setter for.  An unrecognised kind must not silently become a setter
/// that does nothing.
#[derive(Debug, Copy, Clone, Eq, PartialEq, Structural)]
pub enum ReflectError {
    UnknownUniformKind(u32),
    UnknownAttributeKind(u32),
}

/// One raw record of the backend's program introspection: the reported
/// name, native value kind, array size and location of one active uniform
/// or attribute.
pub struct ActiveEntry {
    pub name: String,
    pub kind: u32,
    pub size: usize,
    pub location: i32,
}

/// The mathematical value of an [`ActiveEntry`].
#[verifier::ext_equal]
pub struct ActiveEntryView {
    pub name: Seq<char>,
    pub kind: u32,
    pub size: usize,
    pub location: i32,
}

impl View for ActiveEntry {
    type V = ActiveEntryView;

    open spec fn view(&self) -> ActiveEntryView {
        ActiveEntryView { name: self.name@, kind: self.kind, size: self.size, location: self.location }
    }
}

impl DeepView for ActiveEntry {
    type V = ActiveEntryView;

    open spec fn deep_view(&self) -> ActiveEntryView {
        self@
    }
}

/// How many digits stand immediately before position `i`.
pub open spec fn rev_digit_run(s: Seq<char>, i: int) -> nat
    decreases i,
{
    if i <= 0 || i > s.len() || !is_digit(s[i - 1]) {
        0
    } else {
        1 + rev_digit_run(s, i - 1)
    }
}

/// Whether the name ends in an array subscript: a closing bracket, at
/// least one digit before it, and the matching opening bracket.
pub open spec fn has_subscript(s: Seq<char>) -> bool {
    let n = s.len() as int;
    let d = rev_digit_run(s, n - 1) as int;
    &&& n >= 1
    &&& s[n - 1] == ']'
    &&& d >= 1
    &&& n - 2 - d >= 0
    &&& s[n - 2 - d] == '['
}

/// The base name an array uniform is addressed by: the introspected name
/// with its trailing subscript stripped; any other name is kept whole.
pub open spec fn normalized_name(s: Seq<char>) -> Seq<char> {
    if has_subscript(s) {
        s.subrange(0, s.len() - 2 - rev_digit_run(s, s.len() - 1))
    } else {
        s
    }
}

/// Strips a trailing array subscript off an introspected uniform name.
pub fn normalize_uniform_name(name: &str) -> (r: String)
    ensures
        r@ == normalized_name(name@),
{
    let n = name.unicode_len();
    if n == 0 {
        return name.to_owned();
    }
    if name.get_char(n - 1) != ']' {
        return name.to_owned();
    }
    let mut j: usize = n - 1;
    while j > 0 && digit_at(name, j - 1)
        invariant
            j <= n - 1,
            n == name@.len(),
            rev_digit_run(name@, (n - 1) as int) == (n - 1 - j) + rev_digit_run(name@, j as int),
        decreases j,
    {
        j = j - 1;
    }
    proof {
        assert(rev_digit_run(name@, j as int) == 0);
    }
    let d = n - 1 - j;
    if d >= 1 && j >= 1 {
        if name.get_char(j - 1) == '[' {
            proof {
                assert(has_subscript(name@));
            }
            return name.substring_char(0, j - 1).to_owned();
        }
    }
    proof {
        assert(!has_subscript(name@));
    }
    name.to_owned()
}

/// The typed setter one raw uniform record builds: name normalised, kind
/// dispatched, cache zeroed.  Nothing for an unknown value kind.
pub open spec fn spec_build_uniform(e: ActiveEntryView) -> Option<UniformView> {
    match spec_uniform_kind(e.kind, e.size) {
        Some(vkind) => Some(
            UniformView {
                name: normalized_name(e.name),
                kind: e.kind,
                vkind,
                size: e.size,
                location: e.location,
                value: zero_words(vkind, e.size),
            },
        ),
        None => None,
    }
}

/// The typed setter one raw attribute record builds; nothing for an
/// unknown value kind.
pub open spec fn spec_build_attribute(e: ActiveEntryView) -> Option<AttributeView> {
    match spec_attribute_dims(e.kind) {
        Some(dims) => Some(
            AttributeView {
                name: e.name,
                kind: e.kind,
                item_size: dims.0,
                pointer_kind: dims.1,
                size: e.size,
                location: e.location,
            },
        ),
        None => None,
    }
}

/// Builds one typed uniform setter per raw record, in order, normalising
/// array names; fails loudly on the first unknown value kind.
pub fn parse_uniforms(entries: &Vec<ActiveEntry>) -> (r: Result<Vec<Uniform>, ReflectError>)
    ensures
        r is Ok <==> (forall|i: int|
            0 <= i < entries.deep_view().len() ==> spec_build_uniform(
                entries.deep_view()[i],
            ) is Some),
        r matches Ok(us) ==> us.deep_view().len() == entries.deep_view().len() && (forall|i: int|
            0 <= i < entries.deep_view().len() ==> Some(us.deep_view()[i]) == spec_build_uniform(
                entries.deep_view()[i],
            )) && (forall|i: int| 0 <= i < us.deep_view().len() ==> us.deep_view()[i].wf()),
        r matches Err(e) ==> exists|i: int|
            0 <= i < entries.deep_view().len() && spec_build_uniform(
                entries.deep_view()[i],
            ) is None && e == ReflectError::UnknownUniformKind(entries.deep_view()[i].kind),
{
    let mut out: Vec<Uniform> = Vec::new();
    let n = entries.len();
    let mut i: usize = 0;
    while i < n
        invariant
            i <= n,
            n == entries@.len(),
            out.deep_view().len() == i,
            forall|j: int|
                0 <= j < i ==> Some(out.deep_view()[j]) == spec_build_uniform(
                    entries.deep_view()[j],
                ),
            forall|j: int| 0 <= j < i ==> out.deep_view()[j].wf(),
        decreases n - i,
    {
        let entry = &entries[i];
        let name = normalize_uniform_name(entry.name.as_str());
        match new_uniform(name, entry.kind, entry.size, entry.location) {
            Ok(u) => {
                let ghost before = out.deep_view();
                out.push(u);
                proof {
                    assert(out.deep_view() =~= before.push(u@));
                }
            },
            Err(e) => {
                proof {
                    assert(0 <= i < entries.deep_view().len() && spec_build_uniform(
                        entries.deep_view()[i as int],
                    ) is None);
                }
                return Err(e);
            },
        }
        i = i + 1;
    }
    Ok(out)
}

/// Builds one typed attribute setter per raw record, in order; fails
/// loudly on the first unknown value kind.
pub fn parse_attributes(entries: &Vec<ActiveEntry>) -> (r: Result<Vec<Attribute>, ReflectError>)
    ensures
        r is Ok <==> (forall|i: int|
            0 <= i < entries.deep_view().len() ==> spec_build_attribute(
                entries.deep_view()[i],
            ) is Some),
        r matches Ok(ats) ==> ats.deep_view().len() == entries.deep_view().len() && (forall|
            i: int,
        |
            0 <= i < entries.deep_view().len() ==> Some(ats.deep_view()[i]) == spec_build_attribute(
                entries.deep_view()[i],
            )),
        r matches Err(e) ==> exists|i: int|
            0 <= i < entries.deep_view().len() && spec_build_attribute(
                entries.deep_view()[i],
            ) is None && e == ReflectError::UnknownAttributeKind(entries.deep_view()[i].kind),
{
    let mut out: Vec<Attribute> = Vec::new();
    let n = entries.len();
    let mut i: usize = 0;
    while i < n
        invariant
            i <= n,
            n == entries@.len(),
            out.deep_view().len() == i,
            forall|j: int|
                0 <= j < i ==> Some(out.deep_view()[j]) == spec_build_attribute(
                    entries.deep_view()[j],
                ),
        decreases n - i,
    {
        let entry = &entries[i];
        let name = entry.name.clone();
        match new_attribute(name, entry.kind, entry.size, entry.location) {
            Ok(a) => {
                let ghost before = out.deep_view();
                out.push(a);
                proof {
                    assert(out.deep_view() =~= before.push(a@));
                }
            },
            Err(e) => {
                proof {
                    assert(0 <= i < entries.deep_view().len() && spec_build_attribute(
                        entries.deep_view()[i as int],
                    ) is None);
                }
                return Err(e);
            },
        }
        i = i + 1;
    }
    Ok(out)
}

/// The index of the setter a name addresses: the latest entry bearing the
/// name (a duplicate introspection name overwrites an earlier one), or
/// minus one.
pub open spec fn find_uniform(us: Seq<UniformView>, name: Seq<char>) -> int
    decreases us.len(),
{
    if us.len() == 0 {
        -1
    } else if us.last().name == name {
        us.len() - 1
    } else {
        find_uniform(us.drop_last(), name)
    }
}

/// A found index is in range and bears the name; a miss means no entry
/// bears it.
pub proof fn lemma_find_uniform(us: Seq<UniformView>, name: Seq<char>)
    ensures
        find_uniform(us, name) >= 0 ==> 0 <= find_uniform(us, name) < us.len() && us[find_uniform(
            us,
            name,
        )].name == name,
        find_uniform(us, name) < 0 ==> forall|j: int| 0 <= j < us.len() ==> us[j].name != name,
    decreases us.len(),
{
    if us.len() > 0 && us.last().name != name {
        lemma_find_uniform(us.drop_last(), name);
        let idx = find_uniform(us, name);
        if idx >= 0 {
            assert(us.drop_last()[idx] == us[idx]);
        } else {
            assert forall|j: int| 0 <= j < us.len() implies us[j].name != name by {
                if j < us.len() - 1 {
                    assert(us.drop_last()[j] == us[j]);
                }
            }
        }
    }
}

/// The index of the attribute a name addresses, or minus one.
pub open spec fn find_attribute(ats: Seq<AttributeView>, name: Seq<char>) -> int
    decreases ats.len(),
{
    if ats.len() == 0 {
        -1
    } else if ats.last().name == name {
        ats.len() - 1
    } else {
        find_attribute(ats.drop_last(), name)
    }
}

/// A found index is in range and bears the name; a miss means no entry
/// bears it.
pub proof fn lemma_find_attribute(ats: Seq<AttributeView>, name: Seq<char>)
    ensures
        find_attribute(ats, name) >= 0 ==> 0 <= find_attribute(ats, name) < ats.len() && ats[
            find_attribute(ats, name)
        ].name == name,
        find_attribute(ats, name) < 0 ==> forall|j: int| 0 <= j < ats.len() ==> ats[j].name
            != name,
    decreases ats.len(),
{
    if ats.len() > 0 && ats.last().name != name {
        lemma_find_attribute(ats.drop_last(), name);
        let idx = find_attribute(ats, name);
        if idx >= 0 {
            assert(ats.drop_last()[idx] == ats[idx]);
        } else {
            assert forall|j: int| 0 <= j < ats.len() implies ats[j].name != name by {
                if j < ats.len() - 1 {
                    assert(ats.drop_last()[j] == ats[j]);
                }
            }
        }
    }
}

/// Copies a word vector.
fn clone_words(v: &Vec<u32>) -> (r: Vec<u32>)
    ensures
        r@ == v@,
{
    let mut out: Vec<u32> = Vec::new();
    let n = v.len();
    let mut i: usize = 0;
    while i < n
        invariant
            i <= n,
            n == v@.len(),
            out@ =~= v@.take(i as int),
        decreases n - i,
    {
        out.push(v[i]);
        proof {
            assert(v@.take(i + 1) =~= v@.take(i as int).push(v@[i as int]));
        }
        i = i + 1;
    }
    proof {
        assert(v@.take(v@.len() as int) =~= v@);
    }
    out
}

/// Owns one native program id — zero until a program is attached — plus
/// the reflected maps from name to typed uniform and attribute setter.
/// Move-only, like every resource handle of this library.
pub struct Program {
    pub id: u32,
    pub uniforms: Vec<Uniform>,
    pub attributes: Vec<Attribute>,
}

impl Program {
    /// An empty program: no native id attached, empty setter maps.
    pub fn new() -> (r: Self)
        ensures
            r.id == 0,
            r.uniforms.deep_view() == Seq::<UniformView>::empty(),
            r.attributes.deep_view() == Seq::<AttributeView>::empty(),
    {
        let r = Program { id: 0, uniforms: Vec::new(), attributes: Vec::new() };
        proof {
            assert(r.uniforms.deep_view() =~= Seq::<UniformView>::empty());
            assert(r.attributes.deep_view() =~= Seq::<AttributeView>::empty());
        }
        r
    }

    pub fn id(&self) -> (r: u32)
        ensures
            r == self.id,
    {
        self.id
    }

    /// Adopts a freshly linked native program id and rebuilds both setter
    /// maps in full from the raw reflection records; on an unknown value
    /// kind the program is left untouched and the error handed up — no
    /// partial rebuild survives.
    pub fn set_program_id(
        &mut self,
        id: u32,
        uniform_entries: &Vec<ActiveEntry>,
        attribute_entries: &Vec<ActiveEntry>,
    ) -> (r: Result<(), ReflectError>)
        ensures
            r is Ok <==> ((forall|i: int|
                0 <= i < uniform_entries.deep_view().len() ==> spec_build_uniform(
                    uniform_entries.deep_view()[i],
                ) is Some) && (forall|i: int|
                0 <= i < attribute_entries.deep_view().len() ==> spec_build_attribute(
                    attribute_entries.deep_view()[i],
                ) is Some)),
            r is Ok ==> ({
                &&& final(self).id == id
                &&& final(self).uniforms.deep_view().len() == uniform_entries.deep_view().len()
                &&& forall|i: int|
                    0 <= i < uniform_entries.deep_view().len() ==> Some(
                        #[trigger] final(self).uniforms.deep_view()[i],
                    ) == spec_build_uniform(uniform_entries.deep_view()[i])
                &&& forall|i: int|
                    0 <= i < uniform_entries.deep_view().len()
                        ==> (#[trigger] final(self).uniforms.deep_view()[i]).wf()
                &&& final(self).attributes.deep_view().len()
                    == attribute_entries.deep_view().len()
                &&& forall|i: int|
                    0 <= i < attribute_entries.deep_view().len() ==> Some(
                        #[trigger] final(self).attributes.deep_view()[i],
                    ) == spec_build_attribute(attribute_entries.deep_view()[i])
            }),
            r is Err ==> ({
                &&& final(self).id == old(self).id
                &&& final(self).uniforms.deep_view() == old(self).uniforms.deep_view()
                &&& final(self).attributes.deep_view() == old(self).attributes.deep_view()
            }),
    {
        let uniforms = match parse_uniforms(uniform_entries) {
            Ok(us) => us,
            Err(e) => {
                return Err(e);
            },
        };
        let attributes = match parse_attributes(attribute_entries) {
            Ok(ats) => ats,
            Err(e) => {
                return Err(e);
            },
        };
        self.id = id;
        self.uniforms = uniforms;
        self.attributes = attributes;
        Ok(())
    }

    /// Whether a uniform of this base name was reflected.
    pub fn has_uniform(&self, name: &str) -> (r: bool)
        ensures
            r == (find_uniform(self.uniforms.deep_view(), name@) >= 0),
    {
        self.find_uniform_index(name).is_some()
    }

    /// The reflected uniform setters, in introspection order.
    pub fn uniforms(&self) -> (r: &Vec<Uniform>)
        ensures
            r.deep_view() == self.uniforms.deep_view(),
    {
        &self.uniforms
    }

    /// Whether an attribute of this name was reflected.
    pub fn has_attribute(&self, name: &str) -> (r: bool)
        ensures
            r == (find_attribute(self.attributes.deep_view(), name@) >= 0),
    {
        self.find_attribute_index(name).is_some()
    }

    /// The reflected attribute setters, in introspection order.
    pub fn attributes(&self) -> (r: &Vec<Attribute>)
        ensures
            r.deep_view() == self.attributes.deep_view(),
    {
        &self.attributes
    }

    /// The index of the setter `name` addresses, if any.
    fn find_uniform_index(&self, name: &str) -> (r: Option<usize>)
        ensures
            match r {
                Some(i) => i as int == find_uniform(self.uniforms.deep_view(), name@),
                None => find_uniform(self.uniforms.deep_view(), name@) == -1,
            },
    {
        let ghost dv = self.uniforms.deep_view();
        let n = self.uniforms.len();
        proof {
            assert(dv.len() == n);
            assert(dv.take(n as int) =~= dv);
        }
        let mut i: usize = n;
        while i > 0
            invariant
                i <= n,
                n == dv.len(),
                dv == self.uniforms.deep_view(),
                find_uniform(dv, name@) == find_uniform(dv.take(i as int), name@),
            decreases i,
        {
            if str_eq(name, self.uniforms[i - 1].name.as_str()) {
                proof {
                    assert(dv.take(i as int).last() == dv[i - 1]);
                }
                return Some(i - 1);
            }
            proof {
                assert(dv.take(i as int).drop_last() =~= dv.take(i - 1));
            }
            i = i - 1;
        }
        proof {
            assert(dv.take(0).len() == 0);
        }
        None
    }

    /// The index of the attribute `name` addresses, if any.
    fn find_attribute_index(&self, name: &str) -> (r: Option<usize>)
        ensures
            match r {
                Some(i) => i as int == find_attribute(self.attributes.deep_view(), name@),
                None => find_attribute(self.attributes.deep_view(), name@) == -1,
            },
    {
        let ghost dv = self.attributes.deep_view();
        let n = self.attributes.len();
        proof {
            assert(dv.len() == n);
            assert(dv.take(n as int) =~= dv);
        }
        let mut i: usize = n;
        while i > 0
            invariant
                i <= n,
                n == dv.len(),
                dv == self.attributes.deep_view(),
                find_attribute(dv, name@) == find_attribute(dv.take(i as int), name@),
            decreases i,
        {
            if str_eq(name, self.attributes[i - 1].name.as_str()) {
                proof {
                    assert(dv.take(i as int).last() == dv[i - 1]);
                }
                return Some(i - 1);
            }
            proof {
                assert(dv.take(i as int).drop_last() =~= dv.take(i - 1));
            }
            i = i - 1;
        }
        proof {
            assert(dv.take(0).len() == 0);
        }
        None
    }

    /// Checked set of the uniform `name` addresses: the setter's cached
    /// comparison decides whether anything is uploaded.
    pub fn set_uniform(
        &mut self,
        name: &str,
        context: &mut Context,
        value: &UniformValue,
        force: bool,
    ) -> (changed: bool)
        requires
            find_uniform(old(self).uniforms.deep_view(), name@) >= 0,
            ({
                let u = old(self).uniforms.deep_view()[find_uniform(
                    old(self).uniforms.deep_view(),
                    name@,
                )];
                u.wf() && value_fits(u.vkind, u.size, *value) && (u.vkind
                    == UniformKind::Sampler2D ==> old(context)@.texture_index < 0x7FFF_0000)
            }),
        ensures
            ({
                let idx = find_uniform(old(self).uniforms.deep_view(), name@);
                let u = old(self).uniforms.deep_view()[idx];
                &&& changed == spec_uniform_changed(u, *value, force)
                &&& final(self).uniforms.deep_view() == old(self).uniforms.deep_view().update(
                    idx,
                    spec_uniform_after(u, *value, force),
                )
                &&& final(self).id == old(self).id
                &&& final(self).attributes.deep_view() == old(self).attributes.deep_view()
                &&& uniform_set_post(u, old(context)@, final(context)@, *value, force, changed)
            }),
    {
        proof {
            lemma_find_uniform(self.uniforms.deep_view(), name@);
        }
        let idx = match self.find_uniform_index(name) {
            Some(i) => i,
            None => unreached(),
        };
        let entry = &self.uniforms[idx];
        let mut setter = Uniform {
            name: entry.name.clone(),
            kind: entry.kind,
            vkind: entry.vkind,
            size: entry.size,
            location: entry.location,
            value: clone_words(&entry.value),
        };
        proof {
            assert(setter@ =~= old(self).uniforms.deep_view()[idx as int]);
        }
        let changed = setter.set(context, value, force);
        self.uniforms[idx] = setter;
        proof {
            assert(final(self).uniforms.deep_view() =~= old(self).uniforms.deep_view().update(
                idx as int,
                spec_uniform_after(
                    old(self).uniforms.deep_view()[idx as int],
                    *value,
                    force,
                ),
            ));
        }
        changed
    }

    /// Unchecked set of the uniform `name` addresses: always uploads.
    pub fn set_uniform_unchecked(
        &mut self,
        name: &str,
        context: &mut Context,
        value: &UniformValue,
        force: bool,
    ) -> (changed: bool)
        requires
            find_uniform(old(self).uniforms.deep_view(), name@) >= 0,
            ({
                let u = old(self).uniforms.deep_view()[find_uniform(
                    old(self).uniforms.deep_view(),
                    name@,
                )];
                u.wf() && value_fits(u.vkind, u.size, *value) && (u.vkind
                    == UniformKind::Sampler2D ==> old(context)@.texture_index < 0x7FFF_0000)
            }),
        ensures
            ({
                let idx = find_uniform(old(self).uniforms.deep_view(), name@);
                let u = old(self).uniforms.deep_view()[idx];
                &&& changed
                &&& final(self).uniforms.deep_view() == old(self).uniforms.deep_view().update(
                    idx,
                    spec_uniform_after_unchecked(u, *value),
                )
                &&& final(self).id == old(self).id
                &&& final(self).attributes.deep_view() == old(self).attributes.deep_view()
                &&& uniform_set_post(u, old(context)@, final(context)@, *value, force, changed)
            }),
    {
        proof {
            lemma_find_uniform(self.uniforms.deep_view(), name@);
        }
        let idx = match self.find_uniform_index(name) {
            Some(i) => i,
            None => unreached(),
        };
        let entry = &self.uniforms[idx];
        let mut setter = Uniform {
            name: entry.name.clone(),
            kind: entry.kind,
            vkind: entry.vkind,
            size: entry.size,
            location: entry.location,
            value: clone_words(&entry.value),
        };
        proof {
            assert(setter@ =~= old(self).uniforms.deep_view()[idx as int]);
        }
        let changed = setter.set_unchecked(context, value, force);
        self.uniforms[idx] = setter;
        proof {
            assert(final(self).uniforms.deep_view() =~= old(self).uniforms.deep_view().update(
                idx as int,
                spec_uniform_after_unchecked(
                    old(self).uniforms.deep_view()[idx as int],
                    *value,
                ),
            ));
        }
        changed
    }

    /// Binds `buffer` through the cache and re-points the attribute `name`
    /// addresses into it.
    pub fn set_attribute(
        &mut self,
        name: &str,
        context: &mut Context,
        buffer: &Buffer,
        offset: usize,
        force: bool,
    ) -> (changed: bool)
        requires
            find_attribute(old(self).attributes.deep_view(), name@) >= 0,
            ({
                let a = old(self).attributes.deep_view()[find_attribute(
                    old(self).attributes.deep_view(),
                    name@,
                )];
                &&& 0 <= a.location
                &&& a.location < old(context)@.enabled_attributes.len()
                &&& buffer.stride * buffer.kind_size <= usize::MAX
                &&& offset * buffer.kind_size <= usize::MAX
            }),
        ensures
            *final(self) == *old(self),
            ({
                let a = old(self).attributes.deep_view()[find_attribute(
                    old(self).attributes.deep_view(),
                    name@,
                )];
                let after_buffer = spec_set_buffer(old(context)@, buffer.id, buffer.kind, force).0;
                (final(context)@, changed) == spec_set_attrib_pointer(
                    after_buffer,
                    a.location as u32,
                    a.item_size,
                    a.pointer_kind,
                    (buffer.stride * buffer.kind_size) as usize,
                    (offset * buffer.kind_size) as usize,
                    force,
                )
            }),
    {
        proof {
            lemma_find_attribute(self.attributes.deep_view(), name@);
        }
        let idx = match self.find_attribute_index(name) {
            Some(i) => i,
            None => unreached(),
        };
        let attribute = &self.attributes[idx];
        attribute.set(context, buffer, offset, force)
    }
}

/// Name normalization: a uniform introspected under an array subscript of
/// index zero is addressable by its base name — normalization strips the
/// subscript, whatever the base name is.
pub proof fn lemma_normalize_strips_zero_subscript(base: Seq<char>)
    ensures
        normalized_name(base + seq!['[', '0', ']']) == base,
{
    let s = base + seq!['[', '0', ']'];
    let n = s.len() as int;
    assert(s[n - 1] == ']');
    assert(s[n - 2] == '0');
    assert(s[n - 3] == '[');
    assert(rev_digit_run(s, n - 1) == 1) by {
        assert(is_digit(s[n - 2]));
        assert(!is_digit(s[n - 3]) || n - 2 <= 0);
        assert(rev_digit_run(s, n - 2) == 0);
    }
    assert(has_subscript(s));
    assert(s.subrange(0, n - 3) =~= base);
}


} // verus!
