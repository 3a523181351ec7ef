//! Device capability snapshot: the raw values an executor reads from the
//! native context once, and the verified computations that turn them into
//! the cache's capability fields (version grammar, shading-language version
//! tier, float-precision tier, extension-list splitting).

use vstd::prelude::*;
use vstd::string::StrSliceExecFns;

verus! {

/// Float precision tier of the device's shaders.
#[derive(Debug, Copy, Clone, Eq, PartialEq, Ord, PartialOrd, Hash, Structural)]
pub enum Precision {
    High,
    Medium,
    Low,
}

/// What the executor reads from the native context at initialisation, as
/// plain values.  The cache derives its capability snapshot from this alone.
pub struct DeviceInfo {
    /// The version string the backend reports.
    pub version: String,
    /// The integer major version the backend reports.
    pub queried_major: usize,
    /// The integer minor version the backend reports.
    pub queried_minor: usize,
    /// Precision digits of high-float in the vertex shader.
    pub vs_high_float_precision: i32,
    /// Precision digits of medium-float in the vertex shader.
    pub vs_mediump_float_precision: i32,
    /// Precision digits of high-float in the fragment shader.
    pub fs_high_float_precision: i32,
    /// Precision digits of medium-float in the fragment shader.
    pub fs_mediump_float_precision: i32,
    /// The extension names, one string each, as reported by indexed queries.
    pub extension_list: Vec<String>,
    /// The single whitespace-separated extension string of older contexts.
    pub extension_blob: String,
    pub max_textures: usize,
    pub max_vertex_textures: usize,
    pub max_texture_size: usize,
    pub max_cube_texture_size: usize,
    pub max_render_buffer_size: usize,
    pub vs_max_uniforms: usize,
    pub fs_max_uniforms: usize,
    pub max_varyings: usize,
    pub max_attributes: usize,
}

/// Whether `c` is a decimal digit.
pub open spec fn is_digit(c: char) -> bool {
    '0' <= c && c <= '9'
}

/// The numeric value of the digit `c`.
pub open spec fn digit_val(c: char) -> int {
    c as int - '0' as int
}

/// Length of the digit run starting at `i`.
pub open spec fn digit_run_len(s: Seq<char>, i: int) -> nat
    decreases s.len() - i,
{
    if i < 0 || i >= s.len() || !is_digit(s[i]) {
        0
    } else {
        1 + digit_run_len(s, i + 1)
    }
}

/// The number denoted by a sequence of digits, most significant first.
pub open spec fn digits_value(s: Seq<char>) -> int
    decreases s.len(),
{
    if s.len() == 0 {
        0
    } else {
        digits_value(s.drop_last()) * 10 + digit_val(s.last())
    }
}

/// Cap applied to parsed version components.
pub const VERSION_COMPONENT_CAP: u32 = 0xFFFF;

/// The number denoted by a digit run, saturated at the component cap.
pub open spec fn run_value(s: Seq<char>) -> u32 {
    if digits_value(s) > VERSION_COMPONENT_CAP {
        VERSION_COMPONENT_CAP
    } else {
        digits_value(s) as u32
    }
}

/// The `major.minor` pair read at position `i`: a nonempty digit run, a
/// dot, and a second nonempty digit run, each run taken maximally.
pub open spec fn version_pair_at(s: Seq<char>, i: int) -> Option<(u32, u32)> {
    let a = digit_run_len(s, i) as int;
    let b = digit_run_len(s, i + a + 1) as int;
    if a > 0 && i + a < s.len() && s[i + a] == '.' && b > 0 {
        Some(
            (run_value(s.subrange(i, i + a)), run_value(s.subrange(i + a + 1, i + a + 1 + b))),
        )
    } else {
        None
    }
}

/// The first `major.minor` pair found scanning `s` from position `i`.
pub open spec fn spec_parse_version(s: Seq<char>, i: int) -> Option<(u32, u32)>
    decreases s.len() - i,
{
    if i < 0 || i >= s.len() {
        None
    } else if version_pair_at(s, i) is Some {
        version_pair_at(s, i)
    } else {
        spec_parse_version(s, i + 1)
    }
}

/// Whether `c` separates extension names.
pub open spec fn is_space(c: char) -> bool {
    c == ' ' || c == '\t' || c == '\n' || c == '\r'
}

/// Length of the word (maximal run free of separators) starting at `i`.
pub open spec fn word_len(s: Seq<char>, i: int) -> nat
    decreases s.len() - i,
{
    if i < 0 || i >= s.len() || is_space(s[i]) {
        0
    } else {
        1 + word_len(s, i + 1)
    }
}

/// The words of `s` from position `i` on, in order, separators dropped.
pub open spec fn spec_split_words(s: Seq<char>, i: int) -> Seq<Seq<char>>
    decreases s.len() - i,
{
    if i < 0 || i >= s.len() {
        Seq::empty()
    } else if is_space(s[i]) {
        spec_split_words(s, i + 1)
    } else {
        let w = 1 + word_len(s, i + 1);
        let j = if i + w <= s.len() {
            i + w
        } else {
            s.len() as int
        };
        seq![s.subrange(i, j)] + spec_split_words(s, j)
    }
}

/// The precision tier the device supports: high if both shaders have
/// high-float precision, else medium if both have medium-float precision,
/// else low.
pub open spec fn spec_precision(
    vs_high: i32,
    fs_high: i32,
    vs_medium: i32,
    fs_medium: i32,
) -> Precision {
    if vs_high > 0 && fs_high > 0 {
        Precision::High
    } else if vs_medium > 0 && fs_medium > 0 {
        Precision::Medium
    } else {
        Precision::Low
    }
}

/// The shading-language version tier of a context version: the legacy
/// ladder up to version 3.2, the context version itself beyond it.
pub open spec fn spec_glsl_version(major: usize, minor: usize) -> (usize, usize) {
    if major <= 3 && minor <= 2 {
        if major == 3 && minor == 2 {
            (1usize, 5usize)
        } else if major == 3 && minor == 1 {
            (1usize, 4usize)
        } else if major == 3 && minor == 0 {
            (1usize, 3usize)
        } else if major == 2 && minor == 1 {
            (1usize, 2usize)
        } else {
            (1usize, 1usize)
        }
    } else {
        (major, minor)
    }
}

/// Maps a context version to its shading-language version.
pub fn glsl_version(major: usize, minor: usize) -> (r: (usize, usize))
    ensures
        r == spec_glsl_version(major, minor),
{
    if major <= 3 && minor <= 2 {
        if major == 3 && minor == 2 {
            (1, 5)
        } else if major == 3 && minor == 1 {
            (1, 4)
        } else if major == 3 && minor == 0 {
            (1, 3)
        } else if major == 2 && minor == 1 {
            (1, 2)
        } else {
            (1, 1)
        }
    } else {
        (major, minor)
    }
}

/// Compares two strings by contents.
pub fn str_eq(a: &str, b: &str) -> (r: bool)
    ensures
        r == (a@ == b@),
{
    let a_len = a.unicode_len();
    let b_len = b.unicode_len();
    if a_len != b_len {
        return false;
    }
    let mut i: usize = 0;
    while i < a_len
        invariant
            a_len == a@.len(),
            a_len == b@.len(),
            i <= a_len,
            forall|j: int| 0 <= j < i ==> a@[j] == b@[j],
        decreases a_len - i,
    {
        if a.get_char(i) != b.get_char(i) {
            return false;
        }
        i = i + 1;
    }
    proof {
        assert(a@ =~= b@);
    }
    true
}

/// Whether the character of `s` at `i` is a decimal digit.
pub(crate) fn digit_at(s: &str, i: usize) -> (r: bool)
    requires
        i < s@.len(),
    ensures
        r == is_digit(s@[i as int]),
{
    let c = s.get_char(i);
    '0' <= c && c <= '9'
}

/// Whether the character of `s` at `i` separates extension names.
fn space_at(s: &str, i: usize) -> (r: bool)
    requires
        i < s@.len(),
    ensures
        r == is_space(s@[i as int]),
{
    let c = s.get_char(i);
    c == ' ' || c == '\t' || c == '\n' || c == '\r'
}

/// Length of the digit run of `s` starting at `i`.
fn digit_run(s: &str, i: usize) -> (r: usize)
    requires
        i <= s@.len(),
    ensures
        r == digit_run_len(s@, i as int),
        i + r <= s@.len(),
        forall|k: int| i <= k < i + r ==> is_digit(s@[k]),
{
    let n = s.unicode_len();
    let mut j: usize = i;
    while j < n && digit_at(s, j)
        invariant
            i <= j <= n,
            n == s@.len(),
            digit_run_len(s@, i as int) == j - i + digit_run_len(s@, j as int),
            forall|k: int| i <= k < j ==> is_digit(s@[k]),
        decreases n - j,
    {
        j = j + 1;
    }
    j - i
}

/// Value of the digit run `s[i .. i + len]`, saturated at the component
/// cap.
fn run_value_of(s: &str, i: usize, len: usize) -> (r: u32)
    requires
        i + len <= s@.len(),
        s@.len() <= usize::MAX,
        forall|k: int| i <= k < i + len ==> is_digit(s@[k]),
    ensures
        r == run_value(s@.subrange(i as int, i + len)),
{
    let mut value: u64 = 0;
    let mut k: usize = 0;
    proof {
        assert(s@.subrange(i as int, i as int) =~= Seq::<char>::empty());
    }
    while k < len
        invariant
            k <= len,
            i + len <= s@.len(),
            s@.len() <= usize::MAX,
            forall|j: int| i <= j < i + len ==> is_digit(s@[j]),
            value <= VERSION_COMPONENT_CAP ==> value == digits_value(
                s@.subrange(i as int, i + k),
            ),
            value > VERSION_COMPONENT_CAP ==> value == VERSION_COMPONENT_CAP + 1
                && digits_value(s@.subrange(i as int, i + k)) > VERSION_COMPONENT_CAP,
        decreases len - k,
    {
        let c = s.get_char(i + k);
        let d: u32 = (c as u32) - 48;
        let ghost prefix = s@.subrange(i as int, i + k);
        let ghost extended = s@.subrange(i as int, i + k + 1);
        proof {
            assert(extended.drop_last() =~= prefix);
            assert(extended.last() == s@[i + k]);
            assert(digits_value(extended) == digits_value(prefix) * 10 + digit_val(s@[i + k]));
        }
        if value > VERSION_COMPONENT_CAP as u64 {
            proof {
                assert(digits_value(prefix) > VERSION_COMPONENT_CAP);
                assert(digits_value(prefix) * 10 >= digits_value(prefix)) by (nonlinear_arith)
                    requires
                        digits_value(prefix) > 0,
                ;
            }
        } else {
            let next: u64 = value * 10 + d as u64;
            if next > VERSION_COMPONENT_CAP as u64 {
                value = VERSION_COMPONENT_CAP as u64 + 1;
            } else {
                value = next;
            }
        }
        k = k + 1;
    }
    proof {
        assert(s@.subrange(i as int, i + len) == s@.subrange(i as int, i + k));
    }
    if value > VERSION_COMPONENT_CAP as u64 {
        VERSION_COMPONENT_CAP
    } else {
        value as u32
    }
}

/// Finds the first `major.minor` pair in `s`: the version grammar of the
/// backend's version string.
pub fn parse_version_pair(s: &str) -> (r: Option<(u32, u32)>)
    ensures
        r == spec_parse_version(s@, 0),
{
    let n = s.unicode_len();
    let mut i: usize = 0;
    while i < n
        invariant
            i <= n,
            n == s@.len(),
            spec_parse_version(s@, 0) == spec_parse_version(s@, i as int),
        decreases n - i,
    {
        let a = digit_run(s, i);
        if a > 0 && i + a < n {
            if s.get_char(i + a) == '.' {
                let b = digit_run(s, i + a + 1);
                if b > 0 {
                    let major = run_value_of(s, i, a);
                    let minor = run_value_of(s, i + a + 1, b);
                    proof {
                        assert(version_pair_at(s@, i as int) == Some((major, minor)));
                    }
                    return Some((major, minor));
                }
            }
        }
        proof {
            assert(version_pair_at(s@, i as int) is None);
        }
        i = i + 1;
    }
    None
}

/// Splits a whitespace-separated extension string into its names.
pub fn split_words(s: &str) -> (r: Vec<String>)
    ensures
        r.deep_view() == spec_split_words(s@, 0),
{
    let n = s.unicode_len();
    let mut out: Vec<String> = Vec::new();
    let mut i: usize = 0;
    while i < n
        invariant
            i <= n,
            n == s@.len(),
            out.deep_view() + spec_split_words(s@, i as int) == spec_split_words(s@, 0),
        decreases n - i,
    {
        let c = s.get_char(i);
        if c == ' ' || c == '\t' || c == '\n' || c == '\r' {
            i = i + 1;
        } else {
            let mut j: usize = i + 1;
            while j < n && !space_at(s, j)
                invariant
                    i < j <= n,
                    n == s@.len(),
                    word_len(s@, i as int) == j - i + word_len(s@, j as int),
                    forall|k: int| i <= k < j ==> !is_space(s@[k]),
                decreases n - j,
            {
                j = j + 1;
            }
            let word = s.substring_char(i, j).to_owned();
            proof {
                assert(word@ == s@.subrange(i as int, j as int));
                assert(spec_split_words(s@, i as int) == seq![s@.subrange(i as int, j as int)]
                    + spec_split_words(s@, j as int));
                let pushed = out@.push(word);
                assert(pushed.map(|k: int, v: String| v.deep_view()) =~= out.deep_view().push(
                    word@,
                ));
            }
            out.push(word);
            proof {
                assert(out.deep_view() + spec_split_words(s@, j as int) =~= spec_split_words(
                    s@,
                    0,
                ));
            }
            i = j;
        }
    }
    proof {
        assert(out.deep_view() + spec_split_words(s@, i as int) =~= out.deep_view());
        assert(out.deep_view() =~= spec_split_words(s@, 0));
    }
    out
}

} // verus!
