//! Shader resources: which stage a resource holds, which resources make a
//! program, and the errors met while building one.
use vstd::prelude::*;
use vstd::string::*;

verus! {

/// A pipeline stage that a shader source is compiled for.
#[derive(Clone, Copy, Debug, PartialEq, Eq, Structural)]
pub enum ShaderKind {
    Vertex,
    Fragment,
}

/// What can go wrong while a shader program is loaded, compiled and linked.
#[derive(Clone, Debug)]
pub enum Error {
    /// The resource could not be read; `inner` describes why.
    ResourceLoad { name: String, inner: String },
    /// The resource name carries neither shader extension.
    CanNotDetermineShaderTypeForResource { name: String },
    /// The driver's compiler rejected the source; `message` is its log.
    CompileError { name: String, message: String },
    /// The driver's linker rejected the program; `message` is its log.
    LinkError { name: String, message: String },
}

/// `suffix` ends `s`.
pub open spec fn has_suffix(s: Seq<char>, suffix: Seq<char>) -> bool {
    suffix.len() <= s.len() && s.subrange(s.len() - suffix.len(), s.len() as int) == suffix
}

/// Whether `suffix` ends `s`, compared character by character.
pub fn ends_with(s: &str, suffix: &str) -> (r: bool)
    ensures
        r == has_suffix(s@, suffix@),
{
    let n = s.unicode_len();
    let m = suffix.unicode_len();
    if m > n {
        return false;
    }
    let start = n - m;
    let mut i: usize = 0;
    while i < m
        invariant
            n == s@.len(),
            m == suffix@.len(),
            m <= n,
            start == n - m,
            i <= m,
            forall|j: int| 0 <= j < i ==> s@[start + j] == suffix@[j],
        decreases m - i,
    {
        if s.get_char(start + i) != suffix.get_char(i) {
            assert(s@.subrange(start as int, n as int)[i as int] != suffix@[i as int]);
            return false;
        }
        i = i + 1;
    }
    assert(s@.subrange(start as int, n as int) =~= suffix@);
    true
}

/// The stage a resource holds, told by its name: `.vert` before `.frag`.
pub open spec fn kind_of_name(name: Seq<char>) -> Option<ShaderKind> {
    if has_suffix(name, ".vert"@) {
        Some(ShaderKind::Vertex)
    } else if has_suffix(name, ".frag"@) {
        Some(ShaderKind::Fragment)
    } else {
        None
    }
}

/// The stage of the shader resource `name`, or the error naming the
/// resource where its extension tells none.
pub fn shader_kind_for(name: &str) -> (r: Result<ShaderKind, Error>)
    ensures
        kind_of_name(name@) matches Some(k) ==> r == Ok::<ShaderKind, Error>(k),
        kind_of_name(name@) is None ==> (r matches Err(
            Error::CanNotDetermineShaderTypeForResource { name: n },
        ) && n@ == name@),
{
    if ends_with(name, ".vert") {
        Ok(ShaderKind::Vertex)
    } else if ends_with(name, ".frag") {
        Ok(ShaderKind::Fragment)
    } else {
        Err(Error::CanNotDetermineShaderTypeForResource { name: String::from_str(name) })
    }
}

/// The two resources a program named `name` is built from: its vertex
/// stage, then its fragment stage.
pub fn program_resource_names(name: &str) -> (r: Vec<String>)
    ensures
        r@.len() == 2,
        r@[0]@ == name@ + ".vert"@,
        r@[1]@ == name@ + ".frag"@,
        kind_of_name(r@[0]@) == Some(ShaderKind::Vertex),
        kind_of_name(r@[1]@) == Some(ShaderKind::Fragment),
{
    let mut vert = String::from_str(name);
    vert.append(".vert");
    let mut frag = String::from_str(name);
    frag.append(".frag");
    proof {
        reveal_strlit(".vert");
        reveal_strlit(".frag");
        let v = name@ + ".vert"@;
        let f = name@ + ".frag"@;
        assert(v.subrange(v.len() - 5, v.len() as int) =~= ".vert"@);
        assert(f.subrange(f.len() - 5, f.len() as int) =~= ".frag"@);
        assert(f.subrange(f.len() - 5, f.len() as int) != ".vert"@) by {
            assert(f.subrange(f.len() - 5, f.len() as int)[1] != ".vert"@[1]);
        }
    }
    let mut r: Vec<String> = Vec::new();
    r.push(vert);
    r.push(frag);
    r
}

/// The text that reports `e`.
pub open spec fn error_text(e: Error) -> Seq<char> {
    match e {
        Error::ResourceLoad { name, .. } => "Failed to load resource "@ + name@,
        Error::CanNotDetermineShaderTypeForResource { name } =>
            "Can not determine shader type for resource "@ + name@,
        Error::CompileError { name, message } =>
            "Failed to compile shader "@ + name@ + ": "@ + message@,
        Error::LinkError { name, message } =>
            "Failed to link program "@ + name@ + ": "@ + message@,
    }
}

impl Error {
    /// The text that reports this error, naming the resource at fault.
    pub fn message(&self) -> (r: String)
        ensures
            r@ == error_text(*self),
    {
        match self {
            Error::ResourceLoad { name, .. } => {
                let mut r = String::from_str("Failed to load resource ");
                r.append(name.as_str());
                r
            },
            Error::CanNotDetermineShaderTypeForResource { name } => {
                let mut r = String::from_str("Can not determine shader type for resource ");
                r.append(name.as_str());
                r
            },
            Error::CompileError { name, message } => {
                let mut r = String::from_str("Failed to compile shader ");
                r.append(name.as_str());
                r.append(": ");
                r.append(message.as_str());
                r
            },
            Error::LinkError { name, message } => {
                let mut r = String::from_str("Failed to link program ");
                r.append(name.as_str());
                r.append(": ");
                r.append(message.as_str());
                r
            },
        }
    }
}

/// A buffer of `len` copies of `fill`, for the driver to write a log into.
pub fn filled_buffer(len: usize, fill: u8) -> (r: Vec<u8>)
    ensures
        r@ == Seq::new(len as nat, |_i: int| fill),
{
    let mut r: Vec<u8> = Vec::new();
    let mut i: usize = 0;
    while i < len
        invariant
            i <= len,
            r@ == Seq::new(i as nat, |_i: int| fill),
        decreases len - i,
    {
        r.push(fill);
        i = i + 1;
        assert(r@ =~= Seq::new(i as nat, |_i: int| fill));
    }
    r
}

} // verus!
