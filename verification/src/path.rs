//! Paths as text.
use vstd::prelude::*;
use vstd::string::*;


verus! {

/// A relative name appended to a path.
pub open spec fn joined_path(base: Seq<char>, name: Seq<char>) -> Seq<char> {
    if base.len() == 0 {
        name
    } else if base.last() == '/' {
        base + name
    } else {
        base + "/"@ + name
    }
}

/// Append a relative name to a path.
pub fn join_path(base: &str, name: &str) -> (r: String)
    ensures
        r@ == joined_path(base@, name@),
{
    let n: usize = base.unicode_len();
    if n == 0 {
        name.to_owned()
    } else if base.get_char(n - 1) == '/' {
        base.to_owned().concat(name)
    } else {
        base.to_owned().concat("/").concat(name)
    }
}

/// A path with another file extension.
pub uninterp spec fn path_with_extension(path: Seq<char>, extension: Seq<char>) -> Seq<char>;

/// `Path::with_extension`: the path with the given extension in place of its own.
/// What counts as the extension of a path is named rather than stated.
#[verifier::external_body]
pub(crate) fn with_extension(path: &str, extension: &str) -> (r: String)
    requires
        !extension@.contains('/'),
    ensures
        r@ == path_with_extension(path@, extension@),
{
    std::path::Path::new(path).with_extension(extension).to_string_lossy().into_owned()
}

/// A joined path starts with the one path and ends with the other, with a slash between
/// them where the first has none at its end.
pub proof fn joined_paths_hold_both(base: Seq<char>, name: Seq<char>)
    requires
        base.len() > 0,
    ensures
        joined_path(base, name) == (if base.last() == '/' {
            base
        } else {
            base.push('/')
        }) + name,
        joined_path(Seq::empty(), name) == name,
{
    reveal_strlit("/");
    assert(base + "/"@ == base.push('/'));
}

} // verus!
