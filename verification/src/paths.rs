//! Filesystem paths held as strings, joined the way `PathBuf::join` joins
//! them on Unix.
use vstd::prelude::*;
use crate::text::{chars_of, push_char, push_str};

verus! {

/// `base` joined with `component`: an absolute component replaces the base;
/// an empty base gives the component; otherwise a '/' is put between them
/// unless the base already ends with one.
pub open spec fn path_join(base: Seq<char>, component: Seq<char>) -> Seq<char> {
    if component.len() > 0 && component[0] == '/' {
        component
    } else if base.len() == 0 {
        component
    } else if base.last() == '/' {
        base + component
    } else {
        base + seq!['/'] + component
    }
}

/// Joins a path component onto a base path.
pub fn join_path(base: &str, component: &str) -> (r: String)
    ensures
        r@ == path_join(base@, component@),
{
    let b = chars_of(base);
    let c = chars_of(component);
    if c.len() > 0 && c[0] == '/' {
        return component.to_owned();
    }
    if b.len() == 0 {
        return component.to_owned();
    }
    let mut r = base.to_owned();
    if b[b.len() - 1] != '/' {
        push_char(&mut r, '/');
    }
    push_str(&mut r, component);
    r
}

/// `Path::exists`: whether the path names an existing file or directory.
/// The answer depends on the file system at the time of the call, so the
/// contract states nothing about it.
#[verifier::external_body]
pub(crate) fn path_exists(path: &str) -> (r: bool) {
    std::path::Path::new(path).exists()
}

} // verus!
