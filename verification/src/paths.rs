//! Absolute paths, as the keys of per-project settings.
//!
//! A path counts as absolute when its text starts with `/`. Paths are compared character by
//! character: `/a/b` and `/a/b/` are two paths, and no symbolic link, `.` or `..` is resolved.

use vstd::prelude::*;
use vstd::std_specs::iter::IteratorSpec;

verus! {

/// Whether a path's text starts at the root of the file system.
pub open spec fn is_absolute(path: Seq<char>) -> bool {
    path.len() > 0 && path[0] == '/'
}

/// Whether `path` starts at the root of the file system.
pub fn path_is_absolute(path: &str) -> (absolute: bool)
    ensures
        absolute == is_absolute(path@),
{
    let mut chars = path.chars();
    match chars.next() {
        Some(c) => c == '/',
        None => false,
    }
}

/// The text of an absolute path.
#[derive(Debug, PartialEq, Eq)]
pub struct AbsPathBuf {
    path: String,
}

impl View for AbsPathBuf {
    type V = Seq<char>;

    closed spec fn view(&self) -> Seq<char> {
        self.path@
    }
}

impl Clone for AbsPathBuf {
    fn clone(&self) -> (copy: Self)
        ensures
            copy@ == self@,
    {
        proof {
            use_type_invariant(self);
        }
        AbsPathBuf { path: self.path.clone() }
    }
}

impl AbsPathBuf {
    #[verifier::type_invariant]
    spec fn rooted(self) -> bool {
        is_absolute(self.path@)
    }

    /// Accepts `path` if it is absolute, and hands it back otherwise.
    pub fn try_new(path: String) -> (made: Result<AbsPathBuf, String>)
        ensures
            is_absolute(path@) ==> (made matches Ok(p) && p@ == path@),
            !is_absolute(path@) ==> (made matches Err(rejected) && rejected@ == path@),
    {
        if path_is_absolute(path.as_str()) {
            Ok(AbsPathBuf { path })
        } else {
            Err(path)
        }
    }

    /// The path's text.
    pub fn as_str(&self) -> (text: &str)
        ensures
            text@ == self@,
            is_absolute(text@),
    {
        proof {
            use_type_invariant(self);
        }
        self.path.as_str()
    }

    /// Gives up the path's text.
    pub fn into_string(self) -> (text: String)
        ensures
            text@ == self@,
            is_absolute(text@),
    {
        proof {
            use_type_invariant(&self);
        }
        self.path
    }
}

} // verus!
