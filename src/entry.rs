use vstd::prelude::*;
use vstd::string::StrSliceExecFns;

verus! {

/// What a child of a listed directory is.
#[derive(Clone, Copy, Debug, PartialEq, Eq, Structural)]
pub enum EntryKind {
    File,
    Directory,
}

/// One immediate child of a listed directory.
#[derive(Debug)]
pub struct FileEntry {
    /// The final path component.
    pub name: String,
    /// The full path of the child.
    pub path: String,
    pub kind: EntryKind,
    /// Byte length of the contents; for a directory the length its metadata
    /// reports; 0 where the metadata could not be read.
    pub size: u64,
}

/// A name that starts with a dot is hidden.
pub open spec fn is_hidden(name: Seq<char>) -> bool {
    name.len() > 0 && name[0] == '.'
}

/// The names that a listing always leaves out, compared exactly.
pub open spec fn is_excluded(name: Seq<char>) -> bool {
    name == "node_modules"@ || name == "target"@ || name == "_build"@ || name == "deps"@
}

/// Whether a child of this name appears in a listing.
pub open spec fn is_shown(name: Seq<char>) -> bool {
    !is_hidden(name) && !is_excluded(name)
}

/// Whether two strings hold the same characters.
pub fn same_chars(a: &str, b: &str) -> (r: bool)
    ensures
        r == (a@ == b@),
{
    let n = a.unicode_len();
    if n != b.unicode_len() {
        return false;
    }
    let mut i: usize = 0;
    while i < n
        invariant
            n == a@.len(),
            n == b@.len(),
            i <= n,
            a@.subrange(0, i as int) == b@.subrange(0, i as int),
        decreases n - i,
    {
        if a.get_char(i) != b.get_char(i) {
            return false;
        }
        assert(a@.subrange(0, i + 1) == a@.subrange(0, i as int).push(a@[i as int]));
        assert(b@.subrange(0, i + 1) == b@.subrange(0, i as int).push(b@[i as int]));
        i = i + 1;
    }
    assert(a@ == a@.subrange(0, n as int));
    assert(b@ == b@.subrange(0, n as int));
    true
}

/// Whether a child named `name` appears in a listing: it is neither hidden
/// nor one of the excluded names.
pub fn is_listed(name: &str) -> (r: bool)
    ensures
        r == is_shown(name@),
{
    if name.unicode_len() > 0 && name.get_char(0) == '.' {
        return false;
    }
    !(same_chars(name, "node_modules") || same_chars(name, "target") || same_chars(name, "_build")
        || same_chars(name, "deps"))
}

} // verus!
