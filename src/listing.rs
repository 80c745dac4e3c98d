use vstd::prelude::*;

use crate::entry::{is_listed, is_shown, EntryKind, FileEntry};
use crate::error::{directory_read_failure, CommandError};
use crate::order::{is_sorted, sort_entries};

verus! {

broadcast use vstd::seq_lib::group_to_multiset_ensures;

/// One child of a directory as the filesystem reported it.
#[derive(Debug)]
pub struct RawChild {
    pub name: String,
    pub path: String,
    /// What a filesystem type check on the child's path said.
    pub is_dir: bool,
    /// The length from the child's metadata, where it could be read.
    pub size: Option<u64>,
}

/// The entry that a listed child becomes.
pub open spec fn entry_of(c: RawChild) -> FileEntry {
    FileEntry {
        name: c.name,
        path: c.path,
        kind: if c.is_dir {
            EntryKind::Directory
        } else {
            EntryKind::File
        },
        size: match c.size {
            Some(n) => n,
            None => 0,
        },
    }
}

/// The entries of a listing, before ordering: unreadable records (`None`)
/// and children that are not shown are left out.
pub open spec fn shown_entries(s: Seq<Option<RawChild>>) -> Seq<FileEntry>
    decreases s.len(),
{
    if s.len() == 0 {
        Seq::empty()
    } else {
        let rest = shown_entries(s.drop_last());
        match s.last() {
            Some(c) => if is_shown(c.name@) {
                rest.push(entry_of(c))
            } else {
                rest
            },
            None => rest,
        }
    }
}

/// Checks the path given to a listing: it must exist and be a directory.
pub fn check_target(path: &str, exists: bool, is_dir: bool) -> (r: Result<(), CommandError>)
    ensures
        !exists ==> (r matches Err(CommandError::NotFound(p)) && p@ == path@),
        exists && !is_dir ==> (r matches Err(CommandError::NotADirectory(p)) && p@ == path@),
        exists && is_dir <==> r is Ok,
{
    if !exists {
        Err(CommandError::NotFound(path.to_owned()))
    } else if !is_dir {
        Err(CommandError::NotADirectory(path.to_owned()))
    } else {
        Ok(())
    }
}

/// The listing of a directory whose children are `children`: unreadable
/// records and hidden or excluded names are dropped, the rest ordered with
/// directories first and names compared after lowercasing.
pub fn arrange_listing(children: Vec<Option<RawChild>>) -> (r: Vec<FileEntry>)
    ensures
        r@.to_multiset() == shown_entries(children@).to_multiset(),
        is_sorted(r@),
{
    let mut rest = children;
    let mut out: Vec<FileEntry> = Vec::new();
    while rest.len() > 0
        invariant
            out@.to_multiset().add(shown_entries(rest@).to_multiset()) == shown_entries(
                children@,
            ).to_multiset(),
        decreases rest.len(),
    {
        let ghost before = rest@;
        let item = rest.pop().unwrap();
        assert(before.drop_last() == rest@);
        if let Some(c) = item {
            if is_listed(c.name.as_str()) {
                let kind = if c.is_dir {
                    EntryKind::Directory
                } else {
                    EntryKind::File
                };
                let size: u64 = match c.size {
                    Some(n) => n,
                    None => 0,
                };
                let e = FileEntry { name: c.name, path: c.path, kind, size };
                assert(e == entry_of(c));
                out.push(e);
            }
        }
    }
    sort_entries(out)
}

/// Finishes a listing from the outcome of enumerating the directory: the
/// ordered entries, or the read failure with its cause.
pub fn finish_listing(read: Result<Vec<Option<RawChild>>, String>) -> (r: Result<
    Vec<FileEntry>,
    CommandError,
>)
    ensures
        match read {
            Ok(children) => r matches Ok(v) && v@.to_multiset() == shown_entries(
                children@,
            ).to_multiset() && is_sorted(v@),
            Err(cause) => r matches Err(CommandError::ReadFailure(t)) && t@
                == "Failed to read directory: "@ + cause@,
        },
{
    match read {
        Ok(children) => Ok(arrange_listing(children)),
        Err(cause) => Err(directory_read_failure(cause.as_str())),
    }
}

} // verus!
