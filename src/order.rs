use vstd::prelude::*;
use vstd::string::StrSliceExecFns;

use crate::entry::{EntryKind, FileEntry};

verus! {

broadcast use vstd::seq_lib::group_to_multiset_ensures;

/// What `str::to_lowercase` makes of a string.
pub uninterp spec fn lower_of(s: Seq<char>) -> Seq<char>;

/// Relies on str::to_lowercase: the lowercase form depends on the characters
/// alone.
#[verifier::external_body]
fn lowercase(s: &str) -> (r: String)
    ensures
        r@ == lower_of(s@),
{
    s.to_lowercase()
}

/// Lexicographic order on characters by code point, as `str`'s own `Ord`:
/// `a` comes no later than `b`.
pub open spec fn chars_le(a: Seq<char>, b: Seq<char>) -> bool
    decreases a.len(),
{
    if a.len() == 0 {
        true
    } else if b.len() == 0 {
        false
    } else if (a[0] as u32) != (b[0] as u32) {
        (a[0] as u32) < (b[0] as u32)
    } else {
        chars_le(a.drop_first(), b.drop_first())
    }
}

/// Rank of a kind in a listing: directories come first.
pub open spec fn kind_rank(k: EntryKind) -> int {
    match k {
        EntryKind::Directory => 0,
        EntryKind::File => 1,
    }
}

/// `a` may stand before `b` in a listing: directories before files, and
/// within a kind, names compared after lowercasing.
pub open spec fn in_order(a: FileEntry, b: FileEntry) -> bool {
    kind_rank(a.kind) < kind_rank(b.kind) || (a.kind == b.kind && chars_le(
        lower_of(a.name@),
        lower_of(b.name@),
    ))
}

/// Every entry may stand before every later one.
pub open spec fn is_sorted(s: Seq<FileEntry>) -> bool {
    forall|i: int, j: int| 0 <= i < j < s.len() ==> in_order(#[trigger] s[i], #[trigger] s[j])
}

/// Of two character sequences one comes no later than the other.
pub proof fn lemma_chars_le_total(a: Seq<char>, b: Seq<char>)
    ensures
        chars_le(a, b) || chars_le(b, a),
    decreases a.len(),
{
    if a.len() > 0 && b.len() > 0 && (a[0] as u32) == (b[0] as u32) {
        lemma_chars_le_total(a.drop_first(), b.drop_first());
    }
}

/// The order on character sequences is transitive.
pub proof fn lemma_chars_le_trans(a: Seq<char>, b: Seq<char>, c: Seq<char>)
    requires
        chars_le(a, b),
        chars_le(b, c),
    ensures
        chars_le(a, c),
    decreases a.len(),
{
    if a.len() > 0 && b.len() > 0 && c.len() > 0 && (a[0] as u32) == (b[0] as u32)
        && (b[0] as u32) == (c[0] as u32) {
        lemma_chars_le_trans(a.drop_first(), b.drop_first(), c.drop_first());
    }
}

/// Of two entries one may stand before the other.
pub proof fn lemma_in_order_total(a: FileEntry, b: FileEntry)
    ensures
        in_order(a, b) || in_order(b, a),
{
    lemma_chars_le_total(lower_of(a.name@), lower_of(b.name@));
}

/// The listing order is transitive.
pub proof fn lemma_in_order_trans(a: FileEntry, b: FileEntry, c: FileEntry)
    requires
        in_order(a, b),
        in_order(b, c),
    ensures
        in_order(a, c),
{
    if a.kind == b.kind && b.kind == c.kind {
        lemma_chars_le_trans(lower_of(a.name@), lower_of(b.name@), lower_of(c.name@));
    }
}

/// In a sorted listing no file stands before a directory.
pub proof fn lemma_directories_first(s: Seq<FileEntry>, i: int, j: int)
    requires
        is_sorted(s),
        0 <= i < j < s.len(),
        s[j].kind == EntryKind::Directory,
    ensures
        s[i].kind == EntryKind::Directory,
{
    assert(in_order(s[i], s[j]));
}

/// Compares two strings by code point: whether `a` comes no later than `b`.
pub fn chars_in_order(a: &str, b: &str) -> (r: bool)
    ensures
        r == chars_le(a@, b@),
{
    let na = a.unicode_len();
    let nb = b.unicode_len();
    let mut i: usize = 0;
    assert(a@.skip(0) =~= a@);
    assert(b@.skip(0) =~= b@);
    while i < na && i < nb
        invariant
            na == a@.len(),
            nb == b@.len(),
            i <= na,
            i <= nb,
            chars_le(a@, b@) == chars_le(a@.skip(i as int), b@.skip(i as int)),
        decreases na - i,
    {
        let ca = a.get_char(i) as u32;
        let cb = b.get_char(i) as u32;
        if ca != cb {
            return ca < cb;
        }
        assert(a@.skip(i as int).drop_first() =~= a@.skip(i + 1));
        assert(b@.skip(i as int).drop_first() =~= b@.skip(i + 1));
        i = i + 1;
    }
    i == na
}

/// Whether name `a` comes no later than name `b` once both are lowercased.
pub fn name_precedes(a: &str, b: &str) -> (r: bool)
    ensures
        r == chars_le(lower_of(a@), lower_of(b@)),
{
    let la = lowercase(a);
    let lb = lowercase(b);
    chars_in_order(la.as_str(), lb.as_str())
}

/// Whether entry `a` may stand before entry `b` in a listing.
pub fn entries_in_order(a: &FileEntry, b: &FileEntry) -> (r: bool)
    ensures
        r == in_order(*a, *b),
{
    match (a.kind, b.kind) {
        (EntryKind::Directory, EntryKind::File) => true,
        (EntryKind::File, EntryKind::Directory) => false,
        _ => name_precedes(a.name.as_str(), b.name.as_str()),
    }
}

proof fn lemma_insert_sorted(s: Seq<FileEntry>, p: int, x: FileEntry)
    requires
        is_sorted(s),
        0 <= p <= s.len(),
        forall|k: int| 0 <= k < p ==> in_order(#[trigger] s[k], x),
        forall|k: int| p <= k < s.len() ==> in_order(x, #[trigger] s[k]),
    ensures
        is_sorted(s.insert(p, x)),
{
    let t = s.insert(p, x);
    assert forall|i: int, j: int| 0 <= i < j < t.len() implies in_order(
        #[trigger] t[i],
        #[trigger] t[j],
    ) by {
        if j < p {
            assert(t[i] == s[i] && t[j] == s[j]);
        } else if j == p {
            assert(t[i] == s[i]);
        } else if i < p {
            assert(t[i] == s[i] && t[j] == s[j - 1]);
        } else if i == p {
            assert(t[j] == s[j - 1]);
        } else {
            assert(t[i] == s[i - 1] && t[j] == s[j - 1]);
        }
    }
}

/// Orders entries for a listing: directories before files, each group by
/// lowercased name. The result holds the same entries.
pub fn sort_entries(v: Vec<FileEntry>) -> (r: Vec<FileEntry>)
    ensures
        r@.to_multiset() == v@.to_multiset(),
        is_sorted(r@),
{
    let mut rest = v;
    let mut out: Vec<FileEntry> = Vec::new();
    while rest.len() > 0
        invariant
            is_sorted(out@),
            out@.to_multiset().add(rest@.to_multiset()) == v@.to_multiset(),
        decreases rest.len(),
    {
        let ghost before = rest@;
        let x = rest.pop().unwrap();
        assert(before == rest@.push(x));
        let mut p: usize = 0;
        while p < out.len() && entries_in_order(&out[p], &x)
            invariant
                p <= out.len(),
                forall|k: int| 0 <= k < p ==> in_order(#[trigger] out@[k], x),
            decreases out.len() - p,
        {
            p = p + 1;
        }
        proof {
            assert forall|k: int| p <= k < out@.len() implies in_order(x, #[trigger] out@[k]) by {
                if in_order(out@[k], x) {
                    if k > p {
                        lemma_in_order_trans(out@[p as int], out@[k], x);
                    }
                }
                lemma_in_order_total(x, out@[k]);
            }
            lemma_insert_sorted(out@, p as int, x);
        }
        out.insert(p, x);
    }
    out
}

} // verus!
