//! File-tree helpers of the editor side: a path's extension and the order in
//! which a directory's entries are listed.
use vstd::prelude::*;
use std::path::Path;
use vstd::utf8::encode_utf8;

verus! {

/// The extension of the last component of a path, if it has one.
pub uninterp spec fn path_extension(path: Seq<char>) -> Option<Seq<char>>;

/// Relies on `std::path::Path::extension`: the part of the file name after
/// its last `.`, if any; a path without a `.` has none.
#[verifier::external_body]
fn extension_of(path: &str) -> (r: Option<String>)
    ensures
        r is Some ==> path_extension(path@) == Some(r->0@),
        r is None ==> path_extension(path@) is None,
        !path@.contains('.') ==> r is None,
{
    Path::new(path).extension().and_then(|e| e.to_str()).map(|e| e.to_string())
}

/// The extension of `path`, or the empty string where it has none.
pub fn get_file_extension(path: String) -> (r: String)
    ensures
        r@ == match path_extension(path@) {
            Some(e) => e,
            None => Seq::<char>::empty(),
        },
        !path@.contains('.') ==> r@.len() == 0,
{
    match extension_of(path.as_str()) {
        Some(e) => e,
        None => String::new(),
    }
}


/// One entry of a directory listing.
pub struct FileItem {
    pub name: String,
    pub is_dir: bool,
    pub children: Option<Vec<FileItem>>,
}

/// Lexicographic order on byte strings: `a` is a prefix of `b`, or at the
/// first byte where they differ `a`'s is the smaller.
pub open spec fn bytes_le(a: Seq<u8>, b: Seq<u8>) -> bool
    decreases a.len(),
{
    if a.len() == 0 {
        true
    } else if b.len() == 0 {
        false
    } else if a[0] != b[0] {
        a[0] < b[0]
    } else {
        bytes_le(a.drop_first(), b.drop_first())
    }
}

/// Whether entry `x` may be listed before `y`: directories come before
/// files, and entries of one kind go by the bytes of their names.
pub open spec fn listed_no_later(x: FileItem, y: FileItem) -> bool {
    if x.is_dir != y.is_dir {
        x.is_dir
    } else {
        bytes_le(encode_utf8(x.name@), encode_utf8(y.name@))
    }
}

proof fn lemma_bytes_le_total(a: Seq<u8>, b: Seq<u8>)
    ensures
        bytes_le(a, b) || bytes_le(b, a),
    decreases a.len(),
{
    if a.len() > 0 && b.len() > 0 && a[0] == b[0] {
        lemma_bytes_le_total(a.drop_first(), b.drop_first());
    }
}

proof fn lemma_bytes_le_transitive(a: Seq<u8>, b: Seq<u8>, c: Seq<u8>)
    requires
        bytes_le(a, b),
        bytes_le(b, c),
    ensures
        bytes_le(a, c),
    decreases a.len(),
{
    if a.len() > 0 && b.len() > 0 && c.len() > 0 && a[0] == b[0] && b[0] == c[0] {
        lemma_bytes_le_transitive(a.drop_first(), b.drop_first(), c.drop_first());
    }
}

proof fn lemma_listed_total(x: FileItem, y: FileItem)
    ensures
        listed_no_later(x, y) || listed_no_later(y, x),
{
    lemma_bytes_le_total(encode_utf8(x.name@), encode_utf8(y.name@));
}

proof fn lemma_listed_transitive(x: FileItem, y: FileItem, z: FileItem)
    requires
        listed_no_later(x, y),
        listed_no_later(y, z),
    ensures
        listed_no_later(x, z),
{
    if x.is_dir == y.is_dir && y.is_dir == z.is_dir {
        lemma_bytes_le_transitive(
            encode_utf8(x.name@),
            encode_utf8(y.name@),
            encode_utf8(z.name@),
        );
    }
}

/// Compares two names by their bytes.
fn name_le(a: &String, b: &String) -> (r: bool)
    ensures
        r == bytes_le(encode_utf8(a@), encode_utf8(b@)),
{
    let x = a.as_str().as_bytes();
    let y = b.as_str().as_bytes();
    let mut i: usize = 0;
    assert(x@.subrange(0, x@.len() as int) =~= x@);
    assert(y@.subrange(0, y@.len() as int) =~= y@);
    while i < x.len() && i < y.len() && x[i] == y[i]
        invariant
            x@ == encode_utf8(a@),
            y@ == encode_utf8(b@),
            i <= x@.len(),
            i <= y@.len(),
            bytes_le(x@, y@) == bytes_le(
                x@.subrange(i as int, x@.len() as int),
                y@.subrange(i as int, y@.len() as int),
            ),
        decreases x@.len() - i,
    {
        assert(x@.subrange(i + 1, x@.len() as int) =~= x@.subrange(
            i as int,
            x@.len() as int,
        ).drop_first());
        assert(y@.subrange(i + 1, y@.len() as int) =~= y@.subrange(
            i as int,
            y@.len() as int,
        ).drop_first());
        i = i + 1;
    }
    if i == x.len() {
        true
    } else if i == y.len() {
        false
    } else {
        x[i] < y[i]
    }
}

/// Decides `listed_no_later` on two entries.
fn entry_le(x: &FileItem, y: &FileItem) -> (r: bool)
    ensures
        r == listed_no_later(*x, *y),
{
    if x.is_dir != y.is_dir {
        x.is_dir
    } else {
        name_le(&x.name, &y.name)
    }
}

/// Whether a listing is in order.
pub open spec fn in_listing_order(s: Seq<FileItem>) -> bool {
    forall|i: int, j: int| 0 <= i < j < s.len() ==> listed_no_later(#[trigger] s[i], #[trigger] s[j])
}

/// Puts a directory's entries in listing order: directories first, then
/// files, each group by name. The entries themselves are kept, every one.
pub fn order_entries(items: Vec<FileItem>) -> (r: Vec<FileItem>)
    ensures
        r@.to_multiset() == items@.to_multiset(),
        in_listing_order(r@),
{
    broadcast use vstd::seq_lib::group_to_multiset_ensures;

    let mut rest = items;
    let mut out: Vec<FileItem> = Vec::new();
    while rest.len() > 0
        invariant
            out@.to_multiset().add(rest@.to_multiset()) == items@.to_multiset(),
            in_listing_order(out@),
        decreases rest@.len(),
    {
        let ghost before_rest = rest@;
        let x = rest.pop().unwrap();
        assert(before_rest == rest@.push(x));
        let mut p: usize = 0;
        while p < out.len() && entry_le(&out[p], &x)
            invariant
                p <= out@.len(),
                forall|j: int| 0 <= j < p ==> listed_no_later(#[trigger] out@[j], x),
            decreases out@.len() - p,
        {
            p = p + 1;
        }
        let ghost old_out = out@;
        out.insert(p, x);
        proof {
            assert(out@ == old_out.insert(p as int, x));
            assert forall|i: int, j: int| 0 <= i < j < out@.len() implies listed_no_later(
                #[trigger] out@[i],
                #[trigger] out@[j],
            ) by {
                if j < p {
                } else if j == p {
                } else if i < p {
                    assert(out@[j] == old_out[j - 1]);
                } else if i == p {
                    assert(out@[j] == old_out[j - 1]);
                    lemma_listed_total(old_out[p as int], x);
                    if j - 1 > p {
                        lemma_listed_transitive(x, old_out[p as int], old_out[j - 1]);
                    }
                } else {
                    assert(out@[i] == old_out[i - 1]);
                    assert(out@[j] == old_out[j - 1]);
                }
            }
            vstd::seq_lib::to_multiset_insert(old_out, p as int, x);
            vstd::seq_lib::to_multiset_build(rest@, x);
            assert(out@.to_multiset().add(rest@.to_multiset()) =~= old_out.to_multiset().add(
                before_rest.to_multiset(),
            ));
        }
    }
    out
}

} // verus!
