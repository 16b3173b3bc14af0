//! Which discovered filesystem entries the catalog records.
use vstd::prelude::*;

verus! {

/// Mount point below which nothing is indexed.
pub const EXCLUDE_MAC_VOLUMES_PATH: &'static str = "/Volumes/Macintosh";

/// `p` is a prefix of `s`.
pub open spec fn has_prefix(s: Seq<char>, p: Seq<char>) -> bool {
    p.len() <= s.len() && s.subrange(0, p.len() as int) == p
}

/// `x` is a suffix of `s`.
pub open spec fn has_suffix(s: Seq<char>, x: Seq<char>) -> bool {
    x.len() <= s.len() && s.subrange(s.len() - x.len(), s.len() as int) == x
}

/// The excluded subtree, as characters.
pub open spec fn excluded_prefix() -> Seq<char> {
    seq!['/', 'V', 'o', 'l', 'u', 'm', 'e', 's', '/', 'M', 'a', 'c', 'i', 'n', 't', 'o', 's', 'h']
}

/// A hidden entry: its base name starts with a dot.
pub open spec fn hidden_name(name: Seq<char>) -> bool {
    name.len() > 0 && name[0] == '.'
}

/// An entry under the excluded subtree.
pub open spec fn excluded_path(path: Seq<char>) -> bool {
    has_prefix(path, excluded_prefix())
}

/// A name with one of the indexable media extensions, `.mp4` or `.mp3`.
pub open spec fn media_name(name: Seq<char>) -> bool {
    has_suffix(name, seq!['.', 'm', 'p', '4']) || has_suffix(name, seq!['.', 'm', 'p', '3'])
}

/// The filter's decision: not hidden, not excluded, and a directory or a media file.
pub open spec fn accepted(path: Seq<char>, name: Seq<char>, is_dir: bool) -> bool {
    !hidden_name(name) && !excluded_path(path) && (is_dir || media_name(name))
}

fn starts_with(s: &str, p: &str) -> (r: bool)
    ensures
        r == has_prefix(s@, p@),
{
    let n = s.unicode_len();
    let m = p.unicode_len();
    if m > n {
        return false;
    }
    let mut i: usize = 0;
    while i < m
        invariant
            m <= n,
            n == s@.len(),
            m == p@.len(),
            i <= m,
            forall|j: int| 0 <= j < i ==> s@[j] == p@[j],
        decreases m - i,
    {
        if s.get_char(i) != p.get_char(i) {
            assert(s@.subrange(0, m as int)[i as int] != p@[i as int]);
            return false;
        }
        i = i + 1;
    }
    assert(s@.subrange(0, m as int) =~= p@);
    true
}

fn ends_with(s: &str, x: &str) -> (r: bool)
    ensures
        r == has_suffix(s@, x@),
{
    let n = s.unicode_len();
    let m = x.unicode_len();
    if m > n {
        return false;
    }
    let off = n - m;
    let mut i: usize = 0;
    while i < m
        invariant
            m <= n,
            off == n - m,
            n == s@.len(),
            m == x@.len(),
            i <= m,
            forall|j: int| 0 <= j < i ==> s@[off + j] == x@[j],
        decreases m - i,
    {
        if s.get_char(off + i) != x.get_char(i) {
            assert(s@.subrange(off as int, n as int)[i as int] != x@[i as int]);
            return false;
        }
        i = i + 1;
    }
    assert(s@.subrange(off as int, n as int) =~= x@);
    true
}

/// Whether an entry's base name marks it hidden.
pub fn is_hidden(name: &str) -> (r: bool)
    ensures
        r == hidden_name(name@),
{
    name.unicode_len() > 0 && name.get_char(0) == '.'
}

/// Whether an entry's absolute path lies under the excluded subtree.
pub fn is_sys(path: &str) -> (r: bool)
    ensures
        r == excluded_path(path@),
{
    proof {
        reveal_strlit("/Volumes/Macintosh");
    }
    assert(EXCLUDE_MAC_VOLUMES_PATH@ =~= excluded_prefix());
    starts_with(path, EXCLUDE_MAC_VOLUMES_PATH)
}

/// Whether a file name carries an indexable media extension.
pub fn is_need_scan(name: &str) -> (r: bool)
    ensures
        r == media_name(name@),
{
    proof {
        reveal_strlit(".mp4");
        reveal_strlit(".mp3");
    }
    assert(".mp4"@ =~= seq!['.', 'm', 'p', '4']);
    assert(".mp3"@ =~= seq!['.', 'm', 'p', '3']);
    ends_with(name, ".mp4") || ends_with(name, ".mp3")
}

/// Decides whether a discovered entry is recorded in the catalog.
pub fn accept_entry(path: &str, name: &str, is_dir: bool) -> (r: bool)
    ensures
        r == accepted(path@, name@, is_dir),
        hidden_name(name@) ==> !r,
        !is_dir && !media_name(name@) ==> !r,
        is_dir && !hidden_name(name@) && !excluded_path(path@) ==> r,
{
    if is_hidden(name) || is_sys(path) {
        return false;
    }
    is_dir || is_need_scan(name)
}

/// A hidden entry is rejected, whatever its extension and whether or not it
/// is a directory.
pub proof fn lemma_hidden_rejected(path: Seq<char>, name: Seq<char>, is_dir: bool)
    requires
        hidden_name(name),
    ensures
        !accepted(path, name, is_dir),
{
}

/// A file whose extension is not indexable is rejected; a directory that is
/// neither hidden nor under the excluded subtree is accepted, whatever its
/// extension.
pub proof fn lemma_kind_rule(path: Seq<char>, name: Seq<char>, is_dir: bool)
    ensures
        !is_dir && !media_name(name) ==> !accepted(path, name, is_dir),
        is_dir && !hidden_name(name) && !excluded_path(path) ==> accepted(path, name, is_dir),
{
}

} // verus!
