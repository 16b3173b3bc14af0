//! Searching the catalog by name, and how results are shown.
use crate::catalog::{apply_all, commit, save_statements, CatalogView};
use crate::file::{File, FileView};
use vstd::prelude::*;

verus! {

/// The search commands.
#[derive(Debug)]
pub enum FindCommand {
    /// Entries whose name contains `name`; optionally with their full path,
    /// optionally directories only.
    Find { name: String, show_path: bool, only_show_dir: bool },
    /// The number of rows in each table.
    Count,
}

/// How one character of a search term is written inside a LIKE pattern
/// quoted with `'` and escaped with `\`: quotes are doubled and the pattern's
/// own special characters are escaped, so the term matches literally.
pub open spec fn escape_char(c: char) -> Seq<char> {
    if c == '\'' {
        seq!['\'', '\'']
    } else if c == '%' || c == '_' || c == '\\' {
        seq!['\\', c]
    } else {
        seq![c]
    }
}

/// A search term written as LIKE pattern text.
pub open spec fn escape_like(s: Seq<char>) -> Seq<char>
    decreases s.len(),
{
    if s.len() == 0 {
        Seq::empty()
    } else {
        escape_like(s.drop_last()) + escape_char(s.last())
    }
}

/// The query text for a search.
pub open spec fn find_sql(name: Seq<char>, only_dir: bool) -> Seq<char> {
    "select * from file where file_name like '%"@ + escape_like(name) + "%' escape '\\'"@ + (
    if only_dir {
        " and dir = 1;"@
    } else {
        ";"@
    })
}

/// Builds the query that selects the entries whose name contains `name`.
pub fn find_query(name: &str, only_show_dir: bool) -> (r: String)
    ensures
        r@ == find_sql(name@, only_show_dir),
{
    let mut r = String::from_str("select * from file where file_name like '%");
    let ghost head = r@;
    let n = name.unicode_len();
    let mut i: usize = 0;
    proof {
        assert(name@.subrange(0, 0) =~= Seq::<char>::empty());
        assert(r@ =~= head + escape_like(name@.subrange(0, 0)));
    }
    while i < n
        invariant
            n == name@.len(),
            i <= n,
            r@ == head + escape_like(name@.subrange(0, i as int)),
        decreases n - i,
    {
        let c = name.get_char(i);
        let one = name.substring_char(i, i + 1);
        assert(one@ =~= seq![c]);
        let ghost before = r@;
        if c == '\'' {
            proof {
                reveal_strlit("''");
            }
            r.append("''");
        } else if c == '%' || c == '_' || c == '\\' {
            proof {
                reveal_strlit("\\");
            }
            r.append("\\");
            r.append(one);
        } else {
            r.append(one);
        }
        assert(r@ =~= before + escape_char(c));
        proof {
            let s = name@.subrange(0, i as int + 1);
            assert(s.drop_last() =~= name@.subrange(0, i as int));
            assert(s.last() == c);
            assert(r@ =~= head + escape_like(s));
        }
        i = i + 1;
    }
    assert(name@.subrange(0, n as int) =~= name@);
    r.append("%' escape '\\'");
    if only_show_dir {
        r.append(" and dir = 1;");
    } else {
        r.append(";");
    }
    r
}

/// How a result is shown: its name, or `name:(full_path)`.
pub open spec fn render_text(f: FileView, show_path: bool) -> Seq<char> {
    if show_path {
        f.file_name + seq![':', '('] + f.full_path + seq![')']
    } else {
        f.file_name
    }
}

/// Renders one search result.
pub fn render_file(f: &File, show_path: bool) -> (r: String)
    ensures
        r@ == render_text(f@, show_path),
{
    let mut r = f.file_name.clone();
    if show_path {
        proof {
            reveal_strlit(":(");
            reveal_strlit(")");
        }
        r.append(":(");
        r.append(f.full_path.as_str());
        r.append(")");
        assert(r@ =~= render_text(f@, show_path));
    }
    r
}

/// An ASCII capital letter.
pub open spec fn ascii_upper(c: char) -> bool {
    'A' <= c && c <= 'Z'
}

/// Two characters equal up to ASCII case.
pub open spec fn same_ignoring_case(a: char, b: char) -> bool {
    a == b || (ascii_upper(a) && a as u32 + 32 == b as u32) || (ascii_upper(b) && b as u32 + 32
        == a as u32)
}

/// `needle` occurs in `hay` at position `i`, comparing ASCII letters without
/// regard to case.
pub open spec fn occurs_at(hay: Seq<char>, needle: Seq<char>, i: int) -> bool {
    0 <= i && i + needle.len() <= hay.len() && forall|j: int|
        0 <= j < needle.len() ==> same_ignoring_case(#[trigger] hay[i + j], needle[j])
}

/// `needle` occurs somewhere in `hay`, up to ASCII case.
pub open spec fn contains_ignoring_case(hay: Seq<char>, needle: Seq<char>) -> bool {
    exists|i: int| #[trigger] occurs_at(hay, needle, i)
}

/// The rows that the query of `find_query(name, only_dir)` selects: those
/// whose name contains `name` up to ASCII case, and only directories when
/// asked.
pub open spec fn find_matches(c: CatalogView, name: Seq<char>, only_dir: bool) -> Set<FileView> {
    Set::new(
        |r: FileView|
            exists|id: Seq<char>|
                c.files.contains_key(id) && c.files[id] == r && contains_ignoring_case(
                    r.file_name,
                    name,
                ) && (only_dir ==> r.dir),
    )
}

/// An entry saved under a new id is found again, equal in every field, by a
/// search for any part of its name.
pub proof fn lemma_round_trip(c: CatalogView, f: FileView, name: Seq<char>)
    requires
        !c.files.contains_key(f.id),
        contains_ignoring_case(f.file_name, name),
    ensures
        find_matches(commit(c, save_statements(f), true), name, false).contains(f),
{
    reveal_with_fuel(apply_all, 3);
    let c1 = commit(c, save_statements(f), true);
    assert(c1.files.contains_key(f.id) && c1.files[f.id] == f);
}

/// A search restricted to directories returns exactly the directories that
/// the unrestricted search returns.
pub proof fn lemma_only_directories(c: CatalogView, name: Seq<char>)
    ensures
        forall|r: FileView| #[trigger] find_matches(c, name, true).contains(r) ==> r.dir,
        forall|r: FileView|
            #[trigger] find_matches(c, name, false).contains(r) && r.dir ==> find_matches(
                c,
                name,
                true,
            ).contains(r),
{
}

} // verus!
