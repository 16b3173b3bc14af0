//! The catalog store: what its two tables hold, how each write statement
//! changes them, and the statements that `save`, `save_bulk` and `update`
//! run inside one transaction.
//!
//! Both tables are keyed by `id` and written with insert-or-ignore: a row
//! whose id is already present is left as it is (first write wins).
use crate::event::{create_event_of, Event, EventView};
use crate::file::{File, FileView};
use vstd::prelude::*;

verus! {

/// One write against the store.
#[derive(Debug)]
pub enum Statement {
    /// Insert a row into `file` unless its id is present.
    InsertFile(File),
    /// Insert a row into `events` unless its id is present.
    InsertEvent(Event),
    /// Overwrite the mutable fields of the `file` row with the same id, if any.
    UpdateFile(File),
}

pub enum StatementView {
    InsertFile(FileView),
    InsertEvent(EventView),
    UpdateFile(FileView),
}

impl View for Statement {
    type V = StatementView;

    open spec fn view(&self) -> StatementView {
        match self {
            Statement::InsertFile(f) => StatementView::InsertFile(f@),
            Statement::InsertEvent(e) => StatementView::InsertEvent(e@),
            Statement::UpdateFile(f) => StatementView::UpdateFile(f@),
        }
    }
}

/// The views of a list of statements.
pub open spec fn statements_view(s: Seq<Statement>) -> Seq<StatementView> {
    s.map_values(|x: Statement| x@)
}

/// The contents of the store: the `file` table and the `events` table, each by id.
pub struct CatalogView {
    pub files: Map<Seq<char>, FileView>,
    pub events: Map<Seq<char>, EventView>,
}

/// A store with no rows.
pub open spec fn empty_catalog() -> CatalogView {
    CatalogView { files: Map::empty(), events: Map::empty() }
}

/// What `file_count()` reports.
pub open spec fn file_count(c: CatalogView) -> nat {
    c.files.dom().len()
}

/// What `event_count()` reports.
pub open spec fn event_count(c: CatalogView) -> nat {
    c.events.dom().len()
}

/// An existing row after an update: the id and the directory flag stay.
pub open spec fn updated_row(old: FileView, new: FileView) -> FileView {
    FileView {
        id: old.id,
        full_path: new.full_path,
        file_name: new.file_name,
        hostname: new.hostname,
        dir: old.dir,
        timestamp: new.timestamp,
    }
}

/// The effect of one statement.
pub open spec fn apply_statement(c: CatalogView, s: StatementView) -> CatalogView {
    match s {
        StatementView::InsertFile(f) => if c.files.contains_key(f.id) {
            c
        } else {
            CatalogView { files: c.files.insert(f.id, f), ..c }
        },
        StatementView::InsertEvent(e) => if c.events.contains_key(e.id) {
            c
        } else {
            CatalogView { events: c.events.insert(e.id, e), ..c }
        },
        StatementView::UpdateFile(f) => if c.files.contains_key(f.id) {
            CatalogView { files: c.files.insert(f.id, updated_row(c.files[f.id], f)), ..c }
        } else {
            c
        },
    }
}

/// The effect of statements run in order.
pub open spec fn apply_all(c: CatalogView, ss: Seq<StatementView>) -> CatalogView
    decreases ss.len(),
{
    if ss.len() == 0 {
        c
    } else {
        apply_all(apply_statement(c, ss[0]), ss.drop_first())
    }
}

/// A transaction: its statements take effect together if it commits, and
/// none of them does if it fails.
pub open spec fn commit(c: CatalogView, ss: Seq<StatementView>, committed: bool) -> CatalogView {
    if committed {
        apply_all(c, ss)
    } else {
        c
    }
}

/// The statements of `save`: the entry and its paired creation event.
pub open spec fn save_statements(f: FileView) -> Seq<StatementView> {
    seq![StatementView::InsertFile(f), StatementView::InsertEvent(create_event_of(f))]
}

/// The statements of `save_bulk`: those of `save` for each entry, in order.
pub open spec fn bulk_statements(fs: Seq<FileView>) -> Seq<StatementView>
    decreases fs.len(),
{
    if fs.len() == 0 {
        Seq::empty()
    } else {
        bulk_statements(fs.drop_last()) + save_statements(fs.last())
    }
}

/// The store after `save` has committed for each entry, one after another.
pub open spec fn save_each(c: CatalogView, fs: Seq<FileView>) -> CatalogView
    decreases fs.len(),
{
    if fs.len() == 0 {
        c
    } else {
        commit(save_each(c, fs.drop_last()), save_statements(fs.last()), true)
    }
}

/// The ids of a list of entries.
pub open spec fn ids_of(fs: Seq<FileView>) -> Set<Seq<char>> {
    Set::new(|id: Seq<char>| exists|i: int| 0 <= i < fs.len() && fs[i].id == id)
}

/// No two entries share an id.
pub open spec fn distinct_ids(fs: Seq<FileView>) -> bool {
    forall|i: int, j: int| 0 <= i < fs.len() && 0 <= j < fs.len() && i != j ==> fs[i].id != fs[j].id
}

fn copy_file(f: &File) -> (r: File)
    ensures
        r@ == f@,
{
    File {
        id: f.id.clone(),
        full_path: f.full_path.clone(),
        file_name: f.file_name.clone(),
        hostname: f.hostname.clone(),
        dir: f.dir,
        timestamp: f.timestamp,
    }
}

/// The statements that save one entry.
pub fn save_plan(f: &File) -> (r: Vec<Statement>)
    ensures
        statements_view(r@) == save_statements(f@),
{
    let mut r: Vec<Statement> = Vec::new();
    r.push(Statement::InsertFile(copy_file(f)));
    r.push(Statement::InsertEvent(Event::new_create(f)));
    assert(statements_view(r@) =~= save_statements(f@));
    r
}

/// The statements that save a list of entries in one transaction.
pub fn save_bulk_plan(fs: &[File]) -> (r: Vec<Statement>)
    ensures
        statements_view(r@) == bulk_statements(fs@.map_values(|f: File| f@)),
{
    let mut r: Vec<Statement> = Vec::new();
    let mut i: usize = 0;
    while i < fs.len()
        invariant
            i <= fs@.len(),
            statements_view(r@) == bulk_statements(fs@.subrange(0, i as int).map_values(|f: File| f@)),
        decreases fs@.len() - i,
    {
        let ghost before = r@;
        r.push(Statement::InsertFile(copy_file(&fs[i])));
        r.push(Statement::InsertEvent(Event::new_create(&fs[i])));
        proof {
            let p = fs@.subrange(0, i as int + 1).map_values(|f: File| f@);
            assert(p.drop_last() =~= fs@.subrange(0, i as int).map_values(|f: File| f@));
            assert(p.last() == fs@[i as int]@);
            assert(statements_view(r@) =~= statements_view(before) + save_statements(fs@[i as int]@));
        }
        i = i + 1;
    }
    assert(fs@.subrange(0, fs@.len() as int) =~= fs@);
    r
}

/// The statement that updates an entry's mutable fields.
pub fn update_plan(f: &File) -> (r: Statement)
    ensures
        r@ == StatementView::UpdateFile(f@),
{
    Statement::UpdateFile(copy_file(f))
}

/// Running two lists of statements one after the other is running their
/// concatenation.
pub proof fn lemma_apply_concat(c: CatalogView, a: Seq<StatementView>, b: Seq<StatementView>)
    ensures
        apply_all(c, a + b) == apply_all(apply_all(c, a), b),
    decreases a.len(),
{
    if a.len() == 0 {
        assert(a + b =~= b);
    } else {
        assert((a + b).drop_first() =~= a.drop_first() + b);
        lemma_apply_concat(apply_statement(c, a[0]), a.drop_first(), b);
    }
}

/// Saving entries one by one commits the same statements, in the same order,
/// as saving them in bulk.
pub proof fn lemma_save_each_is_bulk(c: CatalogView, fs: Seq<FileView>)
    ensures
        save_each(c, fs) == apply_all(c, bulk_statements(fs)),
    decreases fs.len(),
{
    if fs.len() > 0 {
        lemma_save_each_is_bulk(c, fs.drop_last());
        lemma_apply_concat(c, bulk_statements(fs.drop_last()), save_statements(fs.last()));
    }
}

/// Saving a second entry with the id of one already saved changes nothing:
/// the store keeps one row in `file` and one in `events` for that id, both
/// from the first write.
pub proof fn lemma_save_idempotent(c: CatalogView, f1: FileView, f2: FileView)
    requires
        f1.id == f2.id,
    ensures
        ({
            let c1 = commit(c, save_statements(f1), true);
            &&& commit(c1, save_statements(f2), true) == c1
            &&& c1.files.dom() == c.files.dom().insert(f1.id)
            &&& c1.events.dom() == c.events.dom().insert(f1.id)
            &&& !c.files.contains_key(f1.id) ==> c1.files[f1.id] == f1
            &&& !c.events.contains_key(f1.id) ==> c1.events[f1.id] == create_event_of(f1)
        }),
{
    let c1 = commit(c, save_statements(f1), true);
    reveal_with_fuel(apply_all, 3);
    assert(c1.files.dom() =~= c.files.dom().insert(f1.id));
    assert(c1.events.dom() =~= c.events.dom().insert(f1.id));
}

/// A bulk save whose transaction fails leaves the store, and so both counts,
/// as they were.
pub proof fn lemma_failed_bulk_unchanged(c: CatalogView, fs: Seq<FileView>)
    ensures
        commit(c, bulk_statements(fs), false) == c,
        file_count(commit(c, bulk_statements(fs), false)) == file_count(c),
        event_count(commit(c, bulk_statements(fs), false)) == event_count(c),
{
}

/// Saving an entry whose id is new stores it with every field as given.
pub proof fn lemma_save_stores_row(c: CatalogView, f: FileView)
    requires
        !c.files.contains_key(f.id),
    ensures
        commit(c, save_statements(f), true).files.contains_key(f.id),
        commit(c, save_statements(f), true).files[f.id] == f,
{
    reveal_with_fuel(apply_all, 3);
}

/// From an empty store, saving K entries with distinct ids one after another
/// leaves K rows in `file` and K rows in `events`.
pub proof fn lemma_count_consistency(fs: Seq<FileView>)
    requires
        distinct_ids(fs),
    ensures
        file_count(save_each(empty_catalog(), fs)) == fs.len(),
        event_count(save_each(empty_catalog(), fs)) == fs.len(),
{
    lemma_save_each_domains(fs);
}

proof fn lemma_save_each_domains(fs: Seq<FileView>)
    requires
        distinct_ids(fs),
    ensures
        save_each(empty_catalog(), fs).files.dom() == ids_of(fs),
        save_each(empty_catalog(), fs).events.dom() == ids_of(fs),
        ids_of(fs).finite(),
        ids_of(fs).len() == fs.len(),
    decreases fs.len(),
{
    if fs.len() == 0 {
        assert(ids_of(fs) =~= Set::empty());
    } else {
        let p = fs.drop_last();
        let f = fs.last();
        assert(distinct_ids(p));
        lemma_save_each_domains(p);
        let c = save_each(empty_catalog(), p);
        assert(!ids_of(p).contains(f.id)) by {
            if ids_of(p).contains(f.id) {
                let i = choose|i: int| 0 <= i < p.len() && p[i].id == f.id;
                assert(fs[i].id == fs[fs.len() - 1].id);
            }
        }
        assert(ids_of(fs) =~= ids_of(p).insert(f.id)) by {
            assert forall|id: Seq<char>| ids_of(fs).contains(id) implies ids_of(p).insert(f.id).contains(id) by {
                let i = choose|i: int| 0 <= i < fs.len() && fs[i].id == id;
                if i < fs.len() - 1 {
                    assert(p[i].id == id);
                }
            }
            assert forall|id: Seq<char>| ids_of(p).insert(f.id).contains(id) implies ids_of(fs).contains(id) by {
                if id != f.id {
                    let i = choose|i: int| 0 <= i < p.len() && p[i].id == id;
                    assert(fs[i].id == id);
                } else {
                    assert(fs[fs.len() - 1].id == id);
                }
            }
        }
        reveal_with_fuel(apply_all, 3);
        let c2 = save_each(empty_catalog(), fs);
        assert(c2.files.dom() =~= c.files.dom().insert(f.id));
        assert(c2.events.dom() =~= c.events.dom().insert(f.id));
    }
}

} // verus!
