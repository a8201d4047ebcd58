//! The operations on the dataset: what changed since a revision, and the
//! creation, change and deletion of each kind of resource.

use vstd::prelude::*;
pub use crate::repo_content_blocks::{
    content_blocks, create_content_block, create_content_block_at, delete_contentblock,
    delete_contentblock_at, update_content_block, update_content_block_at,
};
pub use crate::repo_notes::{
    create_note, create_note_at, delete_note, delete_note_at, notes, update_note, update_note_at,
};
use crate::data::{
    Deletion, DeletionModel, NewNotebook, Notebook, NotebookModel, NotebookUpdate,
    deletion_models, notebook_models, notebook_type,
};
use crate::repo_id::is_generated_id;
use crate::seq_lemmas::lemma_filter_removes_one;
use crate::store::{
    ContentBlockRow, DeletionRow, NoteRow, NotebookRow, Store, StoreError, StoreModel,
};
use crate::timestamp::{Timestamp, moved_forward, revision_after, stamp_after};

verus! {

/// Whether a row stamped `revision` belongs to the changes since `since`:
/// every row when there is no `since`, else the rows stamped strictly later.
pub open spec fn changed_since(revision: Timestamp, since: Option<Timestamp>) -> bool {
    match since {
        None => true,
        Some(s) => revision.instant() > s.instant(),
    }
}

/// Whether a row stamped `revision` belongs to the changes since `since`.
pub(crate) fn is_changed(revision: Timestamp, since: Option<Timestamp>) -> (b: bool)
    ensures
        b == changed_since(revision, since),
{
    match since {
        None => true,
        Some(s) => revision.is_after(&s),
    }
}

/// The id a new resource gets: the one supplied, else the generated one.
pub open spec fn chosen_id(supplied: Option<String>, generated: Seq<char>) -> Seq<char> {
    match supplied {
        Some(id) => id@,
        None => generated,
    }
}

/// The id a new resource gets: the one supplied, else the generated one.
pub(crate) fn choose_id(supplied: Option<String>, generated: String) -> (id: String)
    ensures
        id@ == chosen_id(supplied, generated@),
{
    match supplied {
        Some(id) => id,
        None => generated,
    }
}

/// Where the notebook `id` is stored, if it is.
fn find_notebook(rows: &Vec<NotebookRow>, id: &String) -> (found: Option<usize>)
    ensures
        match found {
            Some(i) => i < rows.len() && rows[i as int].id@ == id@,
            None => forall|j: int| 0 <= j < rows.len() ==> (#[trigger] rows[j]).id@ != id@,
        },
{
    let mut i: usize = 0;
    while i < rows.len()
        invariant
            i <= rows.len(),
            forall|j: int| 0 <= j < i ==> (#[trigger] rows[j]).id@ != id@,
        decreases rows.len() - i,
    {
        if rows[i].id == *id {
            return Some(i);
        }
        i += 1;
    }
    None
}

/// Where the deletion of resource `id` of kind `type_` is on record, if it
/// is.
fn find_deletion(rows: &Vec<DeletionRow>, type_: &String, id: &String) -> (found: Option<usize>)
    ensures
        match found {
            Some(i) => i < rows.len() && rows[i as int].type_@ == type_@ && rows[i as int].resource_id@
                == id@,
            None => forall|j: int|
                0 <= j < rows.len() ==> !((#[trigger] rows[j]).type_@ == type_@
                    && rows[j].resource_id@ == id@),
        },
{
    let mut i: usize = 0;
    while i < rows.len()
        invariant
            i <= rows.len(),
            forall|j: int|
                0 <= j < i ==> !((#[trigger] rows[j]).type_@ == type_@ && rows[j].resource_id@
                    == id@),
        decreases rows.len() - i,
    {
        if rows[i].type_ == *type_ && rows[i].resource_id == *id {
            return Some(i);
        }
        i += 1;
    }
    None
}

/// Where the note `id` is stored, if it is.
pub(crate) fn find_note(rows: &Vec<NoteRow>, id: &String) -> (found: Option<usize>)
    ensures
        match found {
            Some(i) => i < rows.len() && rows[i as int].id@ == id@,
            None => forall|j: int| 0 <= j < rows.len() ==> (#[trigger] rows[j]).id@ != id@,
        },
{
    let mut i: usize = 0;
    while i < rows.len()
        invariant
            i <= rows.len(),
            forall|j: int| 0 <= j < i ==> (#[trigger] rows[j]).id@ != id@,
        decreases rows.len() - i,
    {
        if rows[i].id == *id {
            return Some(i);
        }
        i += 1;
    }
    None
}

/// Where the content block `id` is stored, if it is.
pub(crate) fn find_content_block(rows: &Vec<ContentBlockRow>, id: &String) -> (found: Option<usize>)
    ensures
        match found {
            Some(i) => i < rows.len() && rows[i as int].id@ == id@,
            None => forall|j: int| 0 <= j < rows.len() ==> (#[trigger] rows[j]).id@ != id@,
        },
{
    let mut i: usize = 0;
    while i < rows.len()
        invariant
            i <= rows.len(),
            forall|j: int| 0 <= j < i ==> (#[trigger] rows[j]).id@ != id@,
        decreases rows.len() - i,
    {
        if rows[i].id == *id {
            return Some(i);
        }
        i += 1;
    }
    None
}

/// Whether some resource, of whatever kind, has this id.
pub(crate) fn id_in_use(store: &Store, id: &String) -> (used: bool)
    ensures
        used == store.model().holds_id(id@),
{
    let a = find_notebook(&store.notebooks, id);
    let b = find_note(&store.notes, id);
    let c = find_content_block(&store.content_blocks, id);
    proof {
        let m = store.model();
        if let Some(i) = a {
            assert(m.notebooks[i as int].id == id@);
        } else {
            assert forall|j: int| 0 <= j < m.notebooks.len() implies (#[trigger] m.notebooks[j]).id
                != id@ by {
                assert(store.notebooks@[j].id@ != id@);
            }
        }
        if let Some(i) = b {
            assert(m.notes[i as int].id == id@);
        } else {
            assert forall|j: int| 0 <= j < m.notes.len() implies (#[trigger] m.notes[j]).id
                != id@ by {
                assert(store.notes@[j].id@ != id@);
            }
        }
        if let Some(i) = c {
            assert(m.content_blocks[i as int].id == id@);
        } else {
            assert forall|j: int| 0 <= j < m.content_blocks.len() implies (
            #[trigger] m.content_blocks[j]).id != id@ by {
                assert(store.content_blocks@[j].id@ != id@);
            }
        }
    }
    a.is_some() || b.is_some() || c.is_some()
}

// ---------------------------------------------------------------- deletions

/// The test that picks the deletion records made since `since`.
pub open spec fn deletion_changed(since: Option<Timestamp>) -> spec_fn(DeletionModel) -> bool {
    |r: DeletionModel| changed_since(r.system_updated_at, since)
}

/// The deletion records among `rows` made since `since`, in stored order.
pub open spec fn deletions_since(rows: Seq<DeletionModel>, since: Option<Timestamp>) -> Seq<
    DeletionModel,
> {
    rows.filter(deletion_changed(since))
}

/// Whether `rows` holds a record of the deletion of resource `id` of kind
/// `type_`.
pub open spec fn deletion_on_record(rows: Seq<DeletionModel>, type_: Seq<char>, id: Seq<char>) -> bool {
    exists|i: int|
        0 <= i < rows.len() && (#[trigger] rows[i]).type_ == type_ && rows[i].resource_id == id
}

/// Stamps the record of resource `id` of kind `type_` with `at`, and leaves
/// every other record as it is.
pub open spec fn restamp(type_: Seq<char>, id: Seq<char>, at: Timestamp) -> spec_fn(
    DeletionModel,
) -> DeletionModel {
    |r: DeletionModel|
        if r.type_ == type_ && r.resource_id == id {
            DeletionModel { type_: r.type_, resource_id: r.resource_id, system_updated_at: at }
        } else {
            r
        }
}

/// The deletion records after the deletion of resource `id` of kind `type_`
/// at `at`: its record is stamped anew where there is one, and added at the
/// end where there is none.
pub open spec fn deletions_recorded(
    rows: Seq<DeletionModel>,
    type_: Seq<char>,
    id: Seq<char>,
    at: Timestamp,
) -> Seq<DeletionModel> {
    if deletion_on_record(rows, type_, id) {
        rows.map_values(restamp(type_, id, at))
    } else {
        rows.push(DeletionModel { type_: type_, resource_id: id, system_updated_at: at })
    }
}

/// The deletion record that a stored row stands for.
fn map_deletion(deletion: &DeletionRow) -> (mapped: Deletion)
    ensures
        mapped@ == deletion@,
{
    Deletion {
        type_: deletion.type_.clone(),
        resource_id: deletion.resource_id.clone(),
        system_updated_at: deletion.system_updated_at,
    }
}

/// The deletion records made since `since_revision`; all of them when there
/// is none.
pub fn deletions(since_revision: Option<Timestamp>, store: &Store) -> (result: Result<
    Vec<Deletion>,
    StoreError,
>)
    ensures
        result matches Ok(found) && deletion_models(found@) == deletions_since(
            store.model().deletions,
            since_revision,
        ),
{
    let ghost rows = store.model().deletions;
    let mut found: Vec<Deletion> = Vec::new();
    let mut i: usize = 0;
    proof {
        reveal(Seq::filter);
        assert(deletion_models(found@) =~= deletions_since(rows.take(0), since_revision));
    }
    while i < store.deletions.len()
        invariant
            i <= store.deletions.len(),
            rows == store.model().deletions,
            deletion_models(found@) == deletions_since(rows.take(i as int), since_revision),
        decreases store.deletions.len() - i,
    {
        let row = &store.deletions[i];
        proof {
            assert(rows.take(i + 1) =~= rows.take(i as int).push(rows[i as int]));
            rows.take(i as int).lemma_filter_push(rows[i as int], deletion_changed(since_revision));
        }
        if is_changed(row.system_updated_at, since_revision) {
            let ghost before = found@;
            found.push(map_deletion(row));
            proof {
                assert(deletion_models(found@) =~= deletion_models(before).push(row@));
            }
        }
        i += 1;
    }
    proof {
        assert(rows.take(i as int) =~= rows);
    }
    Ok(found)
}

/// Puts the deletion of resource `resource_id` of kind `type_` at `at` on
/// record. A resource has one record: a second deletion stamps it anew.
pub fn record_deletion(type_: &str, resource_id: String, at: Timestamp, store: &mut Store)
    requires
        old(store).wf(),
    ensures
        final(store).wf(),
        final(store).model() == (StoreModel {
            deletions: deletions_recorded(old(store).model().deletions, type_@, resource_id@, at),
            ..old(store).model()
        }),
{
    let type_ = type_.to_owned();
    let ghost before = store.model();
    match find_deletion(&store.deletions, &type_, &resource_id) {
        Some(i) => {
            proof {
                assert(before.deletions[i as int].type_ == type_@);
            }
            store.deletions.set(i, DeletionRow { type_, resource_id, system_updated_at: at });
            proof {
                assert(store.model().deletions =~= deletions_recorded(
                    before.deletions,
                    type_@,
                    resource_id@,
                    at,
                ));
                assert(store.model().notebooks =~= before.notebooks);
                assert(store.model().notes =~= before.notes);
                assert(store.model().content_blocks =~= before.content_blocks);
            }
        },
        None => {
            proof {
                assert forall|j: int| 0 <= j < before.deletions.len() implies !((
                #[trigger] before.deletions[j]).type_ == type_@ && before.deletions[j].resource_id
                    == resource_id@) by {
                    let row = old(store).deletions@[j];
                    assert(!(row.type_@ == type_@ && row.resource_id@ == resource_id@));
                }
            }
            store.deletions.push(DeletionRow { type_, resource_id, system_updated_at: at });
            proof {
                assert(store.model().deletions =~= deletions_recorded(
                    before.deletions,
                    type_@,
                    resource_id@,
                    at,
                ));
                assert(store.model().notebooks =~= before.notebooks);
                assert(store.model().notes =~= before.notes);
                assert(store.model().content_blocks =~= before.content_blocks);
            }
        },
    }
}

// ---------------------------------------------------------------- notebooks

/// The test that picks the notebooks changed since `since`.
pub open spec fn notebook_changed(since: Option<Timestamp>) -> spec_fn(NotebookModel) -> bool {
    |r: NotebookModel| changed_since(r.revision, since)
}

/// The notebooks among `rows` that changed since `since`, in stored order.
pub open spec fn notebooks_since(rows: Seq<NotebookModel>, since: Option<Timestamp>) -> Seq<
    NotebookModel,
> {
    rows.filter(notebook_changed(since))
}

/// The notebook that a request creates at `now`.
pub open spec fn new_notebook_row(
    notebook: NewNotebook,
    generated: Seq<char>,
    now: Timestamp,
) -> NotebookModel {
    NotebookModel {
        id: chosen_id(notebook.id, generated),
        title: notebook.title@,
        created_at: notebook.created_at,
        updated_at: notebook.updated_at,
        revision: now,
    }
}

/// A notebook after an update at `now`: it has the new title, and its
/// revision has moved forward.
pub open spec fn updated_notebook(r: NotebookModel, title: Seq<char>, now: Timestamp) -> NotebookModel {
    NotebookModel {
        id: r.id,
        title: title,
        created_at: r.created_at,
        updated_at: r.updated_at,
        revision: revision_after(r.revision, now),
    }
}

/// Updates the notebook `id` and leaves every other notebook as it is.
pub open spec fn retitle(id: Seq<char>, title: Seq<char>, now: Timestamp) -> spec_fn(
    NotebookModel,
) -> NotebookModel {
    |r: NotebookModel|
        if r.id == id {
            updated_notebook(r, title, now)
        } else {
            r
        }
}

/// The notebooks after an update of notebook `id`.
pub open spec fn notebooks_updated(
    rows: Seq<NotebookModel>,
    id: Seq<char>,
    title: Seq<char>,
    now: Timestamp,
) -> Seq<NotebookModel> {
    rows.map_values(retitle(id, title, now))
}

/// The test that keeps every notebook but `id`.
pub open spec fn notebook_is_not(id: Seq<char>) -> spec_fn(NotebookModel) -> bool {
    |r: NotebookModel| r.id != id
}

/// The notebooks after the deletion of notebook `id`.
pub open spec fn notebooks_without(rows: Seq<NotebookModel>, id: Seq<char>) -> Seq<NotebookModel> {
    rows.filter(notebook_is_not(id))
}

/// The notebook that a stored row stands for.
fn map_notebook(notebook: &NotebookRow) -> (mapped: Notebook)
    ensures
        mapped@ == notebook@,
{
    Notebook {
        id: notebook.id.clone(),
        title: notebook.title.clone(),
        created_at: notebook.created_at,
        updated_at: notebook.updated_at,
        revision: notebook.system_updated_at,
    }
}

/// The notebooks changed since `since_revision`; all of them when there is
/// none.
pub fn notebooks(since_revision: Option<Timestamp>, store: &Store) -> (result: Result<
    Vec<Notebook>,
    StoreError,
>)
    ensures
        result matches Ok(found) && notebook_models(found@) == notebooks_since(
            store.model().notebooks,
            since_revision,
        ),
{
    let ghost rows = store.model().notebooks;
    let mut found: Vec<Notebook> = Vec::new();
    let mut i: usize = 0;
    proof {
        reveal(Seq::filter);
        assert(notebook_models(found@) =~= notebooks_since(rows.take(0), since_revision));
    }
    while i < store.notebooks.len()
        invariant
            i <= store.notebooks.len(),
            rows == store.model().notebooks,
            notebook_models(found@) == notebooks_since(rows.take(i as int), since_revision),
        decreases store.notebooks.len() - i,
    {
        let row = &store.notebooks[i];
        proof {
            assert(rows.take(i + 1) =~= rows.take(i as int).push(rows[i as int]));
            rows.take(i as int).lemma_filter_push(rows[i as int], notebook_changed(since_revision));
        }
        if is_changed(row.system_updated_at, since_revision) {
            let ghost before = found@;
            found.push(map_notebook(row));
            proof {
                assert(notebook_models(found@) =~= notebook_models(before).push(row@));
            }
        }
        i += 1;
    }
    proof {
        assert(rows.take(i as int) =~= rows);
    }
    Ok(found)
}

/// Stores a new notebook under its supplied id, or under `generated_id` where
/// it has none, stamped `now`. The store refuses an id that is in use.
pub fn create_notebook_at(
    notebook: NewNotebook,
    generated_id: String,
    now: Timestamp,
    store: &mut Store,
) -> (result: Result<Notebook, StoreError>)
    requires
        old(store).wf(),
    ensures
        final(store).wf(),
        old(store).model().holds_id(chosen_id(notebook.id, generated_id@)) ==> (result matches Err(
            e,
        ) && e == StoreError::StorageUnavailable) && final(store).model() == old(store).model(),
        !old(store).model().holds_id(chosen_id(notebook.id, generated_id@)) ==> (
        result matches Ok(created) && created@ == new_notebook_row(notebook, generated_id@, now))
            && final(store).model() == (StoreModel {
            notebooks: old(store).model().notebooks.push(
                new_notebook_row(notebook, generated_id@, now),
            ),
            ..old(store).model()
        }),
{
    let ghost before = store.model();
    let NewNotebook { id, title, created_at, updated_at } = notebook;
    let id = choose_id(id, generated_id);
    if id_in_use(store, &id) {
        return Err(StoreError::StorageUnavailable);
    }
    let row = NotebookRow { id, title, created_at, updated_at, system_updated_at: now };
    let created = map_notebook(&row);
    store.notebooks.push(row);
    proof {
        assert(store.model().notebooks =~= before.notebooks.push(created@));
        assert(store.model().notes =~= before.notes);
        assert(store.model().content_blocks =~= before.content_blocks);
        assert(store.model().deletions =~= before.deletions);
    }
    Ok(created)
}

/// Stores a new notebook, stamped with the time of the call; where it comes
/// without an id it gets a generated one.
pub fn create_notebook(notebook: NewNotebook, store: &mut Store) -> (result: Result<
    Notebook,
    StoreError,
>)
    requires
        old(store).wf(),
    ensures
        final(store).wf(),
        notebook.id matches Some(id) ==> (result is Ok <==> !old(store).model().holds_id(id@)),
        match result {
            Ok(created) => {
                &&& exists|generated: Seq<char>, now: Timestamp|
                    is_generated_id(generated) && created@ == #[trigger] new_notebook_row(
                        notebook,
                        generated,
                        now,
                    )
                &&& !old(store).model().holds_id(created@.id)
                &&& final(store).model() == (StoreModel {
                    notebooks: old(store).model().notebooks.push(created@),
                    ..old(store).model()
                })
            },
            Err(e) => {
                &&& e == StoreError::StorageUnavailable
                &&& final(store).model() == old(store).model()
                &&& exists|generated: Seq<char>|
                    is_generated_id(generated) && old(store).model().holds_id(
                        #[trigger] chosen_id(notebook.id, generated),
                    )
            },
        },
{
    let now = crate::timestamp::now();
    let generated_id = crate::repo_id::generate();
    let ghost generated = generated_id@;
    let result = create_notebook_at(notebook, generated_id, now, store);
    proof {
        if result is Ok {
            assert(new_notebook_row(notebook, generated, now).id == chosen_id(
                notebook.id,
                generated,
            ));
        } else {
            assert(old(store).model().holds_id(chosen_id(notebook.id, generated)));
        }
    }
    result
}

/// Gives notebook `notebook_id` the title of `update`, and moves its
/// revision forward to `now`, or just past the stored revision where the
/// clock has not moved past it. The revision that the update carries is not
/// looked at.
pub fn update_notebook_at(
    notebook_id: &str,
    update: NotebookUpdate,
    now: Timestamp,
    store: &mut Store,
) -> (result: Result<Notebook, StoreError>)
    requires
        old(store).wf(),
    ensures
        final(store).wf(),
        result is Ok <==> old(store).model().has_notebook(notebook_id@),
        match result {
            Ok(updated) => {
                &&& forall|i: int|
                    0 <= i < old(store).model().notebooks.len() && (
                    #[trigger] old(store).model().notebooks[i]).id == notebook_id@ ==> updated@
                        == updated_notebook(old(store).model().notebooks[i], update.title@, now)
                &&& forall|i: int|
                    0 <= i < old(store).model().notebooks.len() && (
                    #[trigger] old(store).model().notebooks[i]).id == notebook_id@ ==> moved_forward(
                        old(store).model().notebooks[i].revision,
                        updated@.revision,
                    )
                &&& final(store).model().notebooks.contains(updated@)
                &&& final(store).model() == (StoreModel {
                    notebooks: notebooks_updated(
                        old(store).model().notebooks,
                        notebook_id@,
                        update.title@,
                        now,
                    ),
                    ..old(store).model()
                })
            },
            Err(e) => e == StoreError::NotFound && final(store).model() == old(store).model(),
        },
{
    let ghost before = store.model();
    let id = notebook_id.to_owned();
    match find_notebook(&store.notebooks, &id) {
        None => {
            proof {
                assert forall|j: int| 0 <= j < before.notebooks.len() implies (
                #[trigger] before.notebooks[j]).id != id@ by {
                    assert(store.notebooks@[j].id@ != id@);
                }
            }
            Err(StoreError::NotFound)
        },
        Some(i) => {
            let created_at = store.notebooks[i].created_at;
            let updated_at = store.notebooks[i].updated_at;
            let revision = stamp_after(store.notebooks[i].system_updated_at, now);
            let row = NotebookRow {
                id,
                title: update.title,
                created_at,
                updated_at,
                system_updated_at: revision,
            };
            let updated = map_notebook(&row);
            store.notebooks.set(i, row);
            proof {
                assert(before.notebooks[i as int].id == notebook_id@);
                assert(store.model().notebooks =~= notebooks_updated(
                    before.notebooks,
                    notebook_id@,
                    update.title@,
                    now,
                ));
                assert(store.model().notebooks[i as int] == updated@);
                assert(store.model().notes =~= before.notes);
                assert(store.model().content_blocks =~= before.content_blocks);
                assert(store.model().deletions =~= before.deletions);
            }
            Ok(updated)
        },
    }
}

/// Gives notebook `notebook_id` the title of `update`, and moves its
/// revision forward to the time of the call.
pub fn update_notebook(notebook_id: &str, update: NotebookUpdate, store: &mut Store) -> (result:
    Result<Notebook, StoreError>)
    requires
        old(store).wf(),
    ensures
        final(store).wf(),
        result is Ok <==> old(store).model().has_notebook(notebook_id@),
        match result {
            Ok(updated) => {
                &&& exists|now: Timestamp|
                    {
                        &&& final(store).model() == (StoreModel {
                            notebooks: #[trigger] notebooks_updated(
                                old(store).model().notebooks,
                                notebook_id@,
                                update.title@,
                                now,
                            ),
                            ..old(store).model()
                        })
                        &&& forall|i: int|
                            0 <= i < old(store).model().notebooks.len() && (
                            #[trigger] old(store).model().notebooks[i]).id == notebook_id@
                                ==> updated@ == updated_notebook(
                                old(store).model().notebooks[i],
                                update.title@,
                                now,
                            )
                    }
                &&& forall|i: int|
                    0 <= i < old(store).model().notebooks.len() && (
                    #[trigger] old(store).model().notebooks[i]).id == notebook_id@ ==> moved_forward(
                        old(store).model().notebooks[i].revision,
                        updated@.revision,
                    )
                &&& final(store).model().notebooks.contains(updated@)
            },
            Err(e) => e == StoreError::NotFound && final(store).model() == old(store).model(),
        },
{
    let now = crate::timestamp::now();
    update_notebook_at(notebook_id, update, now, store)
}

/// Removes notebook `notebook_id` and puts its deletion at `now` on record.
pub fn delete_notebook_at(notebook_id: String, now: Timestamp, store: &mut Store) -> (result:
    Result<(), StoreError>)
    requires
        old(store).wf(),
    ensures
        final(store).wf(),
        !old(store).model().has_notebook(notebook_id@) ==> (result matches Err(e) && e
            == StoreError::NotFound) && final(store).model() == old(store).model(),
        old(store).model().has_notebook(notebook_id@) ==> result is Ok && final(store).model() == (
        StoreModel {
            notebooks: notebooks_without(old(store).model().notebooks, notebook_id@),
            deletions: deletions_recorded(
                old(store).model().deletions,
                notebook_type(),
                notebook_id@,
                now,
            ),
            ..old(store).model()
        }),
{
    let ghost before = store.model();
    match find_notebook(&store.notebooks, &notebook_id) {
        None => {
            proof {
                assert forall|j: int| 0 <= j < before.notebooks.len() implies (
                #[trigger] before.notebooks[j]).id != notebook_id@ by {
                    assert(store.notebooks@[j].id@ != notebook_id@);
                }
            }
            Err(StoreError::NotFound)
        },
        Some(i) => {
            store.notebooks.remove(i);
            proof {
                assert(before.notebooks[i as int].id == notebook_id@);
                assert(store.model().notebooks =~= before.notebooks.remove(i as int));
                lemma_filter_removes_one(
                    before.notebooks,
                    notebook_is_not(notebook_id@),
                    i as int,
                );
                assert(store.model().notes =~= before.notes);
                assert(store.model().content_blocks =~= before.content_blocks);
                assert(store.model().deletions =~= before.deletions);
            }
            record_deletion("Notebook", notebook_id, now, store);
            Ok(())
        },
    }
}

/// Removes notebook `notebook_id` and puts its deletion, at the time of the
/// call, on record.
pub fn delete_notebook(notebook_id: String, store: &mut Store) -> (result: Result<(), StoreError>)
    requires
        old(store).wf(),
    ensures
        final(store).wf(),
        result is Ok <==> old(store).model().has_notebook(notebook_id@),
        match result {
            Ok(_) => {
                &&& final(store).model().notebooks == notebooks_without(
                    old(store).model().notebooks,
                    notebook_id@,
                )
                &&& final(store).model().notes == old(store).model().notes
                &&& final(store).model().content_blocks == old(store).model().content_blocks
                &&& exists|at: Timestamp|
                    final(store).model().deletions == #[trigger] deletions_recorded(
                        old(store).model().deletions,
                        notebook_type(),
                        notebook_id@,
                        at,
                    )
            },
            Err(e) => e == StoreError::NotFound && final(store).model() == old(store).model(),
        },
{
    let now = crate::timestamp::now();
    delete_notebook_at(notebook_id, now, store)
}

} // verus!
