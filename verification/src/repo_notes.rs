//! The operations on notes.

use vstd::prelude::*;
use crate::codec::clone_tags;
use crate::data::{NewNote, Note, NoteModel, NoteUpdate, note_models, note_type, texts};
use crate::repo::{
    changed_since, choose_id, chosen_id, deletions_recorded, find_note, id_in_use, is_changed,
    record_deletion,
};
use crate::repo_id::is_generated_id;
use crate::seq_lemmas::lemma_filter_removes_one;
use crate::store::{NoteRow, NoteRowModel, Store, StoreError, StoreModel};
use crate::timestamp::{Timestamp, moved_forward, revision_after, stamp_after};

verus! {

/// The note that a stored row stands for.
pub open spec fn note_of_row(r: NoteRowModel) -> NoteModel {
    NoteModel {
        id: r.id,
        title: r.title,
        tags: r.tags,
        notebook_id: r.notebook_id,
        created_at: r.created_at,
        updated_at: r.updated_at,
        revision: r.revision,
    }
}

/// `note_of_row` as a function value.
pub open spec fn note_reader() -> spec_fn(NoteRowModel) -> NoteModel {
    |r: NoteRowModel| note_of_row(r)
}

/// The notes that the rows stand for, in their order.
pub open spec fn notes_read(rows: Seq<NoteRowModel>) -> Seq<NoteModel> {
    rows.map_values(note_reader())
}

/// The test that picks the notes changed since `since`.
pub open spec fn note_changed(since: Option<Timestamp>) -> spec_fn(NoteRowModel) -> bool {
    |r: NoteRowModel| changed_since(r.revision, since)
}

/// The rows among `rows` that changed since `since`, in stored order.
pub open spec fn notes_since(rows: Seq<NoteRowModel>, since: Option<Timestamp>) -> Seq<
    NoteRowModel,
> {
    rows.filter(note_changed(since))
}

/// The row that a request for a new note stores at `now`.
pub open spec fn new_note_row(note: NewNote, generated: Seq<char>, now: Timestamp) -> NoteRowModel {
    NoteRowModel {
        id: chosen_id(note.id, generated),
        title: note.title@,
        tags: texts(note.tags@),
        notebook_id: note.notebook_id@,
        created_at: note.created_at,
        updated_at: note.updated_at,
        revision: now,
    }
}

/// The row of a note after an update at `now`: it has the title, the tags
/// and the time of change of `update`, and its revision has moved forward.
pub open spec fn updated_note(r: NoteRowModel, update: NoteUpdate, now: Timestamp) -> NoteRowModel {
    NoteRowModel {
        id: r.id,
        title: update.title@,
        tags: texts(update.tags@),
        notebook_id: r.notebook_id,
        created_at: r.created_at,
        updated_at: update.updated_at,
        revision: revision_after(r.revision, now),
    }
}

/// Updates the note `id` and leaves every other note as it is.
pub open spec fn rewrite_note(id: Seq<char>, update: NoteUpdate, now: Timestamp) -> spec_fn(
    NoteRowModel,
) -> NoteRowModel {
    |r: NoteRowModel|
        if r.id == id {
            updated_note(r, update, now)
        } else {
            r
        }
}

/// The rows after an update of note `id`.
pub open spec fn notes_updated(
    rows: Seq<NoteRowModel>,
    id: Seq<char>,
    update: NoteUpdate,
    now: Timestamp,
) -> Seq<NoteRowModel> {
    rows.map_values(rewrite_note(id, update, now))
}

/// The test that keeps every note but `id`.
pub open spec fn note_is_not(id: Seq<char>) -> spec_fn(NoteRowModel) -> bool {
    |r: NoteRowModel| r.id != id
}

/// The rows after the deletion of note `id`.
pub open spec fn notes_without(rows: Seq<NoteRowModel>, id: Seq<char>) -> Seq<NoteRowModel> {
    rows.filter(note_is_not(id))
}

/// The note that a stored row stands for.
pub(crate) fn map_note(note: &NoteRow) -> (mapped: Note)
    ensures
        mapped@ == note_of_row(note@),
{
    let tags = clone_tags(&note.tags);
    Note {
        id: note.id.clone(),
        title: note.title.clone(),
        tags,
        notebook_id: note.notebook_id.clone(),
        created_at: note.created_at,
        updated_at: note.updated_at,
        revision: note.system_updated_at,
    }
}

/// The notes changed since `since_revision`; all of them when there is none.
pub fn notes(since_revision: Option<Timestamp>, store: &Store) -> (result: Result<
    Vec<Note>,
    StoreError,
>)
    ensures
        result matches Ok(found) && note_models(found@) == notes_read(
            notes_since(store.model().notes, since_revision),
        ),
{
    let ghost rows = store.model().notes;
    let mut found: Vec<Note> = Vec::new();
    let mut i: usize = 0;
    proof {
        reveal(Seq::filter);
        assert(note_models(found@) =~= notes_read(notes_since(rows.take(0), since_revision)));
    }
    while i < store.notes.len()
        invariant
            i <= store.notes.len(),
            rows == store.model().notes,
            note_models(found@) == notes_read(notes_since(rows.take(i as int), since_revision)),
        decreases store.notes.len() - i,
    {
        let row = &store.notes[i];
        proof {
            assert(rows.take(i + 1) =~= rows.take(i as int).push(rows[i as int]));
            rows.take(i as int).lemma_filter_push(rows[i as int], note_changed(since_revision));
        }
        if is_changed(row.system_updated_at, since_revision) {
            let ghost before = found@;
            found.push(map_note(row));
            proof {
                let kept = notes_since(rows.take(i as int), since_revision);
                assert(notes_read(kept.push(row@)) =~= notes_read(kept).push(note_of_row(row@)));
                assert(note_models(found@) =~= note_models(before).push(note_of_row(row@)));
            }
        }
        i += 1;
    }
    proof {
        assert(rows.take(i as int) =~= rows);
    }
    Ok(found)
}

/// Stores a new note under its supplied id, or under `generated_id` where it
/// has none, stamped `now`. The store refuses an id that is in use.
pub fn create_note_at(note: NewNote, generated_id: String, now: Timestamp, store: &mut Store) -> (result:
    Result<Note, StoreError>)
    requires
        old(store).wf(),
    ensures
        final(store).wf(),
        old(store).model().holds_id(chosen_id(note.id, generated_id@)) ==> (result matches Err(e)
            && e == StoreError::StorageUnavailable) && final(store).model() == old(store).model(),
        !old(store).model().holds_id(chosen_id(note.id, generated_id@)) ==> ({
            &&& result matches Ok(created) && created@ == note_of_row(
                new_note_row(note, generated_id@, now),
            )
            &&& final(store).model() == (StoreModel {
                notes: old(store).model().notes.push(new_note_row(note, generated_id@, now)),
                ..old(store).model()
            })
        }),
{
    let ghost before = store.model();
    let NewNote { id, title, tags, created_at, updated_at, notebook_id } = note;
    let id = choose_id(id, generated_id);
    if id_in_use(store, &id) {
        return Err(StoreError::StorageUnavailable);
    }
    let row = NoteRow {
        id,
        title,
        tags,
        notebook_id,
        created_at,
        updated_at,
        system_updated_at: now,
    };
    let created = map_note(&row);
    store.notes.push(row);
    proof {
        assert(store.model().notes =~= before.notes.push(new_note_row(note, generated_id@, now)));
        assert(store.model().notebooks =~= before.notebooks);
        assert(store.model().content_blocks =~= before.content_blocks);
        assert(store.model().deletions =~= before.deletions);
    }
    Ok(created)
}

/// Stores a new note, stamped with the time of the call; where it comes
/// without an id it gets a generated one.
pub fn create_note(note: NewNote, store: &mut Store) -> (result: Result<Note, StoreError>)
    requires
        old(store).wf(),
    ensures
        final(store).wf(),
        match result {
            Ok(created) => {
                &&& exists|generated: Seq<char>, now: Timestamp|
                    {
                        &&& is_generated_id(generated)
                        &&& created@ == note_of_row(#[trigger] new_note_row(note, generated, now))
                        &&& final(store).model() == (StoreModel {
                            notes: old(store).model().notes.push(
                                new_note_row(note, generated, now),
                            ),
                            ..old(store).model()
                        })
                    }
                &&& !old(store).model().holds_id(created@.id)
                &&& note.id matches Some(id) ==> created@.id == id@
            },
            Err(e) => {
                &&& e == StoreError::StorageUnavailable
                &&& final(store).model() == old(store).model()
                &&& exists|generated: Seq<char>|
                    is_generated_id(generated) && old(store).model().holds_id(
                        #[trigger] chosen_id(note.id, generated),
                    )
            },
        },
        note.id matches Some(id) ==> (result is Ok <==> !old(store).model().holds_id(id@)),
{
    let now = crate::timestamp::now();
    let generated_id = crate::repo_id::generate();
    let ghost generated = generated_id@;
    let result = create_note_at(note, generated_id, now, store);
    proof {
        if result is Ok {
            assert(new_note_row(note, generated, now).id == chosen_id(note.id, generated));
        } else {
            assert(old(store).model().holds_id(chosen_id(note.id, generated)));
        }
    }
    result
}

/// Gives note `note_id` the title, tags and time of change of `update`, and
/// moves its revision forward to `now`, or just past the stored revision
/// where the clock has not moved past it. The revision that the update
/// carries is not looked at.
pub fn update_note_at(note_id: &str, update: NoteUpdate, now: Timestamp, store: &mut Store) -> (result:
    Result<Note, StoreError>)
    requires
        old(store).wf(),
    ensures
        final(store).wf(),
        result is Ok <==> old(store).model().has_note(note_id@),
        match result {
            Ok(updated) => {
                &&& forall|i: int|
                    0 <= i < old(store).model().notes.len() && (
                    #[trigger] old(store).model().notes[i]).id == note_id@ ==> updated@
                        == note_of_row(updated_note(old(store).model().notes[i], update, now))
                &&& forall|i: int|
                    0 <= i < old(store).model().notes.len() && (
                    #[trigger] old(store).model().notes[i]).id == note_id@ ==> moved_forward(
                        old(store).model().notes[i].revision,
                        updated@.revision,
                    )
                &&& notes_read(final(store).model().notes).contains(updated@)
                &&& final(store).model() == (StoreModel {
                    notes: notes_updated(old(store).model().notes, note_id@, update, now),
                    ..old(store).model()
                })
            },
            Err(e) => e == StoreError::NotFound && final(store).model() == old(store).model(),
        },
{
    let ghost before = store.model();
    let id = note_id.to_owned();
    match find_note(&store.notes, &id) {
        None => {
            proof {
                assert forall|j: int| 0 <= j < before.notes.len() implies (
                #[trigger] before.notes[j]).id != id@ by {
                    assert(store.notes@[j].id@ != id@);
                }
            }
            Err(StoreError::NotFound)
        },
        Some(i) => {
            let created_at = store.notes[i].created_at;
            let notebook_id = store.notes[i].notebook_id.clone();
            let revision = stamp_after(store.notes[i].system_updated_at, now);
            let row = NoteRow {
                id,
                title: update.title,
                tags: update.tags,
                notebook_id,
                created_at,
                updated_at: update.updated_at,
                system_updated_at: revision,
            };
            let updated = map_note(&row);
            store.notes.set(i, row);
            proof {
                assert(before.notes[i as int].id == note_id@);
                assert(store.model().notes =~= notes_updated(before.notes, note_id@, update, now));
                assert(notes_read(store.model().notes)[i as int] == updated@);
                assert(store.model().notebooks =~= before.notebooks);
                assert(store.model().content_blocks =~= before.content_blocks);
                assert(store.model().deletions =~= before.deletions);
            }
            Ok(updated)
        },
    }
}

/// Gives note `note_id` the title, tags and time of change of `update`, and
/// moves its revision forward to the time of the call.
pub fn update_note(note_id: &str, update: NoteUpdate, store: &mut Store) -> (result: Result<
    Note,
    StoreError,
>)
    requires
        old(store).wf(),
    ensures
        final(store).wf(),
        result is Ok <==> old(store).model().has_note(note_id@),
        match result {
            Ok(updated) => {
                &&& exists|now: Timestamp|
                    {
                        &&& final(store).model() == (StoreModel {
                            notes: #[trigger] notes_updated(
                                old(store).model().notes,
                                note_id@,
                                update,
                                now,
                            ),
                            ..old(store).model()
                        })
                        &&& forall|i: int|
                            0 <= i < old(store).model().notes.len() && (
                            #[trigger] old(store).model().notes[i]).id == note_id@ ==> updated@
                                == note_of_row(
                                updated_note(old(store).model().notes[i], update, now),
                            )
                    }
                &&& forall|i: int|
                    0 <= i < old(store).model().notes.len() && (
                    #[trigger] old(store).model().notes[i]).id == note_id@ ==> moved_forward(
                        old(store).model().notes[i].revision,
                        updated@.revision,
                    )
                &&& notes_read(final(store).model().notes).contains(updated@)
            },
            Err(e) => e == StoreError::NotFound && final(store).model() == old(store).model(),
        },
{
    let now = crate::timestamp::now();
    update_note_at(note_id, update, now, store)
}

/// Removes note `note_id` and puts its deletion at `now` on record.
pub fn delete_note_at(note_id: String, now: Timestamp, store: &mut Store) -> (result: Result<
    (),
    StoreError,
>)
    requires
        old(store).wf(),
    ensures
        final(store).wf(),
        !old(store).model().has_note(note_id@) ==> (result matches Err(e) && e
            == StoreError::NotFound) && final(store).model() == old(store).model(),
        old(store).model().has_note(note_id@) ==> result is Ok && final(store).model() == (
        StoreModel {
            notes: notes_without(old(store).model().notes, note_id@),
            deletions: deletions_recorded(old(store).model().deletions, note_type(), note_id@, now),
            ..old(store).model()
        }),
{
    let ghost before = store.model();
    match find_note(&store.notes, &note_id) {
        None => {
            proof {
                assert forall|j: int| 0 <= j < before.notes.len() implies (
                #[trigger] before.notes[j]).id != note_id@ by {
                    assert(store.notes@[j].id@ != note_id@);
                }
            }
            Err(StoreError::NotFound)
        },
        Some(i) => {
            store.notes.remove(i);
            proof {
                assert(before.notes[i as int].id == note_id@);
                assert(store.model().notes =~= before.notes.remove(i as int));
                lemma_filter_removes_one(before.notes, note_is_not(note_id@), i as int);
                assert(store.model().notebooks =~= before.notebooks);
                assert(store.model().content_blocks =~= before.content_blocks);
                assert(store.model().deletions =~= before.deletions);
            }
            record_deletion("Note", note_id, now, store);
            Ok(())
        },
    }
}

/// Removes note `note_id` and puts its deletion, at the time of the call, on
/// record.
pub fn delete_note(note_id: String, store: &mut Store) -> (result: Result<(), StoreError>)
    requires
        old(store).wf(),
    ensures
        final(store).wf(),
        result is Ok <==> old(store).model().has_note(note_id@),
        match result {
            Ok(_) => exists|at: Timestamp|
                final(store).model() == (StoreModel {
                    notes: notes_without(old(store).model().notes, note_id@),
                    deletions: #[trigger] deletions_recorded(
                        old(store).model().deletions,
                        note_type(),
                        note_id@,
                        at,
                    ),
                    ..old(store).model()
                }),
            Err(e) => e == StoreError::NotFound && final(store).model() == old(store).model(),
        },
{
    let now = crate::timestamp::now();
    delete_note_at(note_id, now, store)
}

} // verus!
