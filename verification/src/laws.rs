//! What holds of the store and its sync responses, whatever they hold.

use vstd::prelude::*;
use crate::api::{
    ResourceModel, changes_since, derived_revision, poll_time, resource_of, resources_of,
    revisions_of,
};
use crate::data::{
    ContentBlockModel, ContentBlockUpdate, DeletionModel, NewContentBlock, NewNote, NewNotebook,
    NoteModel, NoteUpdate, NotebookModel, content_block_type, note_type, notebook_type, texts,
};
use crate::codec::reads_back;
use crate::repo_content_blocks::{
    all_decodable, block_changed, block_is_not, block_of_row, block_reader, blocks_read,
    content_blocks_since, content_blocks_updated, content_blocks_without, new_block,
    new_block_row, rewrite_block, updated_block, updated_block_row,
};
use crate::repo_notes::{
    new_note_row, note_changed, note_is_not, note_of_row, note_reader, notes_read, notes_since,
    notes_updated, notes_without, rewrite_note, updated_note,
};
use crate::repo::{
    changed_since, deletion_changed, deletion_on_record, deletions_recorded,
    deletions_since, new_notebook_row, notebook_changed, notebook_is_not, notebooks_since,
    notebooks_updated, notebooks_without, restamp, retitle, updated_notebook,
};
use crate::seq_lemmas::{
    lemma_filter_keeps_all, lemma_filter_keeps_none, lemma_filter_member, lemma_map_member,
};
use crate::store::StoreModel;
use crate::timestamp::{Timestamp, law_revisions_move_forward};

verus! {

// ------------------------------------------------------------ the revision

/// The revision of a response is no earlier than any stamp in it, and where
/// the response holds anything it is one of its stamps.
pub proof fn law_revision_covers_every_stamp(stamps: Seq<Timestamp>, now: Timestamp)
    ensures
        forall|i: int|
            0 <= i < stamps.len() ==> (#[trigger] stamps[i]).instant() <= derived_revision(
                stamps,
                now,
            ).instant(),
        stamps.len() > 0 ==> stamps.contains(derived_revision(stamps, now)),
        stamps.len() == 0 ==> derived_revision(stamps, now) == now,
    decreases stamps.len(),
{
    if stamps.len() > 1 {
        let front = stamps.drop_last();
        law_revision_covers_every_stamp(front, now);
        let best = derived_revision(front, now);
        assert forall|i: int| 0 <= i < stamps.len() implies (#[trigger] stamps[i]).instant()
            <= derived_revision(stamps, now).instant() by {
            if i < front.len() {
                assert(front[i] == stamps[i]);
            }
        }
        if derived_revision(stamps, now) == best {
            let k = choose|k: int| 0 <= k < front.len() && front[k] == best;
            assert(stamps[k] == best);
        } else {
            assert(stamps[stamps.len() - 1] == stamps.last());
        }
    } else if stamps.len() == 1 {
        assert(stamps[0] == derived_revision(stamps, now));
    }
}

/// Where nothing changed and the clock has moved past the revision that the
/// client holds, the response carries the time at which it was made.
pub proof fn law_empty_poll_carries_the_time(now: Timestamp, held: Timestamp)
    requires
        now.instant() >= held.instant(),
    ensures
        derived_revision(Seq::<Timestamp>::empty(), poll_time(Some(held), now)) == now,
        derived_revision(Seq::<Timestamp>::empty(), poll_time(None, now)) == now,
{
    crate::timestamp::law_instants_order_timestamps(now, held);
}

// --------------------------------------------------------------- notebooks

/// A notebook created at `now` is in every full sync made right after, with
/// the revision `now`.
pub proof fn law_created_notebook_is_synced(
    store: StoreModel,
    notebook: NewNotebook,
    generated: Seq<char>,
    now: Timestamp,
    at: Timestamp,
)
    ensures
        ({
            let created = new_notebook_row(notebook, generated, now);
            let after = StoreModel { notebooks: store.notebooks.push(created), ..store };
            &&& changes_since(after, None, at).notebooks.contains(created)
            &&& created.revision == now
        }),
{
    let created = new_notebook_row(notebook, generated, now);
    let rows = store.notebooks.push(created);
    assert(rows[rows.len() - 1] == created);
    lemma_filter_member(rows, notebook_changed(None), created);
}

/// An update of a notebook gives it a strictly later revision, which is no
/// earlier than `now`; a sync since the old revision reports the updated
/// notebook, and a sync since the new revision reports no notebook of that
/// id. Only a notebook stamped with the last timestamp there is cannot move
/// forward.
pub proof fn law_updated_notebook_is_synced(
    store: StoreModel,
    i: int,
    title: Seq<char>,
    now: Timestamp,
    at: Timestamp,
)
    requires
        store.wf(),
        0 <= i < store.notebooks.len(),
        !store.notebooks[i].revision.is_last(),
    ensures
        ({
            let before = store.notebooks[i];
            let rows = notebooks_updated(store.notebooks, before.id, title, now);
            let after = StoreModel { notebooks: rows, ..store };
            &&& rows[i] == updated_notebook(before, title, now)
            &&& rows[i].revision.instant() > before.revision.instant()
            &&& rows[i].revision.instant() >= now.instant()
            &&& changes_since(after, Some(before.revision), at).notebooks.contains(rows[i])
            &&& forall|n: NotebookModel|
                changes_since(after, Some(rows[i].revision), at).notebooks.contains(n) ==> n.id
                    != before.id
        }),
{
    let before = store.notebooks[i];
    let rows = notebooks_updated(store.notebooks, before.id, title, now);
    assert(rows[i] == retitle(before.id, title, now)(store.notebooks[i]));
    law_revisions_move_forward(before.revision, now);
    lemma_filter_member(rows, notebook_changed(Some(before.revision)), rows[i]);
    assert forall|n: NotebookModel|
        notebooks_since(rows, Some(rows[i].revision)).contains(n) implies n.id != before.id by {
        lemma_filter_member(rows, notebook_changed(Some(rows[i].revision)), n);
        let k = choose|k: int| 0 <= k < rows.len() && rows[k] == n;
        assert(rows[k] == retitle(before.id, title, now)(store.notebooks[k]));
        if store.notebooks[k].id == before.id {
            assert(k == i);
        }
    }
}

/// After notebook `id` is deleted at `now`, no sync reports a notebook `id`
/// as changed, and every sync since a revision earlier than `now`, and every
/// full sync, reports its deletion.
pub proof fn law_deleted_notebook_is_synced(
    store: StoreModel,
    id: Seq<char>,
    now: Timestamp,
    since: Option<Timestamp>,
    at: Timestamp,
)
    ensures
        ({
            let after = StoreModel {
                notebooks: notebooks_without(store.notebooks, id),
                deletions: deletions_recorded(store.deletions, notebook_type(), id, now),
                ..store
            };
            &&& forall|n: NotebookModel|
                changes_since(after, since, at).notebooks.contains(n) ==> n.id != id
            &&& changed_since(now, since) ==> changes_since(after, since, at).deletions.contains(
                ResourceModel { id: id, type_: notebook_type() },
            )
        }),
{
    let rows = notebooks_without(store.notebooks, id);
    assert forall|n: NotebookModel| notebooks_since(rows, since).contains(n) implies n.id
        != id by {
        lemma_filter_member(rows, notebook_changed(since), n);
        lemma_filter_member(store.notebooks, notebook_is_not(id), n);
    }
    if changed_since(now, since) {
        lemma_recorded_deletion_is_reported(store.deletions, notebook_type(), id, now, since);
    }
}

/// A deletion put on record at `now` is reported by every sync since a
/// revision earlier than `now`, and by every full sync.
pub proof fn lemma_recorded_deletion_is_reported(
    rows: Seq<DeletionModel>,
    type_: Seq<char>,
    id: Seq<char>,
    now: Timestamp,
    since: Option<Timestamp>,
)
    requires
        changed_since(now, since),
    ensures
        resources_of(deletions_since(deletions_recorded(rows, type_, id, now), since)).contains(
            ResourceModel { id: id, type_: type_ },
        ),
{
    let after = deletions_recorded(rows, type_, id, now);
    let record = DeletionModel { type_: type_, resource_id: id, system_updated_at: now };
    if deletion_on_record(rows, type_, id) {
        let k = choose|k: int|
            0 <= k < rows.len() && (#[trigger] rows[k]).type_ == type_ && rows[k].resource_id == id;
        assert(after[k] == restamp(type_, id, now)(rows[k]));
        assert(after[k] == record);
    } else {
        assert(after[after.len() - 1] == record);
    }
    assert(after.contains(record));
    lemma_filter_member(after, deletion_changed(since), record);
    let kept = deletions_since(after, since);
    let j = choose|j: int| 0 <= j < kept.len() && kept[j] == record;
    assert(resources_of(kept)[j] == resource_of(record));
}

// ------------------------------------------------------------------- notes

/// A note created at `now` is in every full sync made right after, with the
/// revision `now`.
pub proof fn law_created_note_is_synced(
    store: StoreModel,
    note: NewNote,
    generated: Seq<char>,
    now: Timestamp,
    at: Timestamp,
)
    ensures
        ({
            let created = new_note_row(note, generated, now);
            let after = StoreModel { notes: store.notes.push(created), ..store };
            &&& changes_since(after, None, at).notes.contains(note_of_row(created))
            &&& note_of_row(created).tags == texts(note.tags@)
            &&& note_of_row(created).revision == now
        }),
{
    let created = new_note_row(note, generated, now);
    let rows = store.notes.push(created);
    assert(rows[rows.len() - 1] == created);
    lemma_filter_member(rows, note_changed(None), created);
    lemma_map_member(notes_since(rows, None), note_reader(), note_of_row(created));
}

/// An update of a note gives it a strictly later revision, which is no
/// earlier than `now`, and the tags of the update as they are; a sync since
/// the old revision reports the updated note, and a sync since the new
/// revision reports no note of that id. Only a note stamped with the last
/// timestamp there is cannot move forward.
pub proof fn law_updated_note_is_synced(
    store: StoreModel,
    i: int,
    update: NoteUpdate,
    now: Timestamp,
    at: Timestamp,
)
    requires
        store.wf(),
        0 <= i < store.notes.len(),
        !store.notes[i].revision.is_last(),
    ensures
        ({
            let before = store.notes[i];
            let rows = notes_updated(store.notes, before.id, update, now);
            let after = StoreModel { notes: rows, ..store };
            &&& rows[i] == updated_note(before, update, now)
            &&& note_of_row(rows[i]).tags == texts(update.tags@)
            &&& rows[i].revision.instant() > before.revision.instant()
            &&& rows[i].revision.instant() >= now.instant()
            &&& changes_since(after, Some(before.revision), at).notes.contains(
                note_of_row(rows[i]),
            )
            &&& forall|n: NoteModel|
                changes_since(after, Some(rows[i].revision), at).notes.contains(n) ==> n.id
                    != before.id
        }),
{
    let before = store.notes[i];
    let rows = notes_updated(store.notes, before.id, update, now);
    assert(rows[i] == rewrite_note(before.id, update, now)(store.notes[i]));
    law_revisions_move_forward(before.revision, now);
    lemma_filter_member(rows, note_changed(Some(before.revision)), rows[i]);
    lemma_map_member(
        notes_since(rows, Some(before.revision)),
        note_reader(),
        note_of_row(rows[i]),
    );
    let cursor = Some(rows[i].revision);
    assert forall|n: NoteModel| notes_read(notes_since(rows, cursor)).contains(n) implies n.id
        != before.id by {
        lemma_map_member(notes_since(rows, cursor), note_reader(), n);
        let r = choose|r| #[trigger] notes_since(rows, cursor).contains(r) && note_reader()(r) == n;
        lemma_filter_member(rows, note_changed(cursor), r);
        let k = choose|k: int| 0 <= k < rows.len() && rows[k] == r;
        assert(rows[k] == rewrite_note(before.id, update, now)(store.notes[k]));
        if store.notes[k].id == before.id {
            assert(k == i);
        }
    }
}

/// After note `id` is deleted at `now`, no sync reports a note `id` as
/// changed, and every sync since a revision earlier than `now`, and every
/// full sync, reports its deletion.
pub proof fn law_deleted_note_is_synced(
    store: StoreModel,
    id: Seq<char>,
    now: Timestamp,
    since: Option<Timestamp>,
    at: Timestamp,
)
    ensures
        ({
            let after = StoreModel {
                notes: notes_without(store.notes, id),
                deletions: deletions_recorded(store.deletions, note_type(), id, now),
                ..store
            };
            &&& forall|n: NoteModel|
                changes_since(after, since, at).notes.contains(n) ==> n.id != id
            &&& changed_since(now, since) ==> changes_since(after, since, at).deletions.contains(
                ResourceModel { id: id, type_: note_type() },
            )
        }),
{
    let rows = notes_without(store.notes, id);
    assert forall|n: NoteModel| notes_read(notes_since(rows, since)).contains(n) implies n.id
        != id by {
        lemma_map_member(notes_since(rows, since), note_reader(), n);
        let r = choose|r| #[trigger] notes_since(rows, since).contains(r) && note_reader()(r) == n;
        lemma_filter_member(rows, note_changed(since), r);
        lemma_filter_member(store.notes, note_is_not(id), r);
    }
    if changed_since(now, since) {
        lemma_recorded_deletion_is_reported(store.deletions, note_type(), id, now, since);
    }
}

// ---------------------------------------------------------- content blocks

/// A content block created at `now` in a store whose documents can all be
/// read is in every full sync made right after, with the content given and
/// the revision `now`, and that sync can be made.
pub proof fn law_created_content_block_is_synced(
    store: StoreModel,
    block: NewContentBlock,
    generated: Seq<char>,
    now: Timestamp,
    at: Timestamp,
)
    requires
        all_decodable(store.content_blocks),
        reads_back(block.content@),
    ensures
        ({
            let created = new_block_row(block, generated, now);
            let after = StoreModel { content_blocks: store.content_blocks.push(created), ..store };
            &&& all_decodable(content_blocks_since(after.content_blocks, None))
            &&& changes_since(after, None, at).content_blocks.contains(
                new_block(block, generated, now),
            )
            &&& new_block(block, generated, now).content == block.content@
            &&& new_block(block, generated, now).revision == now
        }),
{
    let created = new_block_row(block, generated, now);
    let rows = store.content_blocks.push(created);
    assert(rows[rows.len() - 1] == created);
    assert(block_of_row(created) == new_block(block, generated, now));
    lemma_filter_member(rows, block_changed(None), created);
    lemma_map_member(content_blocks_since(rows, None), block_reader(), block_of_row(created));
    lemma_filter_keeps_all(rows, block_changed(None));
}

/// An update of a content block, with a content that its document gives
/// back, gives the block a strictly later revision, which is no earlier than
/// `now`, and the content of the update; a sync since the old revision
/// reports the updated block, and a sync since the new revision reports no
/// content block of that id. Only a block stamped with the last timestamp
/// there is cannot move forward.
pub proof fn law_updated_content_block_is_synced(
    store: StoreModel,
    i: int,
    update: ContentBlockUpdate,
    now: Timestamp,
    at: Timestamp,
)
    requires
        store.wf(),
        0 <= i < store.content_blocks.len(),
        !store.content_blocks[i].revision.is_last(),
        reads_back(update.content@),
    ensures
        ({
            let before = store.content_blocks[i];
            let rows = content_blocks_updated(store.content_blocks, before.id, update, now);
            let after = StoreModel { content_blocks: rows, ..store };
            let updated = updated_block(before, update, now);
            &&& rows[i] == updated_block_row(before, update, now)
            &&& updated.content == update.content@
            &&& updated.revision.instant() > before.revision.instant()
            &&& updated.revision.instant() >= now.instant()
            &&& changes_since(after, Some(before.revision), at).content_blocks.contains(updated)
            &&& forall|c: ContentBlockModel|
                changes_since(after, Some(updated.revision), at).content_blocks.contains(c)
                    ==> c.id != before.id
        }),
{
    let before = store.content_blocks[i];
    let rows = content_blocks_updated(store.content_blocks, before.id, update, now);
    assert(rows[i] == rewrite_block(before.id, update, now)(store.content_blocks[i]));
    assert(block_of_row(rows[i]) == updated_block(before, update, now));
    law_revisions_move_forward(before.revision, now);
    lemma_filter_member(rows, block_changed(Some(before.revision)), rows[i]);
    lemma_map_member(
        content_blocks_since(rows, Some(before.revision)),
        block_reader(),
        block_of_row(rows[i]),
    );
    let cursor = Some(rows[i].revision);
    assert forall|c: ContentBlockModel|
        blocks_read(content_blocks_since(rows, cursor)).contains(c) implies c.id
        != before.id by {
        lemma_map_member(content_blocks_since(rows, cursor), block_reader(), c);
        let r = choose|r| #[trigger]
            content_blocks_since(rows, cursor).contains(r) && block_reader()(r) == c;
        lemma_filter_member(rows, block_changed(cursor), r);
        let k = choose|k: int| 0 <= k < rows.len() && rows[k] == r;
        assert(rows[k] == rewrite_block(before.id, update, now)(store.content_blocks[k]));
        if store.content_blocks[k].id == before.id {
            assert(k == i);
        }
    }
}

/// After content block `id` is deleted at `now`, no sync reports a content
/// block `id` as changed, and every sync since a revision earlier than
/// `now`, and every full sync, reports its deletion.
pub proof fn law_deleted_content_block_is_synced(
    store: StoreModel,
    id: Seq<char>,
    now: Timestamp,
    since: Option<Timestamp>,
    at: Timestamp,
)
    ensures
        ({
            let after = StoreModel {
                content_blocks: content_blocks_without(store.content_blocks, id),
                deletions: deletions_recorded(store.deletions, content_block_type(), id, now),
                ..store
            };
            &&& forall|c: ContentBlockModel|
                changes_since(after, since, at).content_blocks.contains(c) ==> c.id != id
            &&& changed_since(now, since) ==> changes_since(after, since, at).deletions.contains(
                ResourceModel { id: id, type_: content_block_type() },
            )
        }),
{
    let rows = content_blocks_without(store.content_blocks, id);
    assert forall|c: ContentBlockModel|
        blocks_read(content_blocks_since(rows, since)).contains(c) implies c.id != id by {
        lemma_map_member(content_blocks_since(rows, since), block_reader(), c);
        let r = choose|r| #[trigger]
            content_blocks_since(rows, since).contains(r) && block_reader()(r) == c;
        lemma_filter_member(rows, block_changed(since), r);
        lemma_filter_member(store.content_blocks, block_is_not(id), r);
    }
    if changed_since(now, since) {
        lemma_recorded_deletion_is_reported(store.deletions, content_block_type(), id, now, since);
    }
}

// ---------------------------------------------------------------- the store

/// A deletion record is never lost: whatever deletion was on record before
/// another is recorded is on record after, and so is the one recorded.
pub proof fn law_deletions_are_kept(
    rows: Seq<DeletionModel>,
    type_: Seq<char>,
    id: Seq<char>,
    at: Timestamp,
    other_type: Seq<char>,
    other_id: Seq<char>,
)
    ensures
        deletion_on_record(deletions_recorded(rows, type_, id, at), type_, id),
        deletion_on_record(rows, other_type, other_id) ==> deletion_on_record(
            deletions_recorded(rows, type_, id, at),
            other_type,
            other_id,
        ),
{
    let after = deletions_recorded(rows, type_, id, at);
    if deletion_on_record(rows, type_, id) {
        let k = choose|k: int|
            0 <= k < rows.len() && (#[trigger] rows[k]).type_ == type_ && rows[k].resource_id == id;
        assert(after[k] == restamp(type_, id, at)(rows[k]));
    } else {
        assert(after[after.len() - 1].type_ == type_);
    }
    if deletion_on_record(rows, other_type, other_id) {
        let j = choose|j: int|
            0 <= j < rows.len() && (#[trigger] rows[j]).type_ == other_type && rows[j].resource_id
                == other_id;
        if deletion_on_record(rows, type_, id) {
            assert(after[j] == restamp(type_, id, at)(rows[j]));
        } else {
            assert(after[j] == rows[j]);
        }
        assert(after[j].type_ == other_type && after[j].resource_id == other_id);
    }
}

/// A full sync of a well-formed store reports every stored resource, each
/// once: it lists the stored rows in their order, and no two of the
/// resources in it share an id, whatever their kinds.
pub proof fn law_full_sync_lists_each_resource_once(store: StoreModel, at: Timestamp)
    requires
        store.wf(),
    ensures
        ({
            let all = changes_since(store, None, at);
            &&& all.notebooks == store.notebooks
            &&& all.notes == notes_read(store.notes)
            &&& all.content_blocks == blocks_read(store.content_blocks)
            &&& all.deletions == resources_of(store.deletions)
            &&& forall|i: int, j: int|
                0 <= i < j < all.notebooks.len() ==> (#[trigger] all.notebooks[i]).id != (
                #[trigger] all.notebooks[j]).id
            &&& forall|i: int, j: int|
                0 <= i < j < all.notes.len() ==> (#[trigger] all.notes[i]).id != (
                #[trigger] all.notes[j]).id
            &&& forall|i: int, j: int|
                0 <= i < j < all.content_blocks.len() ==> (#[trigger] all.content_blocks[i]).id
                    != (#[trigger] all.content_blocks[j]).id
            &&& forall|i: int, j: int|
                0 <= i < all.notebooks.len() && 0 <= j < all.notes.len() ==> (
                #[trigger] all.notebooks[i]).id != (#[trigger] all.notes[j]).id
            &&& forall|i: int, j: int|
                0 <= i < all.notebooks.len() && 0 <= j < all.content_blocks.len() ==> (
                #[trigger] all.notebooks[i]).id != (#[trigger] all.content_blocks[j]).id
            &&& forall|i: int, j: int|
                0 <= i < all.notes.len() && 0 <= j < all.content_blocks.len() ==> (
                #[trigger] all.notes[i]).id != (#[trigger] all.content_blocks[j]).id
        }),
{
    lemma_filter_keeps_all(store.notebooks, notebook_changed(None));
    lemma_filter_keeps_all(store.notes, note_changed(None));
    lemma_filter_keeps_all(store.content_blocks, block_changed(None));
    lemma_filter_keeps_all(store.deletions, deletion_changed(None));
    let all = changes_since(store, None, at);
    assert forall|i: int| 0 <= i < all.notes.len() implies (#[trigger] all.notes[i]).id
        == store.notes[i].id by {
        assert(all.notes[i] == note_reader()(store.notes[i]));
    }
    assert forall|i: int| 0 <= i < all.content_blocks.len() implies (
    #[trigger] all.content_blocks[i]).id == store.content_blocks[i].id by {
        assert(all.content_blocks[i] == block_reader()(store.content_blocks[i]));
    }
}

/// The revision of a response is never earlier than the revision that the
/// client asked with, whatever the clock shows: a cursor does not move back,
/// over empty polls as over any others.
pub proof fn law_cursor_never_moves_back(
    store: StoreModel,
    held: Timestamp,
    now: Timestamp,
)
    ensures
        changes_since(store, Some(held), now).revision.instant() >= held.instant(),
        changes_since(store, Some(held), now).revision.instant() >= now.instant()
            || changes_since(store, Some(held), now).notebooks.len() + changes_since(
            store,
            Some(held),
            now,
        ).notes.len() + changes_since(store, Some(held), now).content_blocks.len()
            + changes_since(store, Some(held), now).deletions.len() > 0,
{
    lemma_cursor_is_past_the_poll(store, Some(held), now);
}

/// The revision of a response to a poll since `since` is the stamp of
/// something that changed since then, or the time of an empty poll; either
/// way it is no earlier than `since`.
pub proof fn lemma_cursor_is_past_the_poll(
    store: StoreModel,
    since: Option<Timestamp>,
    now: Timestamp,
)
    ensures
        since matches Some(held) ==> changes_since(store, since, now).revision.instant()
            >= held.instant(),
        changes_since(store, since, now).revision == derived_revision(
            revisions_of(
                notebooks_since(store.notebooks, since),
                notes_read(notes_since(store.notes, since)),
                blocks_read(content_blocks_since(store.content_blocks, since)),
                deletions_since(store.deletions, since),
            ),
            poll_time(since, now),
        ),
{
    let first = changes_since(store, since, now);
    let a = notebooks_since(store.notebooks, since);
    let b = notes_since(store.notes, since);
    let c = content_blocks_since(store.content_blocks, since);
    let d = deletions_since(store.deletions, since);
    let stamps = revisions_of(a, notes_read(b), blocks_read(c), d);
    law_revision_covers_every_stamp(stamps, poll_time(since, now));
    let cursor = first.revision;
    if stamps.len() > 0 {
        let k = choose|k: int| 0 <= k < stamps.len() && stamps[k] == cursor;
        if k < a.len() {
            assert(a.contains(a[k]));
            lemma_filter_member(store.notebooks, notebook_changed(since), a[k]);
        } else if k < a.len() + b.len() {
            let r = b[k - a.len()];
            assert(b.contains(r));
            assert(notes_read(b)[k - a.len()] == note_reader()(r));
            lemma_filter_member(store.notes, note_changed(since), r);
        } else if k < a.len() + b.len() + c.len() {
            let r = c[k - a.len() - b.len()];
            assert(c.contains(r));
            assert(blocks_read(c)[k - a.len() - b.len()] == block_reader()(r));
            lemma_filter_member(store.content_blocks, block_changed(since), r);
        } else {
            let r = d[k - a.len() - b.len() - c.len()];
            assert(d.contains(r));
            lemma_filter_member(store.deletions, deletion_changed(since), r);
        }
        assert(changed_since(cursor, since));
    }
}

/// A client that asks again with the revision of a response is sent nothing:
/// whatever changed since `since` carries a stamp no later than that
/// revision.
pub proof fn law_no_redelivery(
    store: StoreModel,
    since: Option<Timestamp>,
    now: Timestamp,
    at: Timestamp,
)
    ensures
        ({
            let again = changes_since(store, Some(changes_since(store, since, now).revision), at);
            &&& again.notebooks.len() == 0
            &&& again.notes.len() == 0
            &&& again.content_blocks.len() == 0
            &&& again.deletions.len() == 0
        }),
{
    let first = changes_since(store, since, now);
    let a = notebooks_since(store.notebooks, since);
    let b = notes_since(store.notes, since);
    let c = content_blocks_since(store.content_blocks, since);
    let d = deletions_since(store.deletions, since);
    let stamps = revisions_of(a, notes_read(b), blocks_read(c), d);
    law_revision_covers_every_stamp(stamps, poll_time(since, now));
    lemma_cursor_is_past_the_poll(store, since, now);
    let cursor = first.revision;
    assert forall|i: int| 0 <= i < store.notebooks.len() implies !notebook_changed(Some(cursor))(
        #[trigger] store.notebooks[i],
    ) by {
        let r = store.notebooks[i];
        if r.revision.instant() > cursor.instant() {
            assert(store.notebooks.contains(r));
            lemma_filter_member(store.notebooks, notebook_changed(since), r);
            let k = choose|k: int| 0 <= k < a.len() && a[k] == r;
            assert(stamps[k] == r.revision);
        }
    }
    lemma_filter_keeps_none(store.notebooks, notebook_changed(Some(cursor)));
    assert forall|i: int| 0 <= i < store.notes.len() implies !note_changed(Some(cursor))(
        #[trigger] store.notes[i],
    ) by {
        let r = store.notes[i];
        if r.revision.instant() > cursor.instant() {
            assert(store.notes.contains(r));
            lemma_filter_member(store.notes, note_changed(since), r);
            let k = choose|k: int| 0 <= k < b.len() && b[k] == r;
            assert(notes_read(b)[k] == note_reader()(r));
            assert(stamps[a.len() + k] == r.revision);
        }
    }
    lemma_filter_keeps_none(store.notes, note_changed(Some(cursor)));
    assert forall|i: int| 0 <= i < store.content_blocks.len() implies !block_changed(
        Some(cursor),
    )(#[trigger] store.content_blocks[i]) by {
        let r = store.content_blocks[i];
        if r.revision.instant() > cursor.instant() {
            assert(store.content_blocks.contains(r));
            lemma_filter_member(store.content_blocks, block_changed(since), r);
            let k = choose|k: int| 0 <= k < c.len() && c[k] == r;
            assert(blocks_read(c)[k] == block_reader()(r));
            assert(stamps[a.len() + b.len() + k] == r.revision);
        }
    }
    lemma_filter_keeps_none(store.content_blocks, block_changed(Some(cursor)));
    assert forall|i: int| 0 <= i < store.deletions.len() implies !deletion_changed(Some(cursor))(
        #[trigger] store.deletions[i],
    ) by {
        let r = store.deletions[i];
        if r.system_updated_at.instant() > cursor.instant() {
            assert(store.deletions.contains(r));
            lemma_filter_member(store.deletions, deletion_changed(since), r);
            let k = choose|k: int| 0 <= k < d.len() && d[k] == r;
            assert(stamps[a.len() + b.len() + c.len() + k] == r.system_updated_at);
        }
    }
    lemma_filter_keeps_none(store.deletions, deletion_changed(Some(cursor)));
}

} // verus!
