//! The rule on identifiers outlives every message: whatever the executor is
//! asked, and in whatever order, the dataset stays well formed.

use vstd::prelude::*;
use crate::data::{
    ContentBlockUpdate, NoteUpdate, NotebookModel, content_block_type, note_type, notebook_type,
};
use crate::repo::{
    deletion_on_record, deletions_recorded, notebook_is_not, notebooks_updated, notebooks_without,
    restamp, retitle,
};
use crate::repo_actor::{Command, Reply, answers, answers_in_order};
use crate::repo_content_blocks::{
    block_is_not, content_blocks_updated, content_blocks_without, new_block, new_block_row,
    rewrite_block,
};
use crate::repo_notes::{
    new_note_row, note_is_not, note_of_row, notes_updated, notes_without, rewrite_note,
};
use crate::seq_lemmas::{lemma_filter_keeps_all, lemma_filter_removes_one};
use crate::store::{ContentBlockRowModel, NoteRowModel, StoreModel};
use crate::timestamp::Timestamp;

verus! {

/// Recording a deletion keeps the dataset well formed.
pub proof fn lemma_recording_keeps_wf(
    store: StoreModel,
    type_: Seq<char>,
    id: Seq<char>,
    at: Timestamp,
)
    requires
        store.wf(),
    ensures
        (StoreModel { deletions: deletions_recorded(store.deletions, type_, id, at), ..store }).wf(),
{
    let after = deletions_recorded(store.deletions, type_, id, at);
    if deletion_on_record(store.deletions, type_, id) {
        assert forall|i: int| 0 <= i < after.len() implies (#[trigger] after[i]).type_
            == store.deletions[i].type_ && after[i].resource_id
            == store.deletions[i].resource_id by {
            assert(after[i] == restamp(type_, id, at)(store.deletions[i]));
        }
    } else {
        assert forall|i: int| 0 <= i < store.deletions.len() implies after[i]
            == #[trigger] store.deletions[i] by {}
    }
}

/// A new notebook under an id that is not in use keeps the dataset well
/// formed.
pub proof fn lemma_new_notebook_keeps_wf(store: StoreModel, row: NotebookModel)
    requires
        store.wf(),
        !store.holds_id(row.id),
    ensures
        (StoreModel { notebooks: store.notebooks.push(row), ..store }).wf(),
{
}

/// A new note under an id that is not in use keeps the dataset well formed.
pub proof fn lemma_new_note_keeps_wf(store: StoreModel, row: NoteRowModel)
    requires
        store.wf(),
        !store.holds_id(row.id),
    ensures
        (StoreModel { notes: store.notes.push(row), ..store }).wf(),
{
}

/// A new content block under an id that is not in use keeps the dataset well
/// formed.
pub proof fn lemma_new_content_block_keeps_wf(store: StoreModel, row: ContentBlockRowModel)
    requires
        store.wf(),
        !store.holds_id(row.id),
    ensures
        (StoreModel { content_blocks: store.content_blocks.push(row), ..store }).wf(),
{
}

/// An update of a notebook keeps the dataset well formed.
pub proof fn lemma_updated_notebook_keeps_wf(
    store: StoreModel,
    id: Seq<char>,
    title: Seq<char>,
    now: Timestamp,
)
    requires
        store.wf(),
    ensures
        (StoreModel { notebooks: notebooks_updated(store.notebooks, id, title, now), ..store }).wf(),
{
    let after = notebooks_updated(store.notebooks, id, title, now);
    assert forall|i: int| 0 <= i < after.len() implies (#[trigger] after[i]).id
        == store.notebooks[i].id by {
        assert(after[i] == retitle(id, title, now)(store.notebooks[i]));
    }
}

/// An update of a note keeps the dataset well formed.
pub proof fn lemma_updated_note_keeps_wf(
    store: StoreModel,
    id: Seq<char>,
    update: NoteUpdate,
    now: Timestamp,
)
    requires
        store.wf(),
    ensures
        (StoreModel { notes: notes_updated(store.notes, id, update, now), ..store }).wf(),
{
    let after = notes_updated(store.notes, id, update, now);
    assert forall|i: int| 0 <= i < after.len() implies (#[trigger] after[i]).id
        == store.notes[i].id by {
        assert(after[i] == rewrite_note(id, update, now)(store.notes[i]));
    }
}

/// An update of a content block keeps the dataset well formed.
pub proof fn lemma_updated_content_block_keeps_wf(
    store: StoreModel,
    id: Seq<char>,
    update: ContentBlockUpdate,
    now: Timestamp,
)
    requires
        store.wf(),
    ensures
        (StoreModel {
            content_blocks: content_blocks_updated(store.content_blocks, id, update, now),
            ..store
        }).wf(),
{
    let after = content_blocks_updated(store.content_blocks, id, update, now);
    assert forall|i: int| 0 <= i < after.len() implies (#[trigger] after[i]).id
        == store.content_blocks[i].id by {
        assert(after[i] == rewrite_block(id, update, now)(store.content_blocks[i]));
    }
}

/// The removal of a notebook keeps the dataset well formed.
pub proof fn lemma_removed_notebook_keeps_wf(store: StoreModel, id: Seq<char>)
    requires
        store.wf(),
    ensures
        (StoreModel { notebooks: notebooks_without(store.notebooks, id), ..store }).wf(),
{
    let rows = store.notebooks;
    if store.has_notebook(id) {
        let k = choose|k: int| 0 <= k < rows.len() && #[trigger] rows[k].id == id;
        lemma_filter_removes_one(rows, notebook_is_not(id), k);
        assert forall|i: int| 0 <= i < rows.remove(k).len() implies #[trigger] rows.remove(k)[i]
            == rows[if i < k {
            i
        } else {
            i + 1
        }] by {}
    } else {
        lemma_filter_keeps_all(rows, notebook_is_not(id));
    }
}

/// The removal of a note keeps the dataset well formed.
pub proof fn lemma_removed_note_keeps_wf(store: StoreModel, id: Seq<char>)
    requires
        store.wf(),
    ensures
        (StoreModel { notes: notes_without(store.notes, id), ..store }).wf(),
{
    let rows = store.notes;
    if store.has_note(id) {
        let k = choose|k: int| 0 <= k < rows.len() && #[trigger] rows[k].id == id;
        lemma_filter_removes_one(rows, note_is_not(id), k);
        assert forall|i: int| 0 <= i < rows.remove(k).len() implies #[trigger] rows.remove(k)[i]
            == rows[if i < k {
            i
        } else {
            i + 1
        }] by {}
    } else {
        lemma_filter_keeps_all(rows, note_is_not(id));
    }
}

/// The removal of a content block keeps the dataset well formed.
pub proof fn lemma_removed_content_block_keeps_wf(store: StoreModel, id: Seq<char>)
    requires
        store.wf(),
    ensures
        (StoreModel {
            content_blocks: content_blocks_without(store.content_blocks, id),
            ..store
        }).wf(),
{
    let rows = store.content_blocks;
    if store.has_content_block(id) {
        let k = choose|k: int| 0 <= k < rows.len() && #[trigger] rows[k].id == id;
        lemma_filter_removes_one(rows, block_is_not(id), k);
        assert forall|i: int| 0 <= i < rows.remove(k).len() implies #[trigger] rows.remove(k)[i]
            == rows[if i < k {
            i
        } else {
            i + 1
        }] by {}
    } else {
        lemma_filter_keeps_all(rows, block_is_not(id));
    }
}

/// Whatever message the executor answers, a well-formed dataset is well
/// formed after it.
pub proof fn law_answer_keeps_store_well_formed(
    before: StoreModel,
    command: Command,
    reply: Reply,
    after: StoreModel,
)
    requires
        before.wf(),
        answers(before, command, reply, after),
    ensures
        after.wf(),
{
    match (command, reply) {
        (Command::CreateNotebook(msg), Reply::Notebook(Ok(created))) => {
            lemma_new_notebook_keeps_wf(before, created@);
        },
        (Command::UpdateNotebook(msg), Reply::Notebook(Ok(updated))) => {
            lemma_updated_notebook_keeps_wf(before, msg.id@, msg.update.title@, updated@.revision);
        },
        (Command::DeleteNotebook(msg), Reply::Done(Ok(_))) => {
            lemma_removed_notebook_keeps_wf(before, msg.id@);
            let removed = StoreModel {
                notebooks: notebooks_without(before.notebooks, msg.id@),
                ..before
            };
            let at = choose|at: Timestamp|
                after.deletions == #[trigger] deletions_recorded(
                    before.deletions,
                    notebook_type(),
                    msg.id@,
                    at,
                );
            lemma_recording_keeps_wf(removed, notebook_type(), msg.id@, at);
        },
        (Command::CreateNote(msg), Reply::Note(Ok(created))) => {
            let (generated, now) = choose|generated: Seq<char>, now: Timestamp|
                after == (StoreModel {
                    notes: before.notes.push(
                        #[trigger] new_note_row(msg.new_note, generated, now),
                    ),
                    ..before
                }) && created@ == note_of_row(
                    new_note_row(msg.new_note, generated, now),
                );
            lemma_new_note_keeps_wf(
                before,
                new_note_row(msg.new_note, generated, now),
            );
        },
        (Command::UpdateNote(msg), Reply::Note(Ok(updated))) => {
            let now = choose|now: Timestamp|
                after == (StoreModel {
                    notes: #[trigger] notes_updated(before.notes, msg.id@, msg.update, now),
                    ..before
                });
            lemma_updated_note_keeps_wf(before, msg.id@, msg.update, now);
        },
        (Command::DeleteNote(msg), Reply::Done(Ok(_))) => {
            lemma_removed_note_keeps_wf(before, msg.id@);
            let removed = StoreModel { notes: notes_without(before.notes, msg.id@), ..before };
            let at = choose|at: Timestamp|
                after == (StoreModel {
                    notes: notes_without(before.notes, msg.id@),
                    deletions: #[trigger] deletions_recorded(
                        before.deletions,
                        note_type(),
                        msg.id@,
                        at,
                    ),
                    ..before
                });
            lemma_recording_keeps_wf(removed, note_type(), msg.id@, at);
        },
        (Command::CreateContentBlock(msg), Reply::ContentBlock(Ok(created))) => {
            let (generated, now) = choose|generated: Seq<char>, now: Timestamp|
                after == (StoreModel {
                    content_blocks: before.content_blocks.push(
                        #[trigger] new_block_row(
                            msg.new_content_block,
                            generated,
                            now,
                        ),
                    ),
                    ..before
                }) && created@ == new_block(msg.new_content_block, generated, now);
            lemma_new_content_block_keeps_wf(
                before,
                new_block_row(msg.new_content_block, generated, now),
            );
        },
        (Command::UpdateContentBlock(msg), Reply::ContentBlock(Ok(updated))) => {
            let now = choose|now: Timestamp|
                after == (StoreModel {
                    content_blocks: #[trigger] content_blocks_updated(
                        before.content_blocks,
                        msg.id@,
                        msg.update,
                        now,
                    ),
                    ..before
                });
            lemma_updated_content_block_keeps_wf(before, msg.id@, msg.update, now);
        },
        (Command::DeleteContentBlock(msg), Reply::Done(Ok(_))) => {
            lemma_removed_content_block_keeps_wf(before, msg.id@);
            let removed = StoreModel {
                content_blocks: content_blocks_without(before.content_blocks, msg.id@),
                ..before
            };
            let at = choose|at: Timestamp|
                after == (StoreModel {
                    content_blocks: content_blocks_without(before.content_blocks, msg.id@),
                    deletions: #[trigger] deletions_recorded(
                        before.deletions,
                        content_block_type(),
                        msg.id@,
                        at,
                    ),
                    ..before
                });
            lemma_recording_keeps_wf(removed, content_block_type(), msg.id@, at);
        },
        _ => {},
    }
}

/// Whatever queue of messages the executor serves, a well-formed dataset is
/// well formed before and after each of them.
pub proof fn law_queue_keeps_store_well_formed(
    states: Seq<StoreModel>,
    commands: Seq<Command>,
    replies: Seq<Reply>,
    k: int,
)
    requires
        answers_in_order(states, commands, replies),
        states[0].wf(),
        0 <= k < states.len(),
    ensures
        states[k].wf(),
    decreases k,
{
    if k > 0 {
        law_queue_keeps_store_well_formed(states, commands, replies, k - 1);
        law_answer_keeps_store_well_formed(
            states[k - 1],
            commands[k - 1],
            replies[k - 1],
            states[k],
        );
    }
}

/// Whether the message asks for a deletion.
pub open spec fn is_deletion(command: Command) -> bool {
    match command {
        Command::DeleteNotebook(_) => true,
        Command::DeleteNote(_) => true,
        Command::DeleteContentBlock(_) => true,
        _ => false,
    }
}

/// The id of the resource that an answered message created, if it created
/// one.
pub open spec fn created_id(command: Command, reply: Reply) -> Option<Seq<char>> {
    match (command, reply) {
        (Command::CreateNotebook(_), Reply::Notebook(Ok(created))) => Some(created@.id),
        (Command::CreateNote(_), Reply::Note(Ok(created))) => Some(created@.id),
        (Command::CreateContentBlock(_), Reply::ContentBlock(Ok(created))) => Some(created@.id),
        _ => None,
    }
}

/// An id that is held stays held where every table keeps the rows it had,
/// under their ids.
proof fn lemma_ids_carried(before: StoreModel, after: StoreModel, id: Seq<char>)
    requires
        before.holds_id(id),
        before.notebooks.len() <= after.notebooks.len(),
        before.notes.len() <= after.notes.len(),
        before.content_blocks.len() <= after.content_blocks.len(),
        forall|k: int|
            0 <= k < before.notebooks.len() ==> (#[trigger] after.notebooks[k]).id
                == before.notebooks[k].id,
        forall|k: int|
            0 <= k < before.notes.len() ==> (#[trigger] after.notes[k]).id == before.notes[k].id,
        forall|k: int|
            0 <= k < before.content_blocks.len() ==> (#[trigger] after.content_blocks[k]).id
                == before.content_blocks[k].id,
    ensures
        after.holds_id(id),
{
    if before.has_notebook(id) {
        let k = choose|k: int| 0 <= k < before.notebooks.len() && #[trigger] before.notebooks[k].id
            == id;
        assert(after.notebooks[k].id == id);
    } else if before.has_note(id) {
        let k = choose|k: int| 0 <= k < before.notes.len() && #[trigger] before.notes[k].id == id;
        assert(after.notes[k].id == id);
    } else {
        let k = choose|k: int|
            0 <= k < before.content_blocks.len() && #[trigger] before.content_blocks[k].id == id;
        assert(after.content_blocks[k].id == id);
    }
}

/// A resource is created under an id that nothing held, and holds it after.
pub proof fn lemma_created_id_is_new(
    before: StoreModel,
    command: Command,
    reply: Reply,
    after: StoreModel,
)
    requires
        answers(before, command, reply, after),
        created_id(command, reply) is Some,
    ensures
        !before.holds_id(created_id(command, reply)->Some_0),
        after.holds_id(created_id(command, reply)->Some_0),
{
    match (command, reply) {
        (Command::CreateNotebook(msg), Reply::Notebook(Ok(created))) => {
            assert(after.notebooks[after.notebooks.len() - 1].id == created@.id);
        },
        (Command::CreateNote(msg), Reply::Note(Ok(created))) => {
            assert(after.notes[after.notes.len() - 1].id == created@.id);
        },
        (Command::CreateContentBlock(msg), Reply::ContentBlock(Ok(created))) => {
            assert(after.content_blocks[after.content_blocks.len() - 1].id == created@.id);
        },
        _ => {},
    }
}

/// Whatever message but a deletion the executor answers, an id that was held
/// is held after it.
pub proof fn lemma_held_ids_stay_held(
    before: StoreModel,
    command: Command,
    reply: Reply,
    after: StoreModel,
    id: Seq<char>,
)
    requires
        answers(before, command, reply, after),
        !is_deletion(command),
        before.holds_id(id),
    ensures
        after.holds_id(id),
{
    match (command, reply) {
        (Command::UpdateNotebook(msg), Reply::Notebook(Ok(updated))) => {
            let now = choose|now: Timestamp|
                after == (StoreModel {
                    notebooks: #[trigger] notebooks_updated(
                        before.notebooks,
                        msg.id@,
                        msg.update.title@,
                        now,
                    ),
                    ..before
                });
            assert forall|k: int| 0 <= k < before.notebooks.len() implies (
            #[trigger] after.notebooks[k]).id == before.notebooks[k].id by {
                assert(after.notebooks[k] == retitle(msg.id@, msg.update.title@, now)(
                    before.notebooks[k],
                ));
            }
            lemma_ids_carried(before, after, id);
        },
        (Command::UpdateNote(msg), Reply::Note(Ok(updated))) => {
            let now = choose|now: Timestamp|
                after == (StoreModel {
                    notes: #[trigger] notes_updated(before.notes, msg.id@, msg.update, now),
                    ..before
                });
            assert forall|k: int| 0 <= k < before.notes.len() implies (#[trigger] after.notes[k]).id
                == before.notes[k].id by {
                assert(after.notes[k] == rewrite_note(msg.id@, msg.update, now)(before.notes[k]));
            }
            lemma_ids_carried(before, after, id);
        },
        (Command::UpdateContentBlock(msg), Reply::ContentBlock(Ok(updated))) => {
            let now = choose|now: Timestamp|
                after == (StoreModel {
                    content_blocks: #[trigger] content_blocks_updated(
                        before.content_blocks,
                        msg.id@,
                        msg.update,
                        now,
                    ),
                    ..before
                });
            assert forall|k: int| 0 <= k < before.content_blocks.len() implies (
            #[trigger] after.content_blocks[k]).id == before.content_blocks[k].id by {
                assert(after.content_blocks[k] == rewrite_block(msg.id@, msg.update, now)(
                    before.content_blocks[k],
                ));
            }
            lemma_ids_carried(before, after, id);
        },
        (Command::CreateNotebook(msg), Reply::Notebook(Ok(created))) => {
            lemma_ids_carried(before, after, id);
        },
        (Command::CreateNote(msg), Reply::Note(Ok(created))) => {
            lemma_ids_carried(before, after, id);
        },
        (Command::CreateContentBlock(msg), Reply::ContentBlock(Ok(created))) => {
            lemma_ids_carried(before, after, id);
        },
        _ => {},
    }
}

/// However many resources a queue of messages creates, as long as nothing is
/// deleted in between, no two of them get the same id, whatever their kinds:
/// the id of the resource that message `i` created is held when message `j`
/// is served, and message `j` creates under an id that nothing holds.
pub proof fn law_created_ids_are_distinct(
    states: Seq<StoreModel>,
    commands: Seq<Command>,
    replies: Seq<Reply>,
    i: int,
    j: int,
)
    requires
        answers_in_order(states, commands, replies),
        0 <= i < j < commands.len(),
        created_id(commands[i], replies[i]) is Some,
        created_id(commands[j], replies[j]) is Some,
        forall|k: int| i < k < j ==> !is_deletion(#[trigger] commands[k]),
    ensures
        created_id(commands[i], replies[i]) != created_id(commands[j], replies[j]),
        states[j + 1].holds_id(created_id(commands[i], replies[i])->Some_0),
        states[j + 1].holds_id(created_id(commands[j], replies[j])->Some_0),
{
    let first = created_id(commands[i], replies[i])->Some_0;
    lemma_created_id_is_new(states[i], commands[i], replies[i], states[i + 1]);
    lemma_id_held_through(states, commands, replies, i + 1, j, first);
    lemma_created_id_is_new(states[j], commands[j], replies[j], states[j + 1]);
    lemma_held_ids_stay_held(states[j], commands[j], replies[j], states[j + 1], first);
}

/// An id held before message `from` is held before message `to`, where no
/// message from the one to the other is a deletion.
proof fn lemma_id_held_through(
    states: Seq<StoreModel>,
    commands: Seq<Command>,
    replies: Seq<Reply>,
    from: int,
    to: int,
    id: Seq<char>,
)
    requires
        answers_in_order(states, commands, replies),
        0 <= from <= to <= commands.len(),
        states[from].holds_id(id),
        forall|k: int| from <= k < to ==> !is_deletion(#[trigger] commands[k]),
    ensures
        states[to].holds_id(id),
    decreases to - from,
{
    if from < to {
        lemma_id_held_through(states, commands, replies, from, to - 1, id);
        lemma_held_ids_stay_held(
            states[to - 1],
            commands[to - 1],
            replies[to - 1],
            states[to],
            id,
        );
    }
}

} // verus!
