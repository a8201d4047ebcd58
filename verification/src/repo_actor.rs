//! The one owner of the dataset. Every request for the store is a message
//! handed to the executor, which serves one message at a time and a queue of
//! them in the order of their arrival: while it changes the store nothing
//! else reads or writes it.

use std::collections::VecDeque;
use vstd::prelude::*;
use crate::codec::reads_back;
use crate::data::{
    ContentBlock, ContentBlockUpdate, Deletion, NewContentBlock, NewNote, NewNotebook, Note,
    NoteUpdate, Notebook, NotebookUpdate, content_block_models, content_block_type,
    deletion_models, note_models, note_type, notebook_models, notebook_type,
};
use crate::repo::{
    chosen_id, deletions_recorded, deletions_since, new_notebook_row, notebooks_since,
    notebooks_updated, notebooks_without, updated_notebook,
};
use crate::repo_content_blocks::{
    all_decodable, blocks_read, content_blocks_since, content_blocks_updated,
    content_blocks_without, new_block, new_block_row, updated_block,
};
use crate::repo_id::is_generated_id;
use crate::repo_notes::{
    new_note_row, note_of_row, notes_read, notes_since, notes_updated, notes_without,
    updated_note,
};
use crate::store::{Store, StoreError, StoreModel};
use crate::timestamp::{Timestamp, moved_forward};

verus! {

/// Asks for the notebooks changed since a revision.
#[derive(Debug)]
pub struct GetNoteBooksMessage {
    pub since_revision: Option<Timestamp>,
}

/// Asks for a new notebook.
#[derive(Debug)]
pub struct CreateNotebookMessage {
    pub new_notebook: NewNotebook,
}

/// Asks for a change of a notebook.
#[derive(Debug)]
pub struct UpdateNotebookMessage {
    pub id: String,
    pub update: NotebookUpdate,
}

/// Asks for the deletion of a notebook.
#[derive(Debug)]
pub struct DeleteNotebookMessage {
    pub id: String,
}

/// Asks for the notes changed since a revision.
#[derive(Debug)]
pub struct GetNotesMessage {
    pub since_revision: Option<Timestamp>,
}

/// Asks for a new note.
#[derive(Debug)]
pub struct CreateNoteMessage {
    pub new_note: NewNote,
}

/// Asks for a change of a note.
#[derive(Debug)]
pub struct UpdateNoteMessage {
    pub id: String,
    pub update: NoteUpdate,
}

/// Asks for the deletion of a note.
#[derive(Debug)]
pub struct DeleteNoteMessage {
    pub id: String,
}

/// Asks for the content blocks changed since a revision.
#[derive(Debug)]
pub struct GetContentBlocksMessage {
    pub since_revision: Option<Timestamp>,
}

/// Asks for a new content block.
#[derive(Debug)]
pub struct CreateContentBlockMessage {
    pub new_content_block: NewContentBlock,
}

/// Asks for a change of a content block.
#[derive(Debug)]
pub struct UpdateContentBlockMessage {
    pub id: String,
    pub update: ContentBlockUpdate,
}

/// Asks for the deletion of a content block.
#[derive(Debug)]
pub struct DeleteContentBlockMessage {
    pub id: String,
}

/// Asks for the deletions recorded since a revision.
#[derive(Debug)]
pub struct GetDeletionsMessage {
    pub since_revision: Option<Timestamp>,
}

/// A message to the executor.
#[derive(Debug)]
pub enum Command {
    GetNotebooks(GetNoteBooksMessage),
    CreateNotebook(CreateNotebookMessage),
    UpdateNotebook(UpdateNotebookMessage),
    DeleteNotebook(DeleteNotebookMessage),
    GetNotes(GetNotesMessage),
    CreateNote(CreateNoteMessage),
    UpdateNote(UpdateNoteMessage),
    DeleteNote(DeleteNoteMessage),
    GetContentBlocks(GetContentBlocksMessage),
    CreateContentBlock(CreateContentBlockMessage),
    UpdateContentBlock(UpdateContentBlockMessage),
    DeleteContentBlock(DeleteContentBlockMessage),
    GetDeletions(GetDeletionsMessage),
}

/// The executor's answer to a message.
#[derive(Debug)]
pub enum Reply {
    Notebooks(Result<Vec<Notebook>, StoreError>),
    Notebook(Result<Notebook, StoreError>),
    Notes(Result<Vec<Note>, StoreError>),
    Note(Result<Note, StoreError>),
    ContentBlocks(Result<Vec<ContentBlock>, StoreError>),
    ContentBlock(Result<ContentBlock, StoreError>),
    Deletions(Result<Vec<Deletion>, StoreError>),
    Done(Result<(), StoreError>),
}

/// Whether `result` answers a request for the changed notebooks that finds
/// the store as `before` and leaves it as `after`.
pub open spec fn get_notebooks_served(
    before: StoreModel,
    msg: GetNoteBooksMessage,
    result: Result<Vec<Notebook>, StoreError>,
    after: StoreModel,
) -> bool {
    &&& (result matches Ok(found) && notebook_models(found@) == notebooks_since(
        before.notebooks,
        msg.since_revision,
    ))
    &&& (after == before)
}

/// Whether `result` answers a request for a new notebook that finds the store
/// as `before` and leaves it as `after`.
pub open spec fn create_notebook_served(
    before: StoreModel,
    msg: CreateNotebookMessage,
    result: Result<Notebook, StoreError>,
    after: StoreModel,
) -> bool {
    &&& (msg.new_notebook.id matches Some(id) ==> (result is Ok <==> !before.holds_id(id@)))
    &&& (match result {
        Ok(created) => {
            &&& exists|generated: Seq<char>, now: Timestamp|
                is_generated_id(generated) && created@ == #[trigger] new_notebook_row(
                    msg.new_notebook,
                    generated,
                    now,
                )
            &&& !before.holds_id(created@.id)
            &&& after == (StoreModel {
                notebooks: before.notebooks.push(created@),
                ..before
            })
        },
        Err(e) => {
            &&& e == StoreError::StorageUnavailable
            &&& after == before
            &&& exists|generated: Seq<char>|
                is_generated_id(generated) && before.holds_id(
                    #[trigger] chosen_id(msg.new_notebook.id, generated),
                )
        },
    })
}

/// Whether `result` answers a request for a change of a notebook that finds
/// the store as `before` and leaves it as `after`.
pub open spec fn update_notebook_served(
    before: StoreModel,
    msg: UpdateNotebookMessage,
    result: Result<Notebook, StoreError>,
    after: StoreModel,
) -> bool {
    &&& (result is Ok <==> before.has_notebook(msg.id@))
    &&& (match result {
        Ok(updated) => {
            &&& exists|now: Timestamp|
                {
                    &&& after == (StoreModel {
                        notebooks: #[trigger] notebooks_updated(
                            before.notebooks,
                            msg.id@,
                            msg.update.title@,
                            now,
                        ),
                        ..before
                    })
                    &&& forall|i: int|
                        0 <= i < before.notebooks.len() && (
                        #[trigger] before.notebooks[i]).id == msg.id@
                            ==> updated@ == updated_notebook(
                            before.notebooks[i],
                            msg.update.title@,
                            now,
                        )
                }
            &&& forall|i: int|
                0 <= i < before.notebooks.len() && (
                #[trigger] before.notebooks[i]).id == msg.id@ ==> moved_forward(
                    before.notebooks[i].revision,
                    updated@.revision,
                )
            &&& after.notebooks.contains(updated@)
        },
        Err(e) => e == StoreError::NotFound && after == before,
    })
}

/// Whether `result` answers a request for the deletion of a notebook that
/// finds the store as `before` and leaves it as `after`.
pub open spec fn delete_notebook_served(
    before: StoreModel,
    msg: DeleteNotebookMessage,
    result: Result<(), StoreError>,
    after: StoreModel,
) -> bool {
    &&& (result is Ok <==> before.has_notebook(msg.id@))
    &&& (match result {
        Ok(_) => {
            &&& after.notebooks == notebooks_without(
                before.notebooks,
                msg.id@,
            )
            &&& after.notes == before.notes
            &&& after.content_blocks == before.content_blocks
            &&& exists|at: Timestamp|
                after.deletions == #[trigger] deletions_recorded(
                    before.deletions,
                    notebook_type(),
                    msg.id@,
                    at,
                )
        },
        Err(e) => e == StoreError::NotFound && after == before,
    })
}

/// Whether `result` answers a request for the changed notes that finds the
/// store as `before` and leaves it as `after`.
pub open spec fn get_notes_served(
    before: StoreModel,
    msg: GetNotesMessage,
    result: Result<Vec<Note>, StoreError>,
    after: StoreModel,
) -> bool {
    &&& (result matches Ok(found) && note_models(found@) == notes_read(
        notes_since(before.notes, msg.since_revision),
    ))
    &&& (after == before)
}

/// Whether `result` answers a request for a new note that finds the store as
/// `before` and leaves it as `after`.
pub open spec fn create_note_served(
    before: StoreModel,
    msg: CreateNoteMessage,
    result: Result<Note, StoreError>,
    after: StoreModel,
) -> bool {
    &&& (match result {
        Ok(created) => {
            &&& exists|generated: Seq<char>, now: Timestamp|
                {
                    &&& is_generated_id(generated)
                    &&& created@ == note_of_row(#[trigger] new_note_row(msg.new_note, generated, now))
                    &&& after == (StoreModel {
                        notes: before.notes.push(
                            new_note_row(msg.new_note, generated, now),
                        ),
                        ..before
                    })
                }
            &&& !before.holds_id(created@.id)
            &&& msg.new_note.id matches Some(id) ==> created@.id == id@
        },
        Err(e) => {
            &&& e == StoreError::StorageUnavailable
            &&& after == before
            &&& exists|generated: Seq<char>|
                is_generated_id(generated) && before.holds_id(
                    #[trigger] chosen_id(msg.new_note.id, generated),
                )
        },
    })
    &&& (msg.new_note.id matches Some(id) ==> (result is Ok <==> !before.holds_id(id@)))
}

/// Whether `result` answers a request for a change of a note that finds the
/// store as `before` and leaves it as `after`.
pub open spec fn update_note_served(
    before: StoreModel,
    msg: UpdateNoteMessage,
    result: Result<Note, StoreError>,
    after: StoreModel,
) -> bool {
    &&& (result is Ok <==> before.has_note(msg.id@))
    &&& (match result {
        Ok(updated) => {
            &&& exists|now: Timestamp|
                {
                    &&& after == (StoreModel {
                        notes: #[trigger] notes_updated(
                            before.notes,
                            msg.id@,
                            msg.update,
                            now,
                        ),
                        ..before
                    })
                    &&& forall|i: int|
                        0 <= i < before.notes.len() && (
                        #[trigger] before.notes[i]).id == msg.id@ ==> updated@
                            == note_of_row(
                            updated_note(before.notes[i], msg.update, now),
                        )
                }
            &&& forall|i: int|
                0 <= i < before.notes.len() && (
                #[trigger] before.notes[i]).id == msg.id@ ==> moved_forward(
                    before.notes[i].revision,
                    updated@.revision,
                )
            &&& notes_read(after.notes).contains(updated@)
        },
        Err(e) => e == StoreError::NotFound && after == before,
    })
}

/// Whether `result` answers a request for the deletion of a note that finds
/// the store as `before` and leaves it as `after`.
pub open spec fn delete_note_served(
    before: StoreModel,
    msg: DeleteNoteMessage,
    result: Result<(), StoreError>,
    after: StoreModel,
) -> bool {
    &&& (result is Ok <==> before.has_note(msg.id@))
    &&& (match result {
        Ok(_) => exists|at: Timestamp|
            after == (StoreModel {
                notes: notes_without(before.notes, msg.id@),
                deletions: #[trigger] deletions_recorded(
                    before.deletions,
                    note_type(),
                    msg.id@,
                    at,
                ),
                ..before
            }),
        Err(e) => e == StoreError::NotFound && after == before,
    })
}

/// Whether `result` answers a request for the changed content blocks that
/// finds the store as `before` and leaves it as `after`.
pub open spec fn get_content_blocks_served(
    before: StoreModel,
    msg: GetContentBlocksMessage,
    result: Result<Vec<ContentBlock>, StoreError>,
    after: StoreModel,
) -> bool {
    &&& (result is Ok <==> all_decodable(
        content_blocks_since(before.content_blocks, msg.since_revision),
    ))
    &&& (match result {
        Ok(found) => content_block_models(found@) == blocks_read(
            content_blocks_since(before.content_blocks, msg.since_revision),
        ),
        Err(e) => e == StoreError::ValidationError,
    })
    &&& (after == before)
}

/// Whether `result` answers a request for a new content block that finds the
/// store as `before` and leaves it as `after`.
pub open spec fn create_content_block_served(
    before: StoreModel,
    msg: CreateContentBlockMessage,
    result: Result<ContentBlock, StoreError>,
    after: StoreModel,
) -> bool {
    &&& (msg.new_content_block.id matches Some(id) ==> (result is Ok <==> !before.holds_id(id@)
    && reads_back(msg.new_content_block.content@)))
    &&& (match result {
        Ok(created) => {
            &&& exists|generated: Seq<char>, now: Timestamp|
                {
                    &&& is_generated_id(generated)
                    &&& created@ == #[trigger] new_block(msg.new_content_block, generated, now)
                    &&& after == (StoreModel {
                        content_blocks: before.content_blocks.push(
                            new_block_row(msg.new_content_block, generated, now),
                        ),
                        ..before
                    })
                }
            &&& !before.holds_id(created@.id)
            &&& reads_back(msg.new_content_block.content@)
        },
        Err(e) => {
            &&& after == before
            &&& e == StoreError::StorageUnavailable || e == StoreError::ValidationError
            &&& e == StoreError::ValidationError ==> !reads_back(msg.new_content_block.content@)
            &&& e == StoreError::StorageUnavailable ==> exists|generated: Seq<char>|
                is_generated_id(generated) && before.holds_id(
                    #[trigger] chosen_id(msg.new_content_block.id, generated),
                )
        },
    })
}

/// Whether `result` answers a request for a change of a content block that
/// finds the store as `before` and leaves it as `after`.
pub open spec fn update_content_block_served(
    before: StoreModel,
    msg: UpdateContentBlockMessage,
    result: Result<ContentBlock, StoreError>,
    after: StoreModel,
) -> bool {
    &&& (result is Ok <==> before.has_content_block(msg.id@) && reads_back(
        msg.update.content@,
    ))
    &&& (match result {
        Ok(updated) => {
            &&& exists|now: Timestamp|
                {
                    &&& after == (StoreModel {
                        content_blocks: #[trigger] content_blocks_updated(
                            before.content_blocks,
                            msg.id@,
                            msg.update,
                            now,
                        ),
                        ..before
                    })
                    &&& forall|i: int|
                        0 <= i < before.content_blocks.len() && (
                        #[trigger] before.content_blocks[i]).id == msg.id@
                            ==> updated@ == updated_block(
                            before.content_blocks[i],
                            msg.update,
                            now,
                        )
                }
            &&& forall|i: int|
                0 <= i < before.content_blocks.len() && (
                #[trigger] before.content_blocks[i]).id == msg.id@
                    ==> moved_forward(
                    before.content_blocks[i].revision,
                    updated@.revision,
                )
        },
        Err(e) => {
            &&& after == before
            &&& e == StoreError::NotFound <==> !before.has_content_block(
                msg.id@,
            )
            &&& e == StoreError::NotFound || e == StoreError::ValidationError
        },
    })
}

/// Whether `result` answers a request for the deletion of a content block
/// that finds the store as `before` and leaves it as `after`.
pub open spec fn delete_content_block_served(
    before: StoreModel,
    msg: DeleteContentBlockMessage,
    result: Result<(), StoreError>,
    after: StoreModel,
) -> bool {
    &&& (result is Ok <==> before.has_content_block(msg.id@))
    &&& (match result {
        Ok(_) => exists|at: Timestamp|
            after == (StoreModel {
                content_blocks: content_blocks_without(
                    before.content_blocks,
                    msg.id@,
                ),
                deletions: #[trigger] deletions_recorded(
                    before.deletions,
                    content_block_type(),
                    msg.id@,
                    at,
                ),
                ..before
            }),
        Err(e) => e == StoreError::NotFound && after == before,
    })
}

/// Whether `result` answers a request for the recorded deletions that finds
/// the store as `before` and leaves it as `after`.
pub open spec fn get_deletions_served(
    before: StoreModel,
    msg: GetDeletionsMessage,
    result: Result<Vec<Deletion>, StoreError>,
    after: StoreModel,
) -> bool {
    &&& (result matches Ok(found) && deletion_models(found@) == deletions_since(
        before.deletions,
        msg.since_revision,
    ))
    &&& (after == before)
}

/// Whether `reply` answers `command` where the store is found as `before`
/// and left as `after`.
pub open spec fn answers(
    before: StoreModel,
    command: Command,
    reply: Reply,
    after: StoreModel,
) -> bool {
    match (command, reply) {
        (Command::GetNotebooks(msg), Reply::Notebooks(result)) => get_notebooks_served(
            before,
            msg,
            result,
            after,
        ),
        (Command::CreateNotebook(msg), Reply::Notebook(result)) => create_notebook_served(
            before,
            msg,
            result,
            after,
        ),
        (Command::UpdateNotebook(msg), Reply::Notebook(result)) => update_notebook_served(
            before,
            msg,
            result,
            after,
        ),
        (Command::DeleteNotebook(msg), Reply::Done(result)) => delete_notebook_served(
            before,
            msg,
            result,
            after,
        ),
        (Command::GetNotes(msg), Reply::Notes(result)) => get_notes_served(
            before,
            msg,
            result,
            after,
        ),
        (Command::CreateNote(msg), Reply::Note(result)) => create_note_served(
            before,
            msg,
            result,
            after,
        ),
        (Command::UpdateNote(msg), Reply::Note(result)) => update_note_served(
            before,
            msg,
            result,
            after,
        ),
        (Command::DeleteNote(msg), Reply::Done(result)) => delete_note_served(
            before,
            msg,
            result,
            after,
        ),
        (Command::GetContentBlocks(msg), Reply::ContentBlocks(result)) => get_content_blocks_served(
            before,
            msg,
            result,
            after,
        ),
        (Command::CreateContentBlock(msg), Reply::ContentBlock(result)) => create_content_block_served(
            before,
            msg,
            result,
            after,
        ),
        (Command::UpdateContentBlock(msg), Reply::ContentBlock(result)) => update_content_block_served(
            before,
            msg,
            result,
            after,
        ),
        (Command::DeleteContentBlock(msg), Reply::Done(result)) => delete_content_block_served(
            before,
            msg,
            result,
            after,
        ),
        (Command::GetDeletions(msg), Reply::Deletions(result)) => get_deletions_served(
            before,
            msg,
            result,
            after,
        ),
        _ => false,
    }
}

/// Whether the replies answer the commands one after the other, each finding
/// the store as the one before left it: `states` are the stores before the
/// first command, between any two, and after the last.
pub open spec fn answers_in_order(
    states: Seq<StoreModel>,
    commands: Seq<Command>,
    replies: Seq<Reply>,
) -> bool {
    &&& replies.len() == commands.len()
    &&& states.len() == commands.len() + 1
    &&& forall|i: int|
        0 <= i < commands.len() ==> answers(
            #[trigger] states[i],
            commands[i],
            replies[i],
            states[i + 1],
        )
}

/// The owner of the dataset.
pub struct DbExecutor(pub Store);

impl DbExecutor {
    /// An executor that owns `store`.
    pub fn new(store: Store) -> (executor: DbExecutor)
        ensures
            executor.0 == store,
    {
        DbExecutor(store)
    }

    /// Serves a request for the changed notebooks.
    pub fn get_notebooks(&self, msg: GetNoteBooksMessage) -> (result: Result<
        Vec<Notebook>,
        StoreError,
    >)
        ensures
            get_notebooks_served(self.0.model(), msg, result, self.0.model()),
    {
        crate::repo::notebooks(msg.since_revision, &self.0)
    }

    /// Serves a request for a new notebook.
    pub fn create_notebook(&mut self, msg: CreateNotebookMessage) -> (result: Result<
        Notebook,
        StoreError,
    >)
        requires
            old(self).0.wf(),
        ensures
            final(self).0.wf(),
            create_notebook_served(old(self).0.model(), msg, result, final(self).0.model()),
    {
        crate::repo::create_notebook(msg.new_notebook, &mut self.0)
    }

    /// Serves a request for a change of a notebook.
    pub fn update_notebook(&mut self, msg: UpdateNotebookMessage) -> (result: Result<
        Notebook,
        StoreError,
    >)
        requires
            old(self).0.wf(),
        ensures
            final(self).0.wf(),
            update_notebook_served(old(self).0.model(), msg, result, final(self).0.model()),
    {
        crate::repo::update_notebook(msg.id.as_str(), msg.update, &mut self.0)
    }

    /// Serves a request for the deletion of a notebook.
    pub fn delete_notebook(&mut self, msg: DeleteNotebookMessage) -> (result: Result<
        (),
        StoreError,
    >)
        requires
            old(self).0.wf(),
        ensures
            final(self).0.wf(),
            delete_notebook_served(old(self).0.model(), msg, result, final(self).0.model()),
    {
        crate::repo::delete_notebook(msg.id, &mut self.0)
    }

    /// Serves a request for the changed notes.
    pub fn get_notes(&self, msg: GetNotesMessage) -> (result: Result<
        Vec<Note>,
        StoreError,
    >)
        ensures
            get_notes_served(self.0.model(), msg, result, self.0.model()),
    {
        crate::repo_notes::notes(msg.since_revision, &self.0)
    }

    /// Serves a request for a new note.
    pub fn create_note(&mut self, msg: CreateNoteMessage) -> (result: Result<
        Note,
        StoreError,
    >)
        requires
            old(self).0.wf(),
        ensures
            final(self).0.wf(),
            create_note_served(old(self).0.model(), msg, result, final(self).0.model()),
    {
        crate::repo_notes::create_note(msg.new_note, &mut self.0)
    }

    /// Serves a request for a change of a note.
    pub fn update_note(&mut self, msg: UpdateNoteMessage) -> (result: Result<
        Note,
        StoreError,
    >)
        requires
            old(self).0.wf(),
        ensures
            final(self).0.wf(),
            update_note_served(old(self).0.model(), msg, result, final(self).0.model()),
    {
        crate::repo_notes::update_note(msg.id.as_str(), msg.update, &mut self.0)
    }

    /// Serves a request for the deletion of a note.
    pub fn delete_note(&mut self, msg: DeleteNoteMessage) -> (result: Result<
        (),
        StoreError,
    >)
        requires
            old(self).0.wf(),
        ensures
            final(self).0.wf(),
            delete_note_served(old(self).0.model(), msg, result, final(self).0.model()),
    {
        crate::repo_notes::delete_note(msg.id, &mut self.0)
    }

    /// Serves a request for the changed content blocks.
    pub fn get_content_blocks(&self, msg: GetContentBlocksMessage) -> (result: Result<
        Vec<ContentBlock>,
        StoreError,
    >)
        ensures
            get_content_blocks_served(self.0.model(), msg, result, self.0.model()),
    {
        crate::repo_content_blocks::content_blocks(msg.since_revision, &self.0)
    }

    /// Serves a request for a new content block.
    pub fn create_content_block(&mut self, msg: CreateContentBlockMessage) -> (result: Result<
        ContentBlock,
        StoreError,
    >)
        requires
            old(self).0.wf(),
        ensures
            final(self).0.wf(),
            create_content_block_served(old(self).0.model(), msg, result, final(self).0.model()),
    {
        crate::repo_content_blocks::create_content_block(msg.new_content_block, &mut self.0)
    }

    /// Serves a request for a change of a content block.
    pub fn update_content_block(&mut self, msg: UpdateContentBlockMessage) -> (result: Result<
        ContentBlock,
        StoreError,
    >)
        requires
            old(self).0.wf(),
        ensures
            final(self).0.wf(),
            update_content_block_served(old(self).0.model(), msg, result, final(self).0.model()),
    {
        crate::repo_content_blocks::update_content_block(msg.id.as_str(), msg.update, &mut self.0)
    }

    /// Serves a request for the deletion of a content block.
    pub fn delete_content_block(&mut self, msg: DeleteContentBlockMessage) -> (result: Result<
        (),
        StoreError,
    >)
        requires
            old(self).0.wf(),
        ensures
            final(self).0.wf(),
            delete_content_block_served(old(self).0.model(), msg, result, final(self).0.model()),
    {
        crate::repo_content_blocks::delete_contentblock(msg.id, &mut self.0)
    }

    /// Serves a request for the recorded deletions.
    pub fn get_deletions(&self, msg: GetDeletionsMessage) -> (result: Result<
        Vec<Deletion>,
        StoreError,
    >)
        ensures
            get_deletions_served(self.0.model(), msg, result, self.0.model()),
    {
        crate::repo::deletions(msg.since_revision, &self.0)
    }

    /// Serves one message, whatever it asks for.
    pub fn handle(&mut self, command: Command) -> (reply: Reply)
        requires
            old(self).0.wf(),
        ensures
            final(self).0.wf(),
            answers(old(self).0.model(), command, reply, final(self).0.model()),
    {
        match command {
            Command::GetNotebooks(msg) => Reply::Notebooks(self.get_notebooks(msg)),
            Command::CreateNotebook(msg) => Reply::Notebook(self.create_notebook(msg)),
            Command::UpdateNotebook(msg) => Reply::Notebook(self.update_notebook(msg)),
            Command::DeleteNotebook(msg) => Reply::Done(self.delete_notebook(msg)),
            Command::GetNotes(msg) => Reply::Notes(self.get_notes(msg)),
            Command::CreateNote(msg) => Reply::Note(self.create_note(msg)),
            Command::UpdateNote(msg) => Reply::Note(self.update_note(msg)),
            Command::DeleteNote(msg) => Reply::Done(self.delete_note(msg)),
            Command::GetContentBlocks(msg) => Reply::ContentBlocks(self.get_content_blocks(msg)),
            Command::CreateContentBlock(msg) => Reply::ContentBlock(self.create_content_block(msg)),
            Command::UpdateContentBlock(msg) => Reply::ContentBlock(self.update_content_block(msg)),
            Command::DeleteContentBlock(msg) => Reply::Done(self.delete_content_block(msg)),
            Command::GetDeletions(msg) => Reply::Deletions(self.get_deletions(msg)),
        }
    }

    /// Serves the messages of a queue one at a time, in the order of their
    /// arrival, until the queue is empty. The replies come in the same
    /// order.
    pub fn run(&mut self, queue: &mut VecDeque<Command>) -> (replies: Vec<Reply>)
        requires
            old(self).0.wf(),
        ensures
            final(self).0.wf(),
            final(queue)@.len() == 0,
            exists|states: Seq<StoreModel>|
                {
                    &&& #[trigger] answers_in_order(states, old(queue)@, replies@)
                    &&& states.first() == old(self).0.model()
                    &&& states.last() == final(self).0.model()
                },
    {
        let ghost commands = queue@;
        let ghost mut states: Seq<StoreModel> = seq![self.0.model()];
        let mut replies: Vec<Reply> = Vec::new();
        loop
            invariant
                self.0.wf(),
                replies@.len() + queue@.len() == commands.len(),
                queue@ == commands.skip(replies@.len() as int),
                states.len() == replies@.len() + 1,
                states.first() == old(self).0.model(),
                states.last() == self.0.model(),
                forall|i: int|
                    0 <= i < replies@.len() ==> answers(
                        #[trigger] states[i],
                        commands[i],
                        replies@[i],
                        states[i + 1],
                    ),
            ensures
                queue@.len() == 0,
            decreases queue@.len(),
        {
            match queue.pop_front() {
                None => {
                    break ;
                },
                Some(command) => {
                    let ghost served = replies@.len() as int;
                    let ghost before = states;
                    proof {
                        assert(command == commands[served]);
                    }
                    let reply = self.handle(command);
                    replies.push(reply);
                    proof {
                        states = states.push(self.0.model());
                        assert forall|i: int| 0 <= i < replies@.len() implies answers(
                            #[trigger] states[i],
                            commands[i],
                            replies@[i],
                            states[i + 1],
                        ) by {
                            if i < served {
                                assert(states[i] == before[i]);
                                assert(states[i + 1] == before[i + 1]);
                            }
                        }
                        assert(queue@ =~= commands.skip(replies@.len() as int));
                    }
                },
            }
        }
        proof {
            assert(answers_in_order(states, commands, replies@));
        }
        replies
    }
}

} // verus!
