//! The example data that a new dataset starts with.

use vstd::prelude::*;
use vstd::string::*;
use crate::codec::{content_document, content_type_tag, reads_back};
use crate::data::{
    Content, ContentBlock, ContentBlockModel, ContentModel, NewContentBlock, NewNote, NewNotebook,
    Note, NoteModel, Notebook, NotebookModel, content_block_models, note_models, notebook_models,
};
use crate::repo::create_notebook_at;
use crate::repo_content_blocks::create_content_block_at;
use crate::repo_id::is_generated_id;
use crate::repo_notes::create_note_at;
use crate::store::{ContentBlockRowModel, NoteRowModel, Store, StoreError, StoreModel};
use crate::timestamp::Timestamp;

verus! {

/// The notebook that a new dataset starts with.
pub open spec fn example_notebook(id: Seq<char>, now: Timestamp) -> NotebookModel {
    NotebookModel {
        id: id,
        title: "Example notebook"@,
        created_at: now,
        updated_at: now,
        revision: now,
    }
}

/// The note that a new dataset starts with. It has no tags.
pub open spec fn welcome_note(id: Seq<char>, notebook_id: Seq<char>, now: Timestamp) -> NoteRowModel {
    NoteRowModel {
        id: id,
        title: "Welcome to Pragma!"@,
        tags: Seq::<Seq<char>>::empty(),
        notebook_id: notebook_id,
        created_at: now,
        updated_at: now,
        revision: now,
    }
}

/// The content block that a new dataset starts with: the welcome text.
pub open spec fn welcome_block(
    id: Seq<char>,
    note_id: Seq<char>,
    text: Seq<char>,
    now: Timestamp,
) -> ContentBlockRowModel {
    ContentBlockRowModel {
        id: id,
        type_: content_type_tag(ContentModel::Text { text }),
        content: content_document(ContentModel::Text { text }),
        note_id: note_id,
        created_at: now,
        updated_at: now,
        revision: now,
    }
}

/// The store with the example notebook added.
pub open spec fn with_example_notebook(store: StoreModel, id: Seq<char>, now: Timestamp) -> StoreModel {
    StoreModel { notebooks: store.notebooks.push(example_notebook(id, now)), ..store }
}

/// The store with the welcome note added.
pub open spec fn with_welcome_note(
    store: StoreModel,
    id: Seq<char>,
    notebook_id: Seq<char>,
    now: Timestamp,
) -> StoreModel {
    StoreModel { notes: store.notes.push(welcome_note(id, notebook_id, now)), ..store }
}

/// The store with the welcome block added.
pub open spec fn with_welcome_block(
    store: StoreModel,
    id: Seq<char>,
    note_id: Seq<char>,
    text: Seq<char>,
    now: Timestamp,
) -> StoreModel {
    StoreModel {
        content_blocks: store.content_blocks.push(welcome_block(id, note_id, text, now)),
        ..store
    }
}

/// Whether seeding under the three `ids`, at `now`, can have found the store
/// as `before`, ended in `result` and left the store as `after`: a seeding
/// that succeeds leaves all three resources, and one that fails leaves those
/// that it had stored before it failed.
pub open spec fn seeding_left(
    before: StoreModel,
    result: Result<(), StoreError>,
    after: StoreModel,
    ids: (Seq<char>, Seq<char>, Seq<char>),
    text: Seq<char>,
    now: Timestamp,
) -> bool {
    let first = with_example_notebook(before, ids.0, now);
    let second = with_welcome_note(first, ids.1, ids.0, now);
    let third = with_welcome_block(second, ids.2, ids.1, text, now);
    match result {
        Ok(_) => after == third,
        Err(e) => {
            &&& e == StoreError::StorageUnavailable || e == StoreError::ValidationError
            &&& after == before || after == first || after == second
        },
    }
}

/// Adds the example data, stamped `now`, under the three ids given: a
/// notebook, in it a note, and in that a content block with the welcome
/// text. It stops at the first of the three that the store refuses, and
/// leaves what it stored before.
pub fn seed_at(
    welcome_text: String,
    now: Timestamp,
    notebook_id: String,
    note_id: String,
    content_block_id: String,
    store: &mut Store,
) -> (result: Result<(), StoreError>)
    requires
        old(store).wf(),
    ensures
        final(store).wf(),
        ({
            let first = with_example_notebook(old(store).model(), notebook_id@, now);
            let second = with_welcome_note(first, note_id@, notebook_id@, now);
            let third = with_welcome_block(second, content_block_id@, note_id@, welcome_text@, now);
            let welcome = ContentModel::Text { text: welcome_text@ };
            &&& result is Ok <==> !old(store).model().holds_id(notebook_id@) && !first.holds_id(
                note_id@,
            ) && !second.holds_id(content_block_id@) && reads_back(welcome)
            &&& match result {
                Ok(_) => final(store).model() == third,
                Err(e) => {
                    &&& e == StoreError::StorageUnavailable || e == StoreError::ValidationError
                    &&& final(store).model() == old(store).model() || final(store).model() == first
                        || final(store).model() == second
                    &&& old(store).model().holds_id(notebook_id@) <==> final(store).model()
                        == old(store).model()
                    &&& e == StoreError::ValidationError <==> final(store).model() == second
                        && !second.holds_id(content_block_id@)
                },
            }
        }),
{
    let ghost before = store.model();
    let notebook = NewNotebook {
        id: Some(notebook_id.clone()),
        title: String::from_str("Example notebook"),
        created_at: now,
        updated_at: now,
    };
    let note = NewNote {
        id: Some(note_id.clone()),
        title: String::from_str("Welcome to Pragma!"),
        tags: Vec::new(),
        created_at: now,
        updated_at: now,
        notebook_id,
    };
    let content_block = NewContentBlock {
        id: Some(content_block_id),
        content: Content::Text { text: welcome_text },
        created_at: now,
        updated_at: now,
        note_id,
    };
    proof {
        assert(crate::data::texts(note.tags@) =~= Seq::<Seq<char>>::empty());
    }
    match create_notebook_at(notebook, String::new(), now, store) {
        Err(e) => {
            return Err(e);
        },
        Ok(_) => {},
    }
    proof {
        let first = with_example_notebook(before, notebook_id@, now);
        assert(first.notebooks.len() > before.notebooks.len());
        assert(store.model() == first);
    }
    match create_note_at(note, String::new(), now, store) {
        Err(e) => {
            return Err(e);
        },
        Ok(_) => {},
    }
    match create_content_block_at(content_block, String::new(), now, store) {
        Err(e) => Err(e),
        Ok(_) => Ok(()),
    }
}

/// Adds the example data under generated ids, stamped with the time of the
/// call.
pub fn seed(welcome_text: String, store: &mut Store) -> (result: Result<(), StoreError>)
    requires
        old(store).wf(),
    ensures
        final(store).wf(),
        exists|now: Timestamp, a: Seq<char>, b: Seq<char>, c: Seq<char>|
            {
                &&& is_generated_id(a)
                &&& is_generated_id(b)
                &&& is_generated_id(c)
                &&& #[trigger] seeding_left(
                    old(store).model(),
                    result,
                    final(store).model(),
                    (a, b, c),
                    welcome_text@,
                    now,
                )
            },
{
    let now = crate::timestamp::now();
    let notebook_id = crate::repo_id::generate();
    let note_id = crate::repo_id::generate();
    let content_block_id = crate::repo_id::generate();
    let ghost ids = (notebook_id@, note_id@, content_block_id@);
    let result = seed_at(welcome_text, now, notebook_id, note_id, content_block_id, store);
    proof {
        assert(seeding_left(
            old(store).model(),
            result,
            final(store).model(),
            ids,
            welcome_text@,
            now,
        ));
    }
    result
}

/// A notebook, a note in it and two content blocks in that, all stamped
/// `now`: sample data for a client to show.
pub fn seed_data(now: Timestamp) -> (data: (Vec<Notebook>, Vec<Note>, Vec<ContentBlock>))
    ensures
        notebook_models(data.0@) == seq![
            NotebookModel {
                id: "1"@,
                title: "Pascal"@,
                created_at: now,
                updated_at: now,
                revision: now,
            },
        ],
        note_models(data.1@) == seq![
            NoteModel {
                id: "1"@,
                title: "Test note 1"@,
                tags: Seq::<Seq<char>>::empty(),
                notebook_id: "1"@,
                created_at: now,
                updated_at: now,
                revision: now,
            },
        ],
        content_block_models(data.2@) == seq![
            ContentBlockModel {
                id: "1"@,
                content: ContentModel::Text { text: "Hello <strong> world</strong>!"@ },
                revision: now,
                created_at: now,
                updated_at: now,
                note_id: "1"@,
            },
            ContentBlockModel {
                id: "2"@,
                content: ContentModel::Code {
                    language: "javascript"@,
                    code: "alert('hello world!');"@,
                },
                revision: now,
                created_at: now,
                updated_at: now,
                note_id: "1"@,
            },
        ],
{
    let notebook1 = Notebook {
        id: String::from_str("1"),
        title: String::from_str("Pascal"),
        created_at: now,
        updated_at: now,
        revision: now,
    };
    let note1 = Note {
        id: String::from_str("1"),
        title: String::from_str("Test note 1"),
        tags: Vec::new(),
        notebook_id: String::from_str("1"),
        created_at: now,
        updated_at: now,
        revision: now,
    };
    let content1 = ContentBlock {
        id: String::from_str("1"),
        content: Content::Text { text: String::from_str("Hello <strong> world</strong>!") },
        revision: now,
        created_at: now,
        updated_at: now,
        note_id: String::from_str("1"),
    };
    let content2 = ContentBlock {
        id: String::from_str("2"),
        content: Content::Code {
            language: String::from_str("javascript"),
            code: String::from_str("alert('hello world!');"),
        },
        revision: now,
        created_at: now,
        updated_at: now,
        note_id: String::from_str("1"),
    };
    proof {
        assert(crate::data::texts(note1.tags@) =~= Seq::<Seq<char>>::empty());
    }
    let notebooks = vec![notebook1];
    let notes = vec![note1];
    let content_blocks = vec![content1, content2];
    proof {
        assert(notebook_models(notebooks@) =~= seq![notebook1@]);
        assert(note_models(notes@) =~= seq![note1@]);
        assert(content_block_models(content_blocks@) =~= seq![content1@, content2@]);
    }
    (notebooks, notes, content_blocks)
}

} // verus!
