//! The dataset: three tables of resources and one of deletion records, with
//! the rule that keeps identifiers apart.

use vstd::prelude::*;
use crate::data::{DeletionModel, NotebookModel, texts};
use crate::timestamp::Timestamp;

verus! {

/// Why an operation on the store failed.
#[derive(Clone, Copy, Debug, PartialEq, Eq, Structural)]
pub enum StoreError {
    /// The resource to change or delete does not exist.
    NotFound,
    /// A stored document cannot be read, or a submitted content does not
    /// come back from its document.
    ValidationError,
    /// The store refused the write: it would give two resources one id.
    StorageUnavailable,
    /// One of the queries behind a sync response failed.
    AggregationFailure,
}

impl StoreError {
    /// The reason, in words, as it is shown to a client.
    pub fn reason(&self) -> (text: &'static str)
        ensures
            text@ == match *self {
                StoreError::NotFound => "NotFound"@,
                StoreError::ValidationError => "ValidationError"@,
                StoreError::StorageUnavailable => "StorageUnavailable"@,
                StoreError::AggregationFailure => "AggregationFailure"@,
            },
    {
        match self {
            StoreError::NotFound => "NotFound",
            StoreError::ValidationError => "ValidationError",
            StoreError::StorageUnavailable => "StorageUnavailable",
            StoreError::AggregationFailure => "AggregationFailure",
        }
    }
}

/// A stored notebook.
#[derive(Debug)]
pub struct NotebookRow {
    pub id: String,
    pub title: String,
    pub created_at: Timestamp,
    pub updated_at: Timestamp,
    pub system_updated_at: Timestamp,
}

impl View for NotebookRow {
    type V = NotebookModel;

    open spec fn view(&self) -> NotebookModel {
        NotebookModel {
            id: self.id@,
            title: self.title@,
            created_at: self.created_at,
            updated_at: self.updated_at,
            revision: self.system_updated_at,
        }
    }
}

/// A stored note as a mathematical value.
pub struct NoteRowModel {
    pub id: Seq<char>,
    pub title: Seq<char>,
    pub tags: Seq<Seq<char>>,
    pub notebook_id: Seq<char>,
    pub created_at: Timestamp,
    pub updated_at: Timestamp,
    pub revision: Timestamp,
}

/// A stored note.
#[derive(Debug)]
pub struct NoteRow {
    pub id: String,
    pub title: String,
    pub tags: Vec<String>,
    pub notebook_id: String,
    pub created_at: Timestamp,
    pub updated_at: Timestamp,
    pub system_updated_at: Timestamp,
}

impl View for NoteRow {
    type V = NoteRowModel;

    open spec fn view(&self) -> NoteRowModel {
        NoteRowModel {
            id: self.id@,
            title: self.title@,
            tags: texts(self.tags@),
            notebook_id: self.notebook_id@,
            created_at: self.created_at,
            updated_at: self.updated_at,
            revision: self.system_updated_at,
        }
    }
}

/// A stored content block as a mathematical value. The content is a document
/// in text form, and `type_` names its kind.
pub struct ContentBlockRowModel {
    pub id: Seq<char>,
    pub type_: Seq<char>,
    pub content: Seq<char>,
    pub note_id: Seq<char>,
    pub created_at: Timestamp,
    pub updated_at: Timestamp,
    pub revision: Timestamp,
}

/// A stored content block.
#[derive(Debug)]
pub struct ContentBlockRow {
    pub id: String,
    pub type_: String,
    pub content: String,
    pub note_id: String,
    pub created_at: Timestamp,
    pub updated_at: Timestamp,
    pub system_updated_at: Timestamp,
}

impl View for ContentBlockRow {
    type V = ContentBlockRowModel;

    open spec fn view(&self) -> ContentBlockRowModel {
        ContentBlockRowModel {
            id: self.id@,
            type_: self.type_@,
            content: self.content@,
            note_id: self.note_id@,
            created_at: self.created_at,
            updated_at: self.updated_at,
            revision: self.system_updated_at,
        }
    }
}

/// A stored deletion record.
#[derive(Debug)]
pub struct DeletionRow {
    pub type_: String,
    pub resource_id: String,
    pub system_updated_at: Timestamp,
}

impl View for DeletionRow {
    type V = DeletionModel;

    open spec fn view(&self) -> DeletionModel {
        DeletionModel {
            type_: self.type_@,
            resource_id: self.resource_id@,
            system_updated_at: self.system_updated_at,
        }
    }
}

/// The dataset as a mathematical value: the rows of each table, in the order
/// in which they were stored.
pub struct StoreModel {
    pub notebooks: Seq<NotebookModel>,
    pub notes: Seq<NoteRowModel>,
    pub content_blocks: Seq<ContentBlockRowModel>,
    pub deletions: Seq<DeletionModel>,
}

impl StoreModel {
    /// The dataset that holds nothing.
    pub open spec fn empty() -> StoreModel {
        StoreModel {
            notebooks: Seq::empty(),
            notes: Seq::empty(),
            content_blocks: Seq::empty(),
            deletions: Seq::empty(),
        }
    }

    /// Whether a notebook has this id.
    pub open spec fn has_notebook(self, id: Seq<char>) -> bool {
        exists|i: int| 0 <= i < self.notebooks.len() && #[trigger] self.notebooks[i].id == id
    }

    /// Whether a note has this id.
    pub open spec fn has_note(self, id: Seq<char>) -> bool {
        exists|i: int| 0 <= i < self.notes.len() && #[trigger] self.notes[i].id == id
    }

    /// Whether a content block has this id.
    pub open spec fn has_content_block(self, id: Seq<char>) -> bool {
        exists|i: int|
            0 <= i < self.content_blocks.len() && #[trigger] self.content_blocks[i].id == id
    }

    /// Whether some resource, of whatever kind, has this id.
    pub open spec fn holds_id(self, id: Seq<char>) -> bool {
        self.has_notebook(id) || self.has_note(id) || self.has_content_block(id)
    }

    /// Whether the deletion of this resource is on record.
    pub open spec fn has_deletion(self, type_: Seq<char>, id: Seq<char>) -> bool {
        exists|i: int|
            0 <= i < self.deletions.len() && (#[trigger] self.deletions[i]).type_ == type_
                && self.deletions[i].resource_id == id
    }

    /// No two resources share an id, whatever their kinds, and no resource
    /// has two deletion records.
    pub open spec fn wf(self) -> bool {
        &&& forall|i: int, j: int|
            0 <= i < j < self.notebooks.len() ==> (#[trigger] self.notebooks[i]).id != (
            #[trigger] self.notebooks[j]).id
        &&& forall|i: int, j: int|
            0 <= i < j < self.notes.len() ==> (#[trigger] self.notes[i]).id != (
            #[trigger] self.notes[j]).id
        &&& forall|i: int, j: int|
            0 <= i < j < self.content_blocks.len() ==> (#[trigger] self.content_blocks[i]).id != (
            #[trigger] self.content_blocks[j]).id
        &&& forall|i: int, j: int|
            0 <= i < self.notebooks.len() && 0 <= j < self.notes.len() ==> (
            #[trigger] self.notebooks[i]).id != (#[trigger] self.notes[j]).id
        &&& forall|i: int, j: int|
            0 <= i < self.notebooks.len() && 0 <= j < self.content_blocks.len() ==> (
            #[trigger] self.notebooks[i]).id != (#[trigger] self.content_blocks[j]).id
        &&& forall|i: int, j: int|
            0 <= i < self.notes.len() && 0 <= j < self.content_blocks.len() ==> (
            #[trigger] self.notes[i]).id != (#[trigger] self.content_blocks[j]).id
        &&& forall|i: int, j: int|
            0 <= i < j < self.deletions.len() ==> !((#[trigger] self.deletions[i]).type_ == (
            #[trigger] self.deletions[j]).type_ && self.deletions[i].resource_id
                == self.deletions[j].resource_id)
    }
}

/// The dataset. Its tables are reached through the functions of this crate
/// only, which keep it well formed.
pub struct Store {
    pub(crate) notebooks: Vec<NotebookRow>,
    pub(crate) notes: Vec<NoteRow>,
    pub(crate) content_blocks: Vec<ContentBlockRow>,
    pub(crate) deletions: Vec<DeletionRow>,
}

impl Store {
    /// What the store holds.
    pub open(crate) spec fn model(&self) -> StoreModel {
        StoreModel {
            notebooks: self.notebooks@.map_values(|r: NotebookRow| r@),
            notes: self.notes@.map_values(|r: NoteRow| r@),
            content_blocks: self.content_blocks@.map_values(|r: ContentBlockRow| r@),
            deletions: self.deletions@.map_values(|r: DeletionRow| r@),
        }
    }

    /// Whether the store keeps its rule on identifiers.
    pub open spec fn wf(&self) -> bool {
        self.model().wf()
    }

    /// A store that holds nothing.
    pub fn new() -> (store: Store)
        ensures
            store.wf(),
            store.model() == StoreModel::empty(),
    {
        let store = Store {
            notebooks: Vec::new(),
            notes: Vec::new(),
            content_blocks: Vec::new(),
            deletions: Vec::new(),
        };
        proof {
            assert(store.model().notebooks =~= Seq::empty());
            assert(store.model().notes =~= Seq::empty());
            assert(store.model().content_blocks =~= Seq::empty());
            assert(store.model().deletions =~= Seq::empty());
        }
        store
    }
}

} // verus!
