//! The resources that clients see: notebooks, notes and content blocks, the
//! requests that create and change them, and the records of their deletion.

use vstd::prelude::*;
use crate::timestamp::Timestamp;

verus! {

pub type Tag = String;

/// What a list of strings holds, as a sequence of character sequences.
pub open spec fn texts(v: Seq<String>) -> Seq<Seq<char>> {
    v.map_values(|s: String| s@)
}

/// A notebook as a mathematical value.
pub struct NotebookModel {
    pub id: Seq<char>,
    pub title: Seq<char>,
    pub created_at: Timestamp,
    pub updated_at: Timestamp,
    pub revision: Timestamp,
}

#[derive(Debug)]
pub struct Notebook {
    pub id: String,
    pub title: String,
    pub created_at: Timestamp,
    pub updated_at: Timestamp,
    pub revision: Timestamp,
}

impl View for Notebook {
    type V = NotebookModel;

    open spec fn view(&self) -> NotebookModel {
        NotebookModel {
            id: self.id@,
            title: self.title@,
            created_at: self.created_at,
            updated_at: self.updated_at,
            revision: self.revision,
        }
    }
}

#[derive(Debug)]
pub struct NewNotebook {
    pub id: Option<String>,
    pub title: String,
    pub created_at: Timestamp,
    pub updated_at: Timestamp,
}

/// The new title of a notebook. The `revision` is the one the client last
/// saw; it is carried along and never compared with the stored one.
#[derive(Debug)]
pub struct NotebookUpdate {
    pub title: String,
    pub revision: Option<Timestamp>,
}

/// A note as a mathematical value.
pub struct NoteModel {
    pub id: Seq<char>,
    pub title: Seq<char>,
    pub tags: Seq<Seq<char>>,
    pub notebook_id: Seq<char>,
    pub created_at: Timestamp,
    pub updated_at: Timestamp,
    pub revision: Timestamp,
}

#[derive(Debug)]
pub struct Note {
    pub id: String,
    pub title: String,
    pub tags: Vec<Tag>,
    pub notebook_id: String,
    pub created_at: Timestamp,
    pub updated_at: Timestamp,
    pub revision: Timestamp,
}

impl View for Note {
    type V = NoteModel;

    open spec fn view(&self) -> NoteModel {
        NoteModel {
            id: self.id@,
            title: self.title@,
            tags: texts(self.tags@),
            notebook_id: self.notebook_id@,
            created_at: self.created_at,
            updated_at: self.updated_at,
            revision: self.revision,
        }
    }
}

#[derive(Debug)]
pub struct NewNote {
    pub id: Option<String>,
    pub title: String,
    pub tags: Vec<Tag>,
    pub created_at: Timestamp,
    pub updated_at: Timestamp,
    pub notebook_id: String,
}

#[derive(Debug)]
pub struct NoteUpdate {
    pub title: String,
    pub tags: Vec<Tag>,
    pub updated_at: Timestamp,
    pub revision: Option<Timestamp>,
}

/// The content of a block as a mathematical value.
pub enum ContentModel {
    Text { text: Seq<char> },
    Code { language: Seq<char>, code: Seq<char> },
}

#[derive(Debug)]
pub enum Content {
    Text { text: String },
    Code { language: String, code: String },
}

impl View for Content {
    type V = ContentModel;

    open spec fn view(&self) -> ContentModel {
        match *self {
            Content::Text { text } => ContentModel::Text { text: text@ },
            Content::Code { language, code } => ContentModel::Code {
                language: language@,
                code: code@,
            },
        }
    }
}

/// A content block as a mathematical value.
pub struct ContentBlockModel {
    pub id: Seq<char>,
    pub content: ContentModel,
    pub revision: Timestamp,
    pub created_at: Timestamp,
    pub updated_at: Timestamp,
    pub note_id: Seq<char>,
}

#[derive(Debug)]
pub struct ContentBlock {
    pub id: String,
    pub content: Content,
    pub revision: Timestamp,
    pub created_at: Timestamp,
    pub updated_at: Timestamp,
    pub note_id: String,
}

impl View for ContentBlock {
    type V = ContentBlockModel;

    open spec fn view(&self) -> ContentBlockModel {
        ContentBlockModel {
            id: self.id@,
            content: self.content@,
            revision: self.revision,
            created_at: self.created_at,
            updated_at: self.updated_at,
            note_id: self.note_id@,
        }
    }
}

#[derive(Debug)]
pub struct NewContentBlock {
    pub id: Option<String>,
    pub content: Content,
    pub created_at: Timestamp,
    pub updated_at: Timestamp,
    pub note_id: String,
}

#[derive(Debug)]
pub struct ContentBlockUpdate {
    pub content: Content,
    pub updated_at: Timestamp,
    pub revision: Option<Timestamp>,
}

/// The record of a deletion as a mathematical value.
pub struct DeletionModel {
    pub type_: Seq<char>,
    pub resource_id: Seq<char>,
    pub system_updated_at: Timestamp,
}

/// The durable record that the resource `resource_id` of kind `type_` was
/// deleted at `system_updated_at`.
#[derive(Debug)]
pub struct Deletion {
    pub type_: String,
    pub resource_id: String,
    pub system_updated_at: Timestamp,
}

impl View for Deletion {
    type V = DeletionModel;

    open spec fn view(&self) -> DeletionModel {
        DeletionModel {
            type_: self.type_@,
            resource_id: self.resource_id@,
            system_updated_at: self.system_updated_at,
        }
    }
}

/// The name under which deletions of notebooks are recorded.
pub open spec fn notebook_type() -> Seq<char> {
    "Notebook"@
}

/// The name under which deletions of notes are recorded.
pub open spec fn note_type() -> Seq<char> {
    "Note"@
}

/// The name under which deletions of content blocks are recorded.
pub open spec fn content_block_type() -> Seq<char> {
    "ContentBlock"@
}

/// A resource that knows the name of its kind.
pub trait TypeIdentifiable {
    spec fn spec_type_label(&self) -> Seq<char>;

    fn type_label(&self) -> (name: &'static str)
        ensures
            name@ == self.spec_type_label(),
    ;
}

impl TypeIdentifiable for Notebook {
    open spec fn spec_type_label(&self) -> Seq<char> {
        notebook_type()
    }

    fn type_label(&self) -> (name: &'static str) {
        "Notebook"
    }
}

impl TypeIdentifiable for Note {
    open spec fn spec_type_label(&self) -> Seq<char> {
        note_type()
    }

    fn type_label(&self) -> (name: &'static str) {
        "Note"
    }
}

impl TypeIdentifiable for ContentBlock {
    open spec fn spec_type_label(&self) -> Seq<char> {
        content_block_type()
    }

    fn type_label(&self) -> (name: &'static str) {
        "ContentBlock"
    }
}

/// What a list of notebooks holds.
pub open spec fn notebook_models(v: Seq<Notebook>) -> Seq<NotebookModel> {
    v.map_values(|n: Notebook| n@)
}

/// What a list of notes holds.
pub open spec fn note_models(v: Seq<Note>) -> Seq<NoteModel> {
    v.map_values(|n: Note| n@)
}

/// What a list of content blocks holds.
pub open spec fn content_block_models(v: Seq<ContentBlock>) -> Seq<ContentBlockModel> {
    v.map_values(|c: ContentBlock| c@)
}

/// What a list of deletion records holds.
pub open spec fn deletion_models(v: Seq<Deletion>) -> Seq<DeletionModel> {
    v.map_values(|d: Deletion| d@)
}

} // verus!
