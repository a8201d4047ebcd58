//! The sync response: everything that changed since a revision, the
//! deletions among it, and the revision to ask from next time.

use vstd::prelude::*;
use crate::data::{
    ContentBlock, ContentBlockModel, Deletion, DeletionModel, Note, NoteModel, Notebook,
    NotebookModel, content_block_models, deletion_models, note_models, notebook_models,
};
use crate::repo::{deletions, deletions_since, notebooks, notebooks_since};
use crate::repo_content_blocks::{all_decodable, blocks_read, content_blocks, content_blocks_since};
use crate::repo_notes::{notes, notes_read, notes_since};
use crate::store::{Store, StoreError, StoreModel};
use crate::timestamp::{Timestamp, later};

verus! {

/// A deleted resource as a mathematical value.
pub struct ResourceModel {
    pub id: Seq<char>,
    pub type_: Seq<char>,
}

/// The id and the kind of a deleted resource.
#[derive(Debug)]
pub struct Resource {
    pub id: String,
    pub type_: String,
}

impl View for Resource {
    type V = ResourceModel;

    open spec fn view(&self) -> ResourceModel {
        ResourceModel { id: self.id@, type_: self.type_@ }
    }
}

/// What a list of deleted resources holds.
pub open spec fn resource_models(v: Seq<Resource>) -> Seq<ResourceModel> {
    v.map_values(|r: Resource| r@)
}

/// The resources that a sync response reports as changed.
#[derive(Debug)]
pub struct Changes {
    pub notebooks: Vec<Notebook>,
    pub notes: Vec<Note>,
    pub content_blocks: Vec<ContentBlock>,
}

/// A sync response as a mathematical value.
pub struct DataResponseModel {
    pub revision: Timestamp,
    pub deletions: Seq<ResourceModel>,
    pub notebooks: Seq<NotebookModel>,
    pub notes: Seq<NoteModel>,
    pub content_blocks: Seq<ContentBlockModel>,
}

/// A sync response.
#[derive(Debug)]
pub struct DataResponse {
    pub revision: Timestamp,
    pub deletions: Vec<Resource>,
    pub changes: Changes,
}

impl View for DataResponse {
    type V = DataResponseModel;

    open spec fn view(&self) -> DataResponseModel {
        DataResponseModel {
            revision: self.revision,
            deletions: resource_models(self.deletions@),
            notebooks: notebook_models(self.changes.notebooks@),
            notes: note_models(self.changes.notes@),
            content_blocks: content_block_models(self.changes.content_blocks@),
        }
    }
}

/// The latest of the stamps, and `now` where there is none.
pub open spec fn derived_revision(stamps: Seq<Timestamp>, now: Timestamp) -> Timestamp
    decreases stamps.len(),
{
    if stamps.len() == 0 {
        now
    } else if stamps.len() == 1 {
        stamps[0]
    } else {
        later(derived_revision(stamps.drop_last(), now), stamps.last())
    }
}

/// The revisions of the notebooks, in their order.
pub open spec fn notebook_revisions(rows: Seq<NotebookModel>) -> Seq<Timestamp> {
    rows.map_values(|n: NotebookModel| n.revision)
}

/// The revisions of the notes, in their order.
pub open spec fn note_revisions(rows: Seq<NoteModel>) -> Seq<Timestamp> {
    rows.map_values(|n: NoteModel| n.revision)
}

/// The revisions of the content blocks, in their order.
pub open spec fn content_block_revisions(rows: Seq<ContentBlockModel>) -> Seq<Timestamp> {
    rows.map_values(|c: ContentBlockModel| c.revision)
}

/// The times of the deletions, in their order.
pub open spec fn deletion_revisions(rows: Seq<DeletionModel>) -> Seq<Timestamp> {
    rows.map_values(|d: DeletionModel| d.system_updated_at)
}

/// The stamps of everything in a response: of the notebooks, the notes, the
/// content blocks and the deletions, in this order.
pub open spec fn revisions_of(
    notebooks: Seq<NotebookModel>,
    notes: Seq<NoteModel>,
    content_blocks: Seq<ContentBlockModel>,
    deletions: Seq<DeletionModel>,
) -> Seq<Timestamp> {
    notebook_revisions(notebooks) + note_revisions(notes) + content_block_revisions(content_blocks)
        + deletion_revisions(deletions)
}

/// The resource that a deletion record reports.
pub open spec fn resource_of(d: DeletionModel) -> ResourceModel {
    ResourceModel { id: d.resource_id, type_: d.type_ }
}

/// The resources that the deletion records report, in their order.
pub open spec fn resources_of(deletions: Seq<DeletionModel>) -> Seq<ResourceModel> {
    deletions.map_values(|d: DeletionModel| resource_of(d))
}

/// The response that reports the given changes and deletions at `now`.
pub open spec fn response_of(
    notebooks: Seq<NotebookModel>,
    notes: Seq<NoteModel>,
    content_blocks: Seq<ContentBlockModel>,
    deletions: Seq<DeletionModel>,
    now: Timestamp,
) -> DataResponseModel {
    DataResponseModel {
        revision: derived_revision(revisions_of(notebooks, notes, content_blocks, deletions), now),
        deletions: resources_of(deletions),
        notebooks: notebooks,
        notes: notes,
        content_blocks: content_blocks,
    }
}

/// The time that a response to a poll made at `now` carries where nothing
/// changed: `now`, but never a time before the revision that the client
/// already holds.
pub open spec fn poll_time(since: Option<Timestamp>, now: Timestamp) -> Timestamp {
    match since {
        Some(held) => later(held, now),
        None => now,
    }
}

/// The response to a request, at `now`, for what changed in `store` since
/// `since`. It has a meaning where the content blocks in it can be read.
pub open spec fn changes_since(
    store: StoreModel,
    since: Option<Timestamp>,
    now: Timestamp,
) -> DataResponseModel {
    response_of(
        notebooks_since(store.notebooks, since),
        notes_read(notes_since(store.notes, since)),
        blocks_read(content_blocks_since(store.content_blocks, since)),
        deletions_since(store.deletions, since),
        poll_time(since, now),
    )
}

/// The latest of the stamps, and `now` where there is none.
fn latest_stamp(stamps: &Vec<Timestamp>, now: Timestamp) -> (r: Timestamp)
    ensures
        r == derived_revision(stamps@, now),
{
    if stamps.len() == 0 {
        return now;
    }
    let mut best = stamps[0];
    let mut i: usize = 1;
    proof {
        assert(stamps@.take(1).len() == 1);
    }
    while i < stamps.len()
        invariant
            1 <= i <= stamps.len(),
            best == derived_revision(stamps@.take(i as int), now),
        decreases stamps.len() - i,
    {
        proof {
            assert(stamps@.take(i + 1).drop_last() =~= stamps@.take(i as int));
        }
        if stamps[i].is_after(&best) {
            best = stamps[i];
        }
        i += 1;
    }
    proof {
        assert(stamps@.take(i as int) =~= stamps@);
    }
    best
}

/// The stamps of everything in a response, in the order of `revisions_of`.
fn collect_stamps(
    notebooks: &[Notebook],
    notes: &[Note],
    content_blocks: &[ContentBlock],
    deletions: &[Deletion],
) -> (stamps: Vec<Timestamp>)
    ensures
        stamps@ == revisions_of(
            notebook_models(notebooks@),
            note_models(notes@),
            content_block_models(content_blocks@),
            deletion_models(deletions@),
        ),
{
    let ghost a = notebook_revisions(notebook_models(notebooks@));
    let ghost b = note_revisions(note_models(notes@));
    let ghost c = content_block_revisions(content_block_models(content_blocks@));
    let ghost d = deletion_revisions(deletion_models(deletions@));
    let mut stamps: Vec<Timestamp> = Vec::new();
    let mut i: usize = 0;
    while i < notebooks.len()
        invariant
            i <= notebooks.len(),
            a == notebook_revisions(notebook_models(notebooks@)),
            stamps@ =~= a.take(i as int),
        decreases notebooks.len() - i,
    {
        stamps.push(notebooks[i].revision);
        i += 1;
    }
    let mut i: usize = 0;
    while i < notes.len()
        invariant
            i <= notes.len(),
            b == note_revisions(note_models(notes@)),
            stamps@ =~= a + b.take(i as int),
        decreases notes.len() - i,
    {
        stamps.push(notes[i].revision);
        i += 1;
    }
    let mut i: usize = 0;
    while i < content_blocks.len()
        invariant
            i <= content_blocks.len(),
            c == content_block_revisions(content_block_models(content_blocks@)),
            stamps@ =~= a + b + c.take(i as int),
        decreases content_blocks.len() - i,
    {
        stamps.push(content_blocks[i].revision);
        i += 1;
    }
    let mut i: usize = 0;
    while i < deletions.len()
        invariant
            i <= deletions.len(),
            d == deletion_revisions(deletion_models(deletions@)),
            stamps@ =~= a + b + c + d.take(i as int),
        decreases deletions.len() - i,
    {
        stamps.push(deletions[i].system_updated_at);
        i += 1;
    }
    stamps
}

/// The revision of a response made at `now`: the latest stamp among the
/// resources and deletions in it, and `now` where it holds none.
pub fn revision_at(
    notebooks: &[Notebook],
    notes: &[Note],
    content_blocks: &[ContentBlock],
    deletions: &[Deletion],
    now: Timestamp,
) -> (r: Timestamp)
    ensures
        r == derived_revision(
            revisions_of(
                notebook_models(notebooks@),
                note_models(notes@),
                content_block_models(content_blocks@),
                deletion_models(deletions@),
            ),
            now,
        ),
{
    let stamps = collect_stamps(notebooks, notes, content_blocks, deletions);
    latest_stamp(&stamps, now)
}

/// The revision of a response: the latest stamp among the resources and
/// deletions in it, and the time of the call where it holds none.
pub fn revision(
    notebooks: &[Notebook],
    notes: &[Note],
    content_blocks: &[ContentBlock],
    deletions: &[Deletion],
) -> (r: Timestamp)
    ensures
        exists|now: Timestamp|
            r == #[trigger] derived_revision(
                revisions_of(
                    notebook_models(notebooks@),
                    note_models(notes@),
                    content_block_models(content_blocks@),
                    deletion_models(deletions@),
                ),
                now,
            ),
{
    let now = crate::timestamp::now();
    revision_at(notebooks, notes, content_blocks, deletions, now)
}

/// The id and kind of each deleted resource.
fn map_resources(deleted_records: Vec<Deletion>) -> (resources: Vec<Resource>)
    ensures
        resource_models(resources@) == resources_of(deletion_models(deleted_records@)),
{
    let mut resources: Vec<Resource> = Vec::new();
    let mut i: usize = 0;
    while i < deleted_records.len()
        invariant
            i <= deleted_records.len(),
            resource_models(resources@) =~= resources_of(
                deletion_models(deleted_records@),
            ).take(i as int),
        decreases deleted_records.len() - i,
    {
        let d = &deleted_records[i];
        let ghost before = resources@;
        resources.push(Resource { id: d.resource_id.clone(), type_: d.type_.clone() });
        proof {
            assert(resource_models(resources@) =~= resource_models(before).push(resource_of(d@)));
        }
        i += 1;
    }
    resources
}

/// The response, made at `now`, that reports the given changes and
/// deletions.
pub fn build_response_at(
    notebooks: Vec<Notebook>,
    notes: Vec<Note>,
    content_blocks: Vec<ContentBlock>,
    deleted_records: Vec<Deletion>,
    now: Timestamp,
) -> (response: DataResponse)
    ensures
        response@ == response_of(
            notebook_models(notebooks@),
            note_models(notes@),
            content_block_models(content_blocks@),
            deletion_models(deleted_records@),
            now,
        ),
{
    let revision = revision_at(
        notebooks.as_slice(),
        notes.as_slice(),
        content_blocks.as_slice(),
        deleted_records.as_slice(),
        now,
    );
    let deletions = map_resources(deleted_records);
    DataResponse { revision, deletions, changes: Changes { notebooks, notes, content_blocks } }
}

/// The response, made at the time of the call, that reports the given
/// changes and deletions.
pub fn build_response(
    notebooks: Vec<Notebook>,
    notes: Vec<Note>,
    content_blocks: Vec<ContentBlock>,
    deleted_records: Vec<Deletion>,
) -> (response: DataResponse)
    ensures
        exists|now: Timestamp|
            response@ == #[trigger] response_of(
                notebook_models(notebooks@),
                note_models(notes@),
                content_block_models(content_blocks@),
                deletion_models(deleted_records@),
                now,
            ),
{
    let now = crate::timestamp::now();
    build_response_at(notebooks, notes, content_blocks, deleted_records, now)
}

/// Joins the answers of the four queries behind a sync request into one
/// response made at `now`. If one of them failed there is no response.
pub fn join_changes(
    notebooks: Result<Vec<Notebook>, StoreError>,
    notes: Result<Vec<Note>, StoreError>,
    content_blocks: Result<Vec<ContentBlock>, StoreError>,
    deleted_records: Result<Vec<Deletion>, StoreError>,
    now: Timestamp,
) -> (result: Result<DataResponse, StoreError>)
    ensures
        result is Ok <==> notebooks is Ok && notes is Ok && content_blocks is Ok
            && deleted_records is Ok,
        match result {
            Ok(response) => response@ == response_of(
                notebook_models(notebooks->Ok_0@),
                note_models(notes->Ok_0@),
                content_block_models(content_blocks->Ok_0@),
                deletion_models(deleted_records->Ok_0@),
                now,
            ),
            Err(e) => e == StoreError::AggregationFailure,
        },
{
    match (notebooks, notes, content_blocks, deleted_records) {
        (Ok(notebooks), Ok(notes), Ok(content_blocks), Ok(deleted_records)) => Ok(
            build_response_at(notebooks, notes, content_blocks, deleted_records, now),
        ),
        _ => Err(StoreError::AggregationFailure),
    }
}

/// Everything in `store` that changed since `since_revision`, or all of it
/// where there is none, as a response made at `now`. Where nothing changed
/// the response carries `now` as its revision, or `since_revision` where the
/// clock stands behind it: the revision handed back is never earlier than
/// the one handed in.
pub fn get_data_at(since_revision: Option<Timestamp>, now: Timestamp, store: &Store) -> (result:
    Result<DataResponse, StoreError>)
    ensures
        result is Ok <==> all_decodable(
            content_blocks_since(store.model().content_blocks, since_revision),
        ),
        match result {
            Ok(response) => response@ == changes_since(store.model(), since_revision, now),
            Err(e) => e == StoreError::AggregationFailure,
        },
{
    let changed_notebooks = notebooks(since_revision, store);
    let changed_notes = notes(since_revision, store);
    let changed_blocks = content_blocks(since_revision, store);
    let deleted_records = deletions(since_revision, store);
    let at = match since_revision {
        Some(held) => held.latest(now),
        None => now,
    };
    join_changes(changed_notebooks, changed_notes, changed_blocks, deleted_records, at)
}

/// Everything in `store` that changed since `since_revision`, or all of it
/// where there is none, as a response made at the time of the call.
pub fn get_data(since_revision: Option<Timestamp>, store: &Store) -> (result: Result<
    DataResponse,
    StoreError,
>)
    ensures
        result is Ok <==> all_decodable(
            content_blocks_since(store.model().content_blocks, since_revision),
        ),
        match result {
            Ok(response) => exists|now: Timestamp|
                response@ == #[trigger] changes_since(store.model(), since_revision, now),
            Err(e) => e == StoreError::AggregationFailure,
        },
{
    let now = crate::timestamp::now();
    get_data_at(since_revision, now, store)
}

} // verus!
