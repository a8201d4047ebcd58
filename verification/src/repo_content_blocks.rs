//! The operations on content blocks.

use vstd::prelude::*;
use crate::codec::{
    clone_content, content_document, content_to_string, content_type_tag, decoded_content,
    map_content, reads_back, same_content,
};
use crate::data::{
    Content, ContentBlock, ContentBlockModel, ContentBlockUpdate, ContentModel, NewContentBlock,
    content_block_models, content_block_type,
};
use crate::repo::{
    changed_since, choose_id, chosen_id, deletions_recorded, find_content_block, id_in_use,
    is_changed, record_deletion,
};
use crate::repo_id::is_generated_id;
use crate::seq_lemmas::lemma_filter_removes_one;
use crate::store::{ContentBlockRow, ContentBlockRowModel, Store, StoreError, StoreModel};
use crate::timestamp::{Timestamp, moved_forward, revision_after, stamp_after};

verus! {

/// Whether the document of a stored row stands for a content.
pub open spec fn is_decodable(r: ContentBlockRowModel) -> bool {
    decoded_content(r.content) is Some
}

/// Whether every one of the rows can be read.
pub open spec fn all_decodable(rows: Seq<ContentBlockRowModel>) -> bool {
    forall|i: int| 0 <= i < rows.len() ==> is_decodable(#[trigger] rows[i])
}

/// The content block that a stored row stands for, with `content` for what
/// its document holds.
pub open spec fn block_with_content(
    r: ContentBlockRowModel,
    content: ContentModel,
) -> ContentBlockModel {
    ContentBlockModel {
        id: r.id,
        content: content,
        revision: r.revision,
        created_at: r.created_at,
        updated_at: r.updated_at,
        note_id: r.note_id,
    }
}

/// The content block that a stored row stands for. It has a meaning for rows
/// that can be read.
pub open spec fn block_of_row(r: ContentBlockRowModel) -> ContentBlockModel {
    block_with_content(r, decoded_content(r.content)->Some_0)
}

/// `block_of_row` as a function value.
pub open spec fn block_reader() -> spec_fn(ContentBlockRowModel) -> ContentBlockModel {
    |r: ContentBlockRowModel| block_of_row(r)
}

/// The content blocks that the rows stand for, in their order.
pub open spec fn blocks_read(rows: Seq<ContentBlockRowModel>) -> Seq<ContentBlockModel> {
    rows.map_values(block_reader())
}

/// The test that picks the content blocks changed since `since`.
pub open spec fn block_changed(since: Option<Timestamp>) -> spec_fn(ContentBlockRowModel) -> bool {
    |r: ContentBlockRowModel| changed_since(r.revision, since)
}

/// The rows among `rows` that changed since `since`, in stored order.
pub open spec fn content_blocks_since(
    rows: Seq<ContentBlockRowModel>,
    since: Option<Timestamp>,
) -> Seq<ContentBlockRowModel> {
    rows.filter(block_changed(since))
}

/// The row that a request for a new content block stores at `now`.
pub open spec fn new_block_row(
    block: NewContentBlock,
    generated: Seq<char>,
    now: Timestamp,
) -> ContentBlockRowModel {
    ContentBlockRowModel {
        id: chosen_id(block.id, generated),
        type_: content_type_tag(block.content@),
        content: content_document(block.content@),
        note_id: block.note_id@,
        created_at: block.created_at,
        updated_at: block.updated_at,
        revision: now,
    }
}

/// The content block that a request for a new one creates at `now`.
pub open spec fn new_block(
    block: NewContentBlock,
    generated: Seq<char>,
    now: Timestamp,
) -> ContentBlockModel {
    block_with_content(new_block_row(block, generated, now), block.content@)
}

/// The row of a content block after an update at `now`: it has the content
/// and the time of change of `update`, and its revision has moved forward.
pub open spec fn updated_block_row(
    r: ContentBlockRowModel,
    update: ContentBlockUpdate,
    now: Timestamp,
) -> ContentBlockRowModel {
    ContentBlockRowModel {
        id: r.id,
        type_: content_type_tag(update.content@),
        content: content_document(update.content@),
        note_id: r.note_id,
        created_at: r.created_at,
        updated_at: update.updated_at,
        revision: revision_after(r.revision, now),
    }
}

/// The content block that an update at `now` makes of the one stored as `r`.
pub open spec fn updated_block(
    r: ContentBlockRowModel,
    update: ContentBlockUpdate,
    now: Timestamp,
) -> ContentBlockModel {
    block_with_content(updated_block_row(r, update, now), update.content@)
}

/// Updates the content block `id` and leaves every other block as it is.
pub open spec fn rewrite_block(id: Seq<char>, update: ContentBlockUpdate, now: Timestamp) -> spec_fn(
    ContentBlockRowModel,
) -> ContentBlockRowModel {
    |r: ContentBlockRowModel|
        if r.id == id {
            updated_block_row(r, update, now)
        } else {
            r
        }
}

/// The rows after an update of content block `id`.
pub open spec fn content_blocks_updated(
    rows: Seq<ContentBlockRowModel>,
    id: Seq<char>,
    update: ContentBlockUpdate,
    now: Timestamp,
) -> Seq<ContentBlockRowModel> {
    rows.map_values(rewrite_block(id, update, now))
}

/// The test that keeps every content block but `id`.
pub open spec fn block_is_not(id: Seq<char>) -> spec_fn(ContentBlockRowModel) -> bool {
    |r: ContentBlockRowModel| r.id != id
}

/// The rows after the deletion of content block `id`.
pub open spec fn content_blocks_without(rows: Seq<ContentBlockRowModel>, id: Seq<char>) -> Seq<
    ContentBlockRowModel,
> {
    rows.filter(block_is_not(id))
}

/// The content block that a stored row stands for, if its document can be
/// read.
pub(crate) fn map_content_block(content_block: &ContentBlockRow) -> (result: Result<
    ContentBlock,
    StoreError,
>)
    ensures
        match result {
            Ok(mapped) => is_decodable(content_block@) && mapped@ == block_of_row(content_block@),
            Err(e) => e == StoreError::ValidationError && !is_decodable(content_block@),
        },
{
    match map_content(content_block.content.as_str()) {
        Err(e) => Err(e),
        Ok(content) => Ok(
            ContentBlock {
                id: content_block.id.clone(),
                note_id: content_block.note_id.clone(),
                content,
                revision: content_block.system_updated_at,
                created_at: content_block.created_at,
                updated_at: content_block.updated_at,
            },
        ),
    }
}

/// The content blocks changed since `since_revision`; all of them when there
/// is none. One stored document that cannot be read fails the whole query.
pub fn content_blocks(since_revision: Option<Timestamp>, store: &Store) -> (result: Result<
    Vec<ContentBlock>,
    StoreError,
>)
    ensures
        result is Ok <==> all_decodable(
            content_blocks_since(store.model().content_blocks, since_revision),
        ),
        match result {
            Ok(found) => content_block_models(found@) == blocks_read(
                content_blocks_since(store.model().content_blocks, since_revision),
            ),
            Err(e) => e == StoreError::ValidationError,
        },
{
    let ghost rows = store.model().content_blocks;
    let mut found: Vec<ContentBlock> = Vec::new();
    let mut i: usize = 0;
    proof {
        reveal(Seq::filter);
        assert(content_block_models(found@) =~= blocks_read(
            content_blocks_since(rows.take(0), since_revision),
        ));
    }
    while i < store.content_blocks.len()
        invariant
            i <= store.content_blocks.len(),
            rows == store.model().content_blocks,
            all_decodable(content_blocks_since(rows.take(i as int), since_revision)),
            content_block_models(found@) == blocks_read(
                content_blocks_since(rows.take(i as int), since_revision),
            ),
        decreases store.content_blocks.len() - i,
    {
        let row = &store.content_blocks[i];
        proof {
            assert(rows.take(i + 1) =~= rows.take(i as int).push(rows[i as int]));
            rows.take(i as int).lemma_filter_push(rows[i as int], block_changed(since_revision));
        }
        if is_changed(row.system_updated_at, since_revision) {
            match map_content_block(row) {
                Err(e) => {
                    proof {
                        rows.lemma_filter_contains(block_changed(since_revision), i as int);
                        let kept = content_blocks_since(rows, since_revision);
                        let k = choose|k: int| 0 <= k < kept.len() && kept[k] == rows[i as int];
                        assert(!is_decodable(kept[k]));
                    }
                    return Err(e);
                },
                Ok(block) => {
                    let ghost before = found@;
                    found.push(block);
                    proof {
                        let kept = content_blocks_since(rows.take(i as int), since_revision);
                        assert(blocks_read(kept.push(row@)) =~= blocks_read(kept).push(
                            block_of_row(row@),
                        ));
                        assert(content_block_models(found@) =~= content_block_models(before).push(
                            block_of_row(row@),
                        ));
                    }
                },
            }
        }
        i += 1;
    }
    proof {
        assert(rows.take(i as int) =~= rows);
    }
    Ok(found)
}

/// Reads a row that is about to be stored back, and hands out the block it
/// stands for only if that carries the content that was written.
fn read_back(row: &ContentBlockRow, content: &Content) -> (block: Option<ContentBlock>)
    ensures
        match block {
            Some(b) => decoded_content(row@.content) == Some(content@) && b@ == block_with_content(
                row@,
                content@,
            ),
            None => decoded_content(row@.content) != Some(content@),
        },
{
    match map_content_block(row) {
        Err(_) => None,
        Ok(block) => if same_content(&block.content, content) {
            Some(block)
        } else {
            None
        },
    }
}

/// Stores a new content block under its supplied id, or under `generated_id`
/// where it has none, stamped `now`. The store refuses an id that is in use,
/// and a content that its document does not give back.
pub fn create_content_block_at(
    content_block: NewContentBlock,
    generated_id: String,
    now: Timestamp,
    store: &mut Store,
) -> (result: Result<ContentBlock, StoreError>)
    requires
        old(store).wf(),
    ensures
        final(store).wf(),
        result is Ok <==> !old(store).model().holds_id(
            chosen_id(content_block.id, generated_id@),
        ) && reads_back(content_block.content@),
        match result {
            Ok(created) => {
                &&& created@ == new_block(content_block, generated_id@, now)
                &&& final(store).model() == (StoreModel {
                    content_blocks: old(store).model().content_blocks.push(
                        new_block_row(content_block, generated_id@, now),
                    ),
                    ..old(store).model()
                })
            },
            Err(e) => {
                &&& final(store).model() == old(store).model()
                &&& e == StoreError::StorageUnavailable <==> old(store).model().holds_id(
                    chosen_id(content_block.id, generated_id@),
                )
                &&& e == StoreError::StorageUnavailable || e == StoreError::ValidationError
            },
        },
{
    let ghost before = store.model();
    let NewContentBlock { id, content, created_at, updated_at, note_id } = content_block;
    let id = choose_id(id, generated_id);
    if id_in_use(store, &id) {
        return Err(StoreError::StorageUnavailable);
    }
    let given = clone_content(&content);
    let (document, type_) = match content_to_string(content) {
        Ok(stored) => stored,
        Err(e) => {
            return Err(e);
        },
    };
    let row = ContentBlockRow {
        id,
        type_,
        content: document,
        note_id,
        created_at,
        updated_at,
        system_updated_at: now,
    };
    match read_back(&row, &given) {
        None => Err(StoreError::ValidationError),
        Some(created) => {
            store.content_blocks.push(row);
            proof {
                assert(store.model().content_blocks =~= before.content_blocks.push(
                    new_block_row(content_block, generated_id@, now),
                ));
                assert(store.model().notebooks =~= before.notebooks);
                assert(store.model().notes =~= before.notes);
                assert(store.model().deletions =~= before.deletions);
            }
            Ok(created)
        },
    }
}

/// Stores a new content block, stamped with the time of the call; where it
/// comes without an id it gets a generated one.
pub fn create_content_block(content_block: NewContentBlock, store: &mut Store) -> (result: Result<
    ContentBlock,
    StoreError,
>)
    requires
        old(store).wf(),
    ensures
        final(store).wf(),
        content_block.id matches Some(id) ==> (result is Ok <==> !old(store).model().holds_id(id@)
            && reads_back(content_block.content@)),
        match result {
            Ok(created) => {
                &&& exists|generated: Seq<char>, now: Timestamp|
                    {
                        &&& is_generated_id(generated)
                        &&& created@ == #[trigger] new_block(content_block, generated, now)
                        &&& final(store).model() == (StoreModel {
                            content_blocks: old(store).model().content_blocks.push(
                                new_block_row(content_block, generated, now),
                            ),
                            ..old(store).model()
                        })
                    }
                &&& !old(store).model().holds_id(created@.id)
                &&& reads_back(content_block.content@)
            },
            Err(e) => {
                &&& final(store).model() == old(store).model()
                &&& e == StoreError::StorageUnavailable || e == StoreError::ValidationError
                &&& e == StoreError::ValidationError ==> !reads_back(content_block.content@)
                &&& e == StoreError::StorageUnavailable ==> exists|generated: Seq<char>|
                    is_generated_id(generated) && old(store).model().holds_id(
                        #[trigger] chosen_id(content_block.id, generated),
                    )
            },
        },
{
    let now = crate::timestamp::now();
    let generated_id = crate::repo_id::generate();
    let ghost generated = generated_id@;
    let result = create_content_block_at(content_block, generated_id, now, store);
    proof {
        if result is Ok {
            assert(new_block(content_block, generated, now).id == chosen_id(
                content_block.id,
                generated,
            ));
        } else if result->Err_0 == StoreError::StorageUnavailable {
            assert(old(store).model().holds_id(chosen_id(content_block.id, generated)));
        }
    }
    result
}

/// Gives content block `content_block_id` the content and time of change of
/// `update`, and moves its revision forward to `now`, or just past the
/// stored revision where the clock has not moved past it. A block that is
/// not there cannot be updated, and a content that its document does not
/// give back is refused. The revision that the update carries is not looked
/// at.
pub fn update_content_block_at(
    content_block_id: &str,
    update: ContentBlockUpdate,
    now: Timestamp,
    store: &mut Store,
) -> (result: Result<ContentBlock, StoreError>)
    requires
        old(store).wf(),
    ensures
        final(store).wf(),
        result is Ok <==> old(store).model().has_content_block(content_block_id@) && reads_back(
            update.content@,
        ),
        match result {
            Ok(updated) => {
                &&& forall|i: int|
                    0 <= i < old(store).model().content_blocks.len() && (
                    #[trigger] old(store).model().content_blocks[i]).id == content_block_id@
                        ==> updated@ == updated_block(
                        old(store).model().content_blocks[i],
                        update,
                        now,
                    )
                &&& forall|i: int|
                    0 <= i < old(store).model().content_blocks.len() && (
                    #[trigger] old(store).model().content_blocks[i]).id == content_block_id@
                        ==> moved_forward(
                        old(store).model().content_blocks[i].revision,
                        updated@.revision,
                    )
                &&& final(store).model() == (StoreModel {
                    content_blocks: content_blocks_updated(
                        old(store).model().content_blocks,
                        content_block_id@,
                        update,
                        now,
                    ),
                    ..old(store).model()
                })
            },
            Err(e) => {
                &&& final(store).model() == old(store).model()
                &&& e == StoreError::NotFound <==> !old(store).model().has_content_block(
                    content_block_id@,
                )
                &&& e == StoreError::NotFound || e == StoreError::ValidationError
            },
        },
{
    let ghost before = store.model();
    let ContentBlockUpdate { content, updated_at, revision: _ } = update;
    let id = content_block_id.to_owned();
    match find_content_block(&store.content_blocks, &id) {
        None => {
            proof {
                assert forall|j: int| 0 <= j < before.content_blocks.len() implies (
                #[trigger] before.content_blocks[j]).id != id@ by {
                    assert(store.content_blocks@[j].id@ != id@);
                }
            }
            Err(StoreError::NotFound)
        },
        Some(i) => {
            proof {
                assert(before.content_blocks[i as int].id == content_block_id@);
            }
            let given = clone_content(&content);
            let (document, type_) = match content_to_string(content) {
                Ok(stored) => stored,
                Err(e) => {
                    return Err(e);
                },
            };
            let created_at = store.content_blocks[i].created_at;
            let note_id = store.content_blocks[i].note_id.clone();
            let revision = stamp_after(store.content_blocks[i].system_updated_at, now);
            let row = ContentBlockRow {
                id,
                type_,
                content: document,
                note_id,
                created_at,
                updated_at,
                system_updated_at: revision,
            };
            match read_back(&row, &given) {
                None => Err(StoreError::ValidationError),
                Some(updated) => {
                    store.content_blocks.set(i, row);
                    proof {
                        assert(store.model().content_blocks =~= content_blocks_updated(
                            before.content_blocks,
                            content_block_id@,
                            update,
                            now,
                        ));
                        assert(store.model().notebooks =~= before.notebooks);
                        assert(store.model().notes =~= before.notes);
                        assert(store.model().deletions =~= before.deletions);
                    }
                    Ok(updated)
                },
            }
        },
    }
}

/// Gives content block `content_block_id` the content and time of change of
/// `update`, and moves its revision forward to the time of the call.
pub fn update_content_block(
    content_block_id: &str,
    update: ContentBlockUpdate,
    store: &mut Store,
) -> (result: Result<ContentBlock, StoreError>)
    requires
        old(store).wf(),
    ensures
        final(store).wf(),
        result is Ok <==> old(store).model().has_content_block(content_block_id@) && reads_back(
            update.content@,
        ),
        match result {
            Ok(updated) => {
                &&& exists|now: Timestamp|
                    {
                        &&& final(store).model() == (StoreModel {
                            content_blocks: #[trigger] content_blocks_updated(
                                old(store).model().content_blocks,
                                content_block_id@,
                                update,
                                now,
                            ),
                            ..old(store).model()
                        })
                        &&& forall|i: int|
                            0 <= i < old(store).model().content_blocks.len() && (
                            #[trigger] old(store).model().content_blocks[i]).id == content_block_id@
                                ==> updated@ == updated_block(
                                old(store).model().content_blocks[i],
                                update,
                                now,
                            )
                    }
                &&& forall|i: int|
                    0 <= i < old(store).model().content_blocks.len() && (
                    #[trigger] old(store).model().content_blocks[i]).id == content_block_id@
                        ==> moved_forward(
                        old(store).model().content_blocks[i].revision,
                        updated@.revision,
                    )
            },
            Err(e) => {
                &&& final(store).model() == old(store).model()
                &&& e == StoreError::NotFound <==> !old(store).model().has_content_block(
                    content_block_id@,
                )
                &&& e == StoreError::NotFound || e == StoreError::ValidationError
            },
        },
{
    let now = crate::timestamp::now();
    update_content_block_at(content_block_id, update, now, store)
}

/// Removes content block `content_block_id` and puts its deletion at `now`
/// on record.
pub fn delete_contentblock_at(content_block_id: String, now: Timestamp, store: &mut Store) -> (result:
    Result<(), StoreError>)
    requires
        old(store).wf(),
    ensures
        final(store).wf(),
        !old(store).model().has_content_block(content_block_id@) ==> (result matches Err(e) && e
            == StoreError::NotFound) && final(store).model() == old(store).model(),
        old(store).model().has_content_block(content_block_id@) ==> ({
            &&& result is Ok
            &&& final(store).model() == (StoreModel {
                content_blocks: content_blocks_without(
                    old(store).model().content_blocks,
                    content_block_id@,
                ),
                deletions: deletions_recorded(
                    old(store).model().deletions,
                    content_block_type(),
                    content_block_id@,
                    now,
                ),
                ..old(store).model()
            })
        }),
{
    let ghost before = store.model();
    match find_content_block(&store.content_blocks, &content_block_id) {
        None => {
            proof {
                assert forall|j: int| 0 <= j < before.content_blocks.len() implies (
                #[trigger] before.content_blocks[j]).id != content_block_id@ by {
                    assert(store.content_blocks@[j].id@ != content_block_id@);
                }
            }
            Err(StoreError::NotFound)
        },
        Some(i) => {
            store.content_blocks.remove(i);
            proof {
                assert(before.content_blocks[i as int].id == content_block_id@);
                assert(store.model().content_blocks =~= before.content_blocks.remove(i as int));
                lemma_filter_removes_one(
                    before.content_blocks,
                    block_is_not(content_block_id@),
                    i as int,
                );
                assert(store.model().notebooks =~= before.notebooks);
                assert(store.model().notes =~= before.notes);
                assert(store.model().deletions =~= before.deletions);
            }
            record_deletion("ContentBlock", content_block_id, now, store);
            Ok(())
        },
    }
}

/// Removes content block `content_block_id` and puts its deletion, at the
/// time of the call, on record.
pub fn delete_contentblock(content_block_id: String, store: &mut Store) -> (result: Result<
    (),
    StoreError,
>)
    requires
        old(store).wf(),
    ensures
        final(store).wf(),
        result is Ok <==> old(store).model().has_content_block(content_block_id@),
        match result {
            Ok(_) => exists|at: Timestamp|
                final(store).model() == (StoreModel {
                    content_blocks: content_blocks_without(
                        old(store).model().content_blocks,
                        content_block_id@,
                    ),
                    deletions: #[trigger] deletions_recorded(
                        old(store).model().deletions,
                        content_block_type(),
                        content_block_id@,
                        at,
                    ),
                    ..old(store).model()
                }),
            Err(e) => e == StoreError::NotFound && final(store).model() == old(store).model(),
        },
{
    let now = crate::timestamp::now();
    delete_contentblock_at(content_block_id, now, store)
}

} // verus!
