use pragma::api::{build_response_at, get_data, get_data_at, join_changes, revision_at};
use pragma::data::{Deletion, NewNotebook, Note, Notebook, NotebookUpdate};
use pragma::repo::{
    create_notebook, create_notebook_at, delete_notebook, delete_notebook_at, deletions, notebooks,
    record_deletion, update_notebook, update_notebook_at,
};
use pragma::repo_actor::{CreateNotebookMessage, DbExecutor, GetNoteBooksMessage};
use pragma::store::{Store, StoreError};
use pragma::timestamp::{stamp_after, Timestamp};

fn at(secs: i64) -> Timestamp {
    Timestamp::new(secs, 0)
}

fn new_notebook(id: Option<&str>, title: &str, created: Timestamp) -> NewNotebook {
    NewNotebook {
        id: id.map(|s| s.to_string()),
        title: title.to_string(),
        created_at: created,
        updated_at: created,
    }
}

#[test]
fn notebook_scenario_create_update_delete() {
    let t1 = at(100);
    let t2 = at(200);
    let t3 = at(300);
    let mut store = Store::new();

    let created =
        create_notebook_at(new_notebook(None, "Pascal", at(90)), "nb-1".to_string(), t1, &mut store)
            .unwrap();
    assert_eq!(created.id, "nb-1");
    assert_eq!(created.revision, t1);
    let all = get_data_at(None, at(1000), &store).unwrap();
    assert_eq!(all.changes.notebooks.len(), 1);
    assert_eq!(all.changes.notebooks[0].id, "nb-1");
    assert_eq!(all.changes.notebooks[0].title, "Pascal");
    assert_eq!(all.changes.notebooks[0].revision, t1);
    assert_eq!(all.revision, t1);

    let update = NotebookUpdate { title: "Pascal2".to_string(), revision: None };
    let updated = update_notebook_at("nb-1", update, t2, &mut store).unwrap();
    assert_eq!(updated.title, "Pascal2");
    assert_eq!(updated.revision, t2);
    assert_eq!(updated.created_at, at(90));
    let since_t1 = get_data_at(Some(t1), at(1000), &store).unwrap();
    assert_eq!(since_t1.changes.notebooks.len(), 1);
    assert_eq!(since_t1.changes.notebooks[0].title, "Pascal2");
    assert_eq!(since_t1.changes.notebooks[0].revision, t2);
    assert_eq!(since_t1.revision, t2);
    let since_t2 = get_data_at(Some(t2), at(1000), &store).unwrap();
    assert!(since_t2.changes.notebooks.is_empty());
    assert!(since_t2.changes.notes.is_empty());
    assert!(since_t2.changes.content_blocks.is_empty());
    assert!(since_t2.deletions.is_empty());
    assert_eq!(since_t2.revision, at(1000));

    delete_notebook_at("nb-1".to_string(), t3, &mut store).unwrap();
    let after_delete = get_data_at(Some(t2), at(1000), &store).unwrap();
    assert!(after_delete.changes.notebooks.is_empty());
    assert_eq!(after_delete.deletions.len(), 1);
    assert_eq!(after_delete.deletions[0].id, "nb-1");
    assert_eq!(after_delete.deletions[0].type_, "Notebook");
    assert_eq!(after_delete.revision, t3);
}

#[test]
fn created_notebook_is_in_full_sync_with_create_time() {
    let mut store = Store::new();
    create_notebook_at(new_notebook(Some("a"), "A", at(1)), "unused".to_string(), at(5), &mut store)
        .unwrap();
    create_notebook_at(new_notebook(None, "B", at(2)), "b".to_string(), at(7), &mut store).unwrap();
    let found = notebooks(None, &store).unwrap();
    assert_eq!(found.len(), 2);
    assert_eq!(found[0].id, "a");
    assert_eq!(found[0].revision, at(5));
    assert_eq!(found[1].id, "b");
    assert_eq!(found[1].revision, at(7));
    assert_eq!(found[1].created_at, at(2));
}

#[test]
fn sync_is_strictly_after_the_given_revision() {
    let mut store = Store::new();
    create_notebook_at(new_notebook(Some("a"), "A", at(1)), String::new(), at(10), &mut store)
        .unwrap();
    create_notebook_at(new_notebook(Some("b"), "B", at(1)), String::new(), at(20), &mut store)
        .unwrap();
    assert_eq!(notebooks(Some(at(9)), &store).unwrap().len(), 2);
    let later = notebooks(Some(at(10)), &store).unwrap();
    assert_eq!(later.len(), 1);
    assert_eq!(later[0].id, "b");
    assert!(notebooks(Some(at(20)), &store).unwrap().is_empty());
    let one_tick_behind = notebooks(Some(Timestamp::new(19, 999_999_999)), &store).unwrap();
    assert_eq!(one_tick_behind.len(), 1);
}

#[test]
fn an_update_at_the_stored_revision_moves_one_nanosecond_on() {
    let mut store = Store::new();
    create_notebook_at(new_notebook(Some("a"), "A", at(1)), String::new(), at(10), &mut store)
        .unwrap();
    let update = NotebookUpdate { title: "B".to_string(), revision: None };
    let updated = update_notebook_at("a", update, at(10), &mut store).unwrap();
    assert_eq!(updated.revision, Timestamp::new(10, 1));
    assert_eq!(notebooks(Some(at(10)), &store).unwrap().len(), 1);
    let update = NotebookUpdate { title: "C".to_string(), revision: None };
    let updated = update_notebook_at("a", update, at(3), &mut store).unwrap();
    assert_eq!(updated.revision, Timestamp::new(10, 2));
    assert_eq!(Timestamp::new(5, 999_999_999).next(), at(6));
    assert_eq!(Timestamp::new(5, 1_500_000_000).next(), at(6));
    let last = Timestamp::new(i64::MAX, 999_999_999);
    assert_eq!(last.next(), last);
    assert_eq!(stamp_after(at(10), at(20)), at(20));
    assert_eq!(stamp_after(at(10), Timestamp::new(10, 1)), Timestamp::new(10, 1));
}

#[test]
fn nanoseconds_order_revisions_within_a_second() {
    let early = Timestamp::new(5, 1);
    let late = Timestamp::new(5, 2);
    assert!(late.is_after(&early));
    assert!(!early.is_after(&late));
    assert!(!early.is_after(&early));
    assert!(Timestamp::new(6, 0).is_after(&Timestamp::new(5, 1_999_999_999)));
    assert!(Timestamp::new(-1, 0).is_after(&Timestamp::new(-2, 5)));
    assert_eq!(early.latest(late), late);
    assert_eq!(late.latest(early), late);
}

#[test]
fn update_of_a_missing_notebook_is_not_found() {
    let mut store = Store::new();
    let update = NotebookUpdate { title: "x".to_string(), revision: None };
    assert_eq!(update_notebook("nope", update, &mut store).unwrap_err(), StoreError::NotFound);
    assert_eq!(delete_notebook("nope".to_string(), &mut store).unwrap_err(), StoreError::NotFound);
    assert!(deletions(None, &store).unwrap().is_empty());
}

#[test]
fn a_second_resource_with_the_same_id_is_refused() {
    let mut store = Store::new();
    create_notebook(new_notebook(Some("same"), "A", at(1)), &mut store).unwrap();
    let again = create_notebook(new_notebook(Some("same"), "B", at(1)), &mut store);
    assert_eq!(again.unwrap_err(), StoreError::StorageUnavailable);
    let found = notebooks(None, &store).unwrap();
    assert_eq!(found.len(), 1);
    assert_eq!(found[0].title, "A");
}

#[test]
fn the_revision_hint_of_an_update_is_not_enforced() {
    let mut store = Store::new();
    create_notebook_at(new_notebook(Some("a"), "A", at(1)), String::new(), at(10), &mut store)
        .unwrap();
    let stale = NotebookUpdate { title: "B".to_string(), revision: Some(at(3)) };
    let updated = update_notebook_at("a", stale, at(20), &mut store).unwrap();
    assert_eq!(updated.title, "B");
    assert_eq!(updated.revision, at(20));
}

#[test]
fn a_deletion_is_reported_for_every_earlier_revision_and_no_later_one() {
    let mut store = Store::new();
    create_notebook_at(new_notebook(Some("a"), "A", at(1)), String::new(), at(10), &mut store)
        .unwrap();
    delete_notebook_at("a".to_string(), at(30), &mut store).unwrap();
    assert!(notebooks(None, &store).unwrap().is_empty());
    assert_eq!(deletions(None, &store).unwrap().len(), 1);
    assert_eq!(deletions(Some(at(29)), &store).unwrap().len(), 1);
    assert!(deletions(Some(at(30)), &store).unwrap().is_empty());
    let record = &deletions(None, &store).unwrap()[0];
    assert_eq!(record.type_, "Notebook");
    assert_eq!(record.resource_id, "a");
    assert_eq!(record.system_updated_at, at(30));
}

#[test]
fn a_second_deletion_of_one_id_refreshes_its_record() {
    let mut store = Store::new();
    create_notebook_at(new_notebook(Some("a"), "A", at(1)), String::new(), at(10), &mut store)
        .unwrap();
    delete_notebook_at("a".to_string(), at(20), &mut store).unwrap();
    create_notebook_at(new_notebook(Some("a"), "A", at(1)), String::new(), at(30), &mut store)
        .unwrap();
    delete_notebook_at("a".to_string(), at(40), &mut store).unwrap();
    let records = deletions(None, &store).unwrap();
    assert_eq!(records.len(), 1);
    assert_eq!(records[0].system_updated_at, at(40));
    record_deletion("Note", "a".to_string(), at(50), &mut store);
    let records = deletions(None, &store).unwrap();
    assert_eq!(records.len(), 2);
    assert_eq!(records[1].type_, "Note");
    assert_eq!(records[1].system_updated_at, at(50));
}

#[test]
fn revision_is_the_latest_stamp_or_now_when_nothing_changed() {
    let nothing: Vec<Notebook> = Vec::new();
    let no_notes: Vec<Note> = Vec::new();
    assert_eq!(revision_at(&nothing, &no_notes, &[], &[], at(77)), at(77));
    let one = vec![Notebook {
        id: "a".to_string(),
        title: "A".to_string(),
        created_at: at(1),
        updated_at: at(1),
        revision: at(40),
    }];
    let deleted = vec![Deletion {
        type_: "Note".to_string(),
        resource_id: "n".to_string(),
        system_updated_at: at(60),
    }];
    assert_eq!(revision_at(&one, &no_notes, &[], &[], at(5)), at(40));
    assert_eq!(revision_at(&one, &no_notes, &[], &deleted, at(5)), at(60));
    assert_eq!(revision_at(&nothing, &no_notes, &[], &deleted, at(99)), at(60));
}

#[test]
fn an_empty_poll_advances_with_the_clock() {
    let mut store = Store::new();
    create_notebook_at(new_notebook(Some("a"), "A", at(1)), String::new(), at(10), &mut store)
        .unwrap();
    let first = get_data_at(None, at(11), &store).unwrap();
    assert_eq!(first.revision, at(10));
    let second = get_data_at(Some(first.revision), at(12), &store).unwrap();
    assert!(second.changes.notebooks.is_empty());
    assert_eq!(second.revision, at(12));
    let third = get_data_at(Some(second.revision), at(13), &store).unwrap();
    assert_eq!(third.revision, at(13));
}

#[test]
fn an_empty_poll_behind_the_clock_keeps_the_cursor() {
    let mut store = Store::new();
    create_notebook_at(new_notebook(Some("a"), "A", at(1)), String::new(), at(10), &mut store)
        .unwrap();
    let stale_clock = get_data_at(Some(at(50)), at(20), &store).unwrap();
    assert!(stale_clock.changes.notebooks.is_empty());
    assert_eq!(stale_clock.revision, at(50));
    let with_changes = get_data_at(Some(at(5)), at(1), &store).unwrap();
    assert_eq!(with_changes.revision, at(10));
    let bootstrap = get_data_at(None, at(3), &Store::new()).unwrap();
    assert_eq!(bootstrap.revision, at(3));
}

#[test]
fn a_failed_query_fails_the_whole_sync() {
    let failed = join_changes(
        Ok(Vec::new()),
        Err(StoreError::StorageUnavailable),
        Ok(Vec::new()),
        Ok(Vec::new()),
        at(1),
    );
    assert_eq!(failed.unwrap_err(), StoreError::AggregationFailure);
    let fine = join_changes(Ok(Vec::new()), Ok(Vec::new()), Ok(Vec::new()), Ok(Vec::new()), at(8));
    assert_eq!(fine.unwrap().revision, at(8));
}

#[test]
fn a_response_lists_deletions_as_id_and_type() {
    let deleted = vec![
        Deletion {
            type_: "Note".to_string(),
            resource_id: "n1".to_string(),
            system_updated_at: at(3),
        },
        Deletion {
            type_: "ContentBlock".to_string(),
            resource_id: "c1".to_string(),
            system_updated_at: at(2),
        },
    ];
    let response = build_response_at(Vec::new(), Vec::new(), Vec::new(), deleted, at(9));
    assert_eq!(response.revision, at(3));
    assert_eq!(response.deletions.len(), 2);
    assert_eq!(response.deletions[0].id, "n1");
    assert_eq!(response.deletions[0].type_, "Note");
    assert_eq!(response.deletions[1].id, "c1");
    assert_eq!(response.deletions[1].type_, "ContentBlock");
}

#[test]
fn a_hundred_creates_get_a_hundred_ids() {
    let mut executor = DbExecutor::new(Store::new());
    let mut ids: Vec<String> = Vec::new();
    for i in 0..100 {
        let msg = CreateNotebookMessage { new_notebook: new_notebook(None, "n", at(i)) };
        let created = executor.create_notebook(msg).unwrap();
        assert_eq!(created.id.chars().count(), 21);
        assert!(!ids.contains(&created.id));
        ids.push(created.id);
    }
    let all = executor.get_notebooks(GetNoteBooksMessage { since_revision: None }).unwrap();
    assert_eq!(all.len(), 100);
    for id in &ids {
        assert_eq!(all.iter().filter(|n| &n.id == id).count(), 1);
    }
}

#[test]
fn the_clock_stamps_what_it_creates() {
    let mut store = Store::new();
    let before = get_data(None, &store).unwrap().revision;
    let created = create_notebook(new_notebook(None, "A", at(1)), &mut store).unwrap();
    assert!(!before.is_after(&created.revision));
    assert!(created.revision.secs > 1_500_000_000);
    let all = get_data(None, &store).unwrap();
    assert_eq!(all.revision, created.revision);
}
