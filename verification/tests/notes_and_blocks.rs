use pragma::api::get_data_at;
use pragma::codec::{
    clone_content, clone_tags, content_to_string, map_content, read_members, same_content,
    write_code_document, write_text_document,
};
use pragma::data::{
    Content, ContentBlock, ContentBlockUpdate, NewContentBlock, NewNote, Note, NoteUpdate, Notebook,
    TypeIdentifiable,
};
use pragma::repo::deletions;
use pragma::repo::{
    content_blocks, create_content_block_at, create_note_at, delete_contentblock_at,
    delete_note_at, notes, update_content_block_at, update_note_at,
};
use pragma::seed::{seed, seed_at, seed_data};
use pragma::store::{Store, StoreError};
use pragma::timestamp::Timestamp;

fn at(secs: i64) -> Timestamp {
    Timestamp::new(secs, 0)
}

fn strings(items: &[&str]) -> Vec<String> {
    items.iter().map(|s| s.to_string()).collect()
}

#[test]
fn a_text_content_is_stored_as_a_document() {
    let (document, kind) =
        content_to_string(Content::Text { text: "say \"hi\"\n".to_string() }).unwrap();
    assert_eq!(document, "{\"text\":\"say \\\"hi\\\"\\n\"}");
    assert_eq!(kind, "text");
}

#[test]
fn a_code_content_is_stored_as_a_document() {
    let content = Content::Code { language: "rust".to_string(), code: "fn main() {}".to_string() };
    let (document, kind) = content_to_string(content).unwrap();
    assert_eq!(document, "{\"language\":\"rust\",\"code\":\"fn main() {}\"}");
    assert_eq!(kind, "code");
}

#[test]
fn documents_are_put_together_from_literals() {
    assert_eq!(write_text_document("\"a\""), "{\"text\":\"a\"}");
    assert_eq!(write_code_document("\"js\"", "\"x\""), "{\"language\":\"js\",\"code\":\"x\"}");
}

#[test]
fn a_stored_document_is_read_back() {
    match map_content("{\"text\":\"say \\\"hi\\\"\"}").unwrap() {
        Content::Text { text } => assert_eq!(text, "say \"hi\""),
        other => panic!("not a text: {:?}", other),
    }
    match map_content("{\"language\":\"rust\",\"code\":\"fn main() {}\"}").unwrap() {
        Content::Code { language, code } => {
            assert_eq!(language, "rust");
            assert_eq!(code, "fn main() {}");
        },
        other => panic!("not code: {:?}", other),
    }
    match map_content("{\"language\":\"rust\",\"code\":\"x\",\"text\":\"t\"}").unwrap() {
        Content::Text { text } => assert_eq!(text, "t"),
        other => panic!("not a text: {:?}", other),
    }
}

#[test]
fn an_undecodable_document_is_a_validation_error() {
    assert_eq!(map_content("not json").unwrap_err(), StoreError::ValidationError);
    assert_eq!(map_content("{\"language\":\"rust\"}").unwrap_err(), StoreError::ValidationError);
    assert_eq!(map_content("{\"text\":5}").unwrap_err(), StoreError::ValidationError);
    assert_eq!(map_content("[\"text\"]").unwrap_err(), StoreError::ValidationError);
}

#[test]
fn members_pick_text_before_code() {
    let both = read_members(Some("t".to_string()), Some("l".to_string()), Some("c".to_string()));
    assert!(matches!(both, Some(Content::Text { ref text }) if text == "t"));
    let code = read_members(None, Some("l".to_string()), Some("c".to_string()));
    assert!(matches!(code, Some(Content::Code { ref language, ref code }) if language == "l" && code == "c"));
    assert!(read_members(None, Some("l".to_string()), None).is_none());
    assert!(read_members(None, None, Some("c".to_string())).is_none());
    assert!(read_members(None, None, None).is_none());
}

#[test]
fn note_is_created_updated_and_deleted() {
    let mut store = Store::new();
    let new_note = NewNote {
        id: None,
        title: "First".to_string(),
        tags: strings(&["a", "b"]),
        created_at: at(1),
        updated_at: at(2),
        notebook_id: "nb".to_string(),
    };
    let created = create_note_at(new_note, "note-1".to_string(), at(10), &mut store).unwrap();
    assert_eq!(created.id, "note-1");
    assert_eq!(created.tags, strings(&["a", "b"]));
    assert_eq!(created.notebook_id, "nb");
    assert_eq!(created.revision, at(10));
    let all = notes(None, &store).unwrap();
    assert_eq!(all.len(), 1);
    assert_eq!(all[0].revision, at(10));

    let update = NoteUpdate {
        title: "Second".to_string(),
        tags: strings(&["c"]),
        updated_at: at(15),
        revision: None,
    };
    let updated = update_note_at("note-1", update, at(20), &mut store).unwrap();
    assert_eq!(updated.title, "Second");
    assert_eq!(updated.tags, strings(&["c"]));
    assert_eq!(updated.created_at, at(1));
    assert_eq!(updated.updated_at, at(15));
    assert_eq!(updated.revision, at(20));
    assert_eq!(notes(Some(at(10)), &store).unwrap().len(), 1);
    assert!(notes(Some(at(20)), &store).unwrap().is_empty());

    let missing = NoteUpdate {
        title: "x".to_string(),
        tags: Vec::new(),
        updated_at: at(1),
        revision: None,
    };
    assert_eq!(update_note_at("other", missing, at(21), &mut store).unwrap_err(), StoreError::NotFound);
    assert_eq!(delete_note_at("other".to_string(), at(21), &mut store).unwrap_err(), StoreError::NotFound);

    delete_note_at("note-1".to_string(), at(30), &mut store).unwrap();
    assert!(notes(None, &store).unwrap().is_empty());
    let records = deletions(Some(at(29)), &store).unwrap();
    assert_eq!(records.len(), 1);
    assert_eq!(records[0].type_, "Note");
    assert_eq!(records[0].resource_id, "note-1");
}

#[test]
fn tags_come_back_as_given() {
    let mut store = Store::new();
    let new_note = NewNote {
        id: Some("n".to_string()),
        title: "t".to_string(),
        tags: Vec::new(),
        created_at: at(1),
        updated_at: at(1),
        notebook_id: "nb".to_string(),
    };
    let created = create_note_at(new_note, String::new(), at(10), &mut store).unwrap();
    assert_eq!(created.tags, Vec::<String>::new());
    assert_eq!(notes(None, &store).unwrap()[0].tags, Vec::<String>::new());

    let odd = strings(&["a,b", "", " c ", "\u{1F600}"]);
    let update = NoteUpdate {
        title: "t".to_string(),
        tags: odd.clone(),
        updated_at: at(11),
        revision: None,
    };
    let updated = update_note_at("n", update, at(20), &mut store).unwrap();
    assert_eq!(updated.tags, odd);
    assert_eq!(notes(None, &store).unwrap()[0].tags, odd);

    let cleared = NoteUpdate {
        title: "t".to_string(),
        tags: Vec::new(),
        updated_at: at(12),
        revision: None,
    };
    let updated = update_note_at("n", cleared, at(30), &mut store).unwrap();
    assert!(updated.tags.is_empty());
}

#[test]
fn an_update_behind_the_clock_still_moves_the_revision_forward() {
    let mut store = Store::new();
    let new_note = NewNote {
        id: Some("n".to_string()),
        title: "t".to_string(),
        tags: Vec::new(),
        created_at: at(1),
        updated_at: at(1),
        notebook_id: "nb".to_string(),
    };
    create_note_at(new_note, String::new(), at(100), &mut store).unwrap();
    let update = NoteUpdate {
        title: "u".to_string(),
        tags: Vec::new(),
        updated_at: at(2),
        revision: None,
    };
    let updated = update_note_at("n", update, at(50), &mut store).unwrap();
    assert_eq!(updated.revision, Timestamp::new(100, 1));
    assert_eq!(notes(Some(at(100)), &store).unwrap().len(), 1);
    assert!(notes(Some(updated.revision), &store).unwrap().is_empty());

    let block = NewContentBlock {
        id: Some("cb".to_string()),
        content: Content::Text { text: "x".to_string() },
        created_at: at(1),
        updated_at: at(1),
        note_id: "n".to_string(),
    };
    create_content_block_at(block, String::new(), Timestamp::new(7, 999_999_999), &mut store)
        .unwrap();
    let same_instant = ContentBlockUpdate {
        content: Content::Text { text: "y".to_string() },
        updated_at: at(2),
        revision: Some(at(1)),
    };
    let updated =
        update_content_block_at("cb", same_instant, Timestamp::new(7, 999_999_999), &mut store)
            .unwrap();
    assert_eq!(updated.revision, at(8));
    assert!(matches!(updated.content, Content::Text { ref text } if text == "y"));
}

#[test]
fn contents_and_tags_are_copied_and_compared() {
    let text = Content::Text { text: "a".to_string() };
    let code = Content::Code { language: "a".to_string(), code: "b".to_string() };
    assert!(same_content(&text, &clone_content(&text)));
    assert!(same_content(&code, &clone_content(&code)));
    assert!(!same_content(&text, &code));
    assert!(!same_content(&text, &Content::Text { text: "b".to_string() }));
    assert!(!same_content(&code, &Content::Code { language: "a".to_string(), code: "c".to_string() }));
    assert_eq!(clone_tags(&strings(&["x", "", "y,z"])), strings(&["x", "", "y,z"]));
}

#[test]
fn content_block_is_created_updated_and_deleted() {
    let mut store = Store::new();
    let block = NewContentBlock {
        id: Some("cb".to_string()),
        content: Content::Text { text: "<b>hi</b>".to_string() },
        created_at: at(1),
        updated_at: at(2),
        note_id: "note".to_string(),
    };
    let created = create_content_block_at(block, "unused".to_string(), at(10), &mut store).unwrap();
    assert_eq!(created.id, "cb");
    assert_eq!(created.note_id, "note");
    assert_eq!(created.revision, at(10));
    assert!(matches!(created.content, Content::Text { ref text } if text == "<b>hi</b>"));

    let update = ContentBlockUpdate {
        content: Content::Code { language: "js".to_string(), code: "alert(1)".to_string() },
        updated_at: at(15),
        revision: None,
    };
    let updated = update_content_block_at("cb", update, at(20), &mut store).unwrap();
    assert_eq!(updated.revision, at(20));
    assert_eq!(updated.created_at, at(1));
    assert_eq!(updated.updated_at, at(15));
    assert!(matches!(updated.content, Content::Code { ref language, ref code } if language == "js" && code == "alert(1)"));
    let changed = content_blocks(Some(at(10)), &store).unwrap();
    assert_eq!(changed.len(), 1);
    assert_eq!(changed[0].revision, at(20));
    assert!(content_blocks(Some(at(20)), &store).unwrap().is_empty());

    let missing = ContentBlockUpdate {
        content: Content::Text { text: "x".to_string() },
        updated_at: at(1),
        revision: None,
    };
    assert_eq!(
        update_content_block_at("other", missing, at(21), &mut store).unwrap_err(),
        StoreError::NotFound
    );
    assert_eq!(
        delete_contentblock_at("other".to_string(), at(21), &mut store).unwrap_err(),
        StoreError::NotFound
    );
    delete_contentblock_at("cb".to_string(), at(30), &mut store).unwrap();
    assert!(content_blocks(None, &store).unwrap().is_empty());
    let response = get_data_at(Some(at(20)), at(99), &store).unwrap();
    assert_eq!(response.deletions.len(), 1);
    assert_eq!(response.deletions[0].id, "cb");
    assert_eq!(response.deletions[0].type_, "ContentBlock");
    assert_eq!(response.revision, at(30));
}

#[test]
fn ids_are_unique_across_kinds() {
    let mut store = Store::new();
    let note = NewNote {
        id: Some("x".to_string()),
        title: "t".to_string(),
        tags: Vec::new(),
        created_at: at(1),
        updated_at: at(1),
        notebook_id: "nb".to_string(),
    };
    create_note_at(note, String::new(), at(10), &mut store).unwrap();
    let block = NewContentBlock {
        id: Some("x".to_string()),
        content: Content::Text { text: "t".to_string() },
        created_at: at(1),
        updated_at: at(1),
        note_id: "x".to_string(),
    };
    assert_eq!(
        create_content_block_at(block, String::new(), at(11), &mut store).unwrap_err(),
        StoreError::StorageUnavailable
    );
    assert!(content_blocks(None, &store).unwrap().is_empty());
}

#[test]
fn seeding_adds_a_notebook_a_note_and_a_block() {
    let mut store = Store::new();
    seed_at(
        "<h1>Welcome</h1>".to_string(),
        at(10),
        "nb".to_string(),
        "note".to_string(),
        "cb".to_string(),
        &mut store,
    )
    .unwrap();
    let all = get_data_at(None, at(99), &store).unwrap();
    assert_eq!(all.revision, at(10));
    assert_eq!(all.changes.notebooks.len(), 1);
    assert_eq!(all.changes.notebooks[0].title, "Example notebook");
    assert_eq!(all.changes.notes.len(), 1);
    assert_eq!(all.changes.notes[0].title, "Welcome to Pragma!");
    assert_eq!(all.changes.notes[0].notebook_id, "nb");
    assert_eq!(all.changes.content_blocks.len(), 1);
    assert_eq!(all.changes.content_blocks[0].note_id, "note");
    assert!(matches!(all.changes.content_blocks[0].content, Content::Text { ref text } if text == "<h1>Welcome</h1>"));

    let again = seed_at(
        "x".to_string(),
        at(11),
        "nb2".to_string(),
        "nb2".to_string(),
        "cb2".to_string(),
        &mut store,
    );
    assert_eq!(again.unwrap_err(), StoreError::StorageUnavailable);
    assert_eq!(get_data_at(None, at(99), &store).unwrap().changes.notebooks.len(), 2);

    let mut fresh = Store::new();
    seed("hello".to_string(), &mut fresh).unwrap();
    assert_eq!(get_data_at(None, at(99), &fresh).unwrap().changes.content_blocks.len(), 1);
}

#[test]
fn sample_data_is_one_notebook_one_note_two_blocks() {
    let (notebooks, notes, blocks) = seed_data(at(3));
    assert_eq!(notebooks.len(), 1);
    assert_eq!(notebooks[0].title, "Pascal");
    assert_eq!(notes.len(), 1);
    assert_eq!(notes[0].title, "Test note 1");
    assert!(notes[0].tags.is_empty());
    assert_eq!(blocks.len(), 2);
    assert_eq!(blocks[1].id, "2");
    assert_eq!(blocks[1].revision, at(3));
    assert!(matches!(blocks[1].content, Content::Code { ref language, .. } if language == "javascript"));
}

#[test]
fn resources_name_their_kind() {
    let (notebooks, notes, blocks) = seed_data(at(3));
    let notebook: &Notebook = &notebooks[0];
    let note: &Note = &notes[0];
    let block: &ContentBlock = &blocks[0];
    assert_eq!(notebook.type_label(), "Notebook");
    assert_eq!(note.type_label(), "Note");
    assert_eq!(block.type_label(), "ContentBlock");
}
