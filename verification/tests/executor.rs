use pragma::data::{Content, NewContentBlock, NewNote, NewNotebook, NotebookUpdate};
use pragma::repo_actor::{
    Command, CreateContentBlockMessage, CreateNoteMessage, CreateNotebookMessage, DbExecutor,
    DeleteNotebookMessage, GetContentBlocksMessage, GetDeletionsMessage, GetNoteBooksMessage,
    GetNotesMessage, Reply, UpdateNotebookMessage,
};
use pragma::store::{Store, StoreError};
use pragma::timestamp::Timestamp;
use std::collections::VecDeque;

fn notebook(id: &str, title: &str) -> NewNotebook {
    NewNotebook {
        id: Some(id.to_string()),
        title: title.to_string(),
        created_at: Timestamp::new(1, 0),
        updated_at: Timestamp::new(1, 0),
    }
}

#[test]
fn a_queue_is_served_in_the_order_of_arrival() {
    let mut executor = DbExecutor::new(Store::new());
    let mut queue = VecDeque::new();
    queue.push_back(Command::GetNotebooks(GetNoteBooksMessage { since_revision: None }));
    queue.push_back(Command::CreateNotebook(CreateNotebookMessage {
        new_notebook: notebook("a", "A"),
    }));
    queue.push_back(Command::UpdateNotebook(UpdateNotebookMessage {
        id: "a".to_string(),
        update: NotebookUpdate { title: "A2".to_string(), revision: None },
    }));
    queue.push_back(Command::GetNotebooks(GetNoteBooksMessage { since_revision: None }));
    queue.push_back(Command::DeleteNotebook(DeleteNotebookMessage { id: "a".to_string() }));
    queue.push_back(Command::DeleteNotebook(DeleteNotebookMessage { id: "a".to_string() }));
    queue.push_back(Command::GetNotebooks(GetNoteBooksMessage { since_revision: None }));
    queue.push_back(Command::GetDeletions(GetDeletionsMessage { since_revision: None }));

    let replies = executor.run(&mut queue);
    assert!(queue.is_empty());
    assert_eq!(replies.len(), 8);
    assert!(matches!(&replies[0], Reply::Notebooks(Ok(found)) if found.is_empty()));
    assert!(matches!(&replies[1], Reply::Notebook(Ok(n)) if n.id == "a" && n.title == "A"));
    assert!(matches!(&replies[2], Reply::Notebook(Ok(n)) if n.id == "a" && n.title == "A2"));
    assert!(matches!(&replies[3], Reply::Notebooks(Ok(found)) if found.len() == 1 && found[0].title == "A2"));
    assert!(matches!(&replies[4], Reply::Done(Ok(()))));
    assert!(matches!(&replies[5], Reply::Done(Err(StoreError::NotFound))));
    assert!(matches!(&replies[6], Reply::Notebooks(Ok(found)) if found.is_empty()));
    assert!(matches!(&replies[7], Reply::Deletions(Ok(found)) if found.len() == 1 && found[0].resource_id == "a" && found[0].type_ == "Notebook"));
}

#[test]
fn an_update_never_takes_the_revision_back() {
    let mut executor = DbExecutor::new(Store::new());
    let created = match executor.handle(Command::CreateNotebook(CreateNotebookMessage {
        new_notebook: notebook("a", "A"),
    })) {
        Reply::Notebook(Ok(n)) => n,
        other => panic!("unexpected reply: {:?}", other),
    };
    let updated = match executor.handle(Command::UpdateNotebook(UpdateNotebookMessage {
        id: "a".to_string(),
        update: NotebookUpdate { title: "B".to_string(), revision: Some(created.revision) },
    })) {
        Reply::Notebook(Ok(n)) => n,
        other => panic!("unexpected reply: {:?}", other),
    };
    assert!(!created.revision.is_after(&updated.revision));
    assert_eq!(updated.created_at, created.created_at);
}

#[test]
fn each_kind_of_message_gets_its_kind_of_reply() {
    let mut executor = DbExecutor::new(Store::new());
    let note = NewNote {
        id: None,
        title: "n".to_string(),
        tags: vec!["x".to_string()],
        created_at: Timestamp::new(1, 0),
        updated_at: Timestamp::new(1, 0),
        notebook_id: "nb".to_string(),
    };
    let note_id = match executor.handle(Command::CreateNote(CreateNoteMessage { new_note: note })) {
        Reply::Note(Ok(n)) => n.id,
        other => panic!("unexpected reply: {:?}", other),
    };
    let block = NewContentBlock {
        id: None,
        content: Content::Code { language: "rust".to_string(), code: "fn f() {}".to_string() },
        created_at: Timestamp::new(1, 0),
        updated_at: Timestamp::new(1, 0),
        note_id: note_id.clone(),
    };
    let reply = executor
        .handle(Command::CreateContentBlock(CreateContentBlockMessage { new_content_block: block }));
    assert!(matches!(&reply, Reply::ContentBlock(Ok(c)) if c.note_id == note_id && c.id != note_id));
    let reply = executor.handle(Command::GetNotes(GetNotesMessage { since_revision: None }));
    assert!(matches!(&reply, Reply::Notes(Ok(found)) if found.len() == 1 && found[0].tags == vec!["x".to_string()]));
    let reply =
        executor.handle(Command::GetContentBlocks(GetContentBlocksMessage { since_revision: None }));
    assert!(matches!(&reply, Reply::ContentBlocks(Ok(found)) if found.len() == 1));
}
