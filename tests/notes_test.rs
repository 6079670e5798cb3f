use scaffolding_core::catalog::Capability;
use scaffolding_core::entity::{Entity, ScaffoldingNotes};
use scaffolding_core::records::Note;

fn new_entity() -> Entity {
    Entity::with_capabilities("customer".to_string(), vec![Capability::Notes])
}

#[test]
fn test_add_note() {
    let mut entity = new_entity();
    let _id = entity.insert_note("fsmith".to_string(), "This was updated".as_bytes().to_vec(), None);
    let _ = entity.insert_note(
        "fsmith".to_string(),
        "Something to find here".as_bytes().to_vec(),
        None,
    );
    let _ = entity.insert_note(
        "fsmith".to_string(),
        "Nonething to find here".as_bytes().to_vec(),
        Some("private".to_string()),
    );

    assert_eq!(entity.notes.len(), 3);
}

#[test]
fn test_delete_note() {
    let mut entity = new_entity();
    let _ = entity.insert_note("fsmith".to_string(), "This was updated".as_bytes().to_vec(), None);
    let id = entity.insert_note(
        "fsmith".to_string(),
        "Something to find here".as_bytes().to_vec(),
        None,
    );
    let _ = entity.insert_note(
        "fsmith".to_string(),
        "Nonething to find here".as_bytes().to_vec(),
        Some("private".to_string()),
    );

    assert_eq!(entity.notes.len(), 3);

    entity.remove_note(id);

    assert_eq!(entity.notes.len(), 2);
}

#[test]
fn test_get_note_ok() {
    let mut entity = new_entity();
    let id = entity.insert_note("fsmith".to_string(), "This was updated".as_bytes().to_vec(), None);
    let _ = entity.insert_note(
        "fsmith".to_string(),
        "Something to find here".as_bytes().to_vec(),
        None,
    );
    let _ = entity.insert_note(
        "fsmith".to_string(),
        "Nonething to find here".as_bytes().to_vec(),
        Some("private".to_string()),
    );

    assert_eq!(
        entity.get_note(id).unwrap().content_as_string().unwrap(),
        "This was updated".to_string()
    );
}

#[test]
fn test_get_note_bad() {
    let entity = new_entity();

    match entity.get_note("1234".to_string()) {
        None => assert!(true),
        Some(_) => assert!(false),
    }
}

#[test]
fn test_search_notes() {
    let mut entity = new_entity();
    let _ = entity.insert_note("fsmith".to_string(), "This was updated".as_bytes().to_vec(), None);
    let _ = entity.insert_note(
        "fsmith".to_string(),
        "Something to find here".as_bytes().to_vec(),
        None,
    );
    let _ = entity.insert_note(
        "fsmith".to_string(),
        "Nonething to find here".as_bytes().to_vec(),
        Some("private".to_string()),
    );

    let search_results = entity.search_notes("thing".to_string());
    assert_eq!(search_results.len(), 2);
}

#[test]
fn test_special_characters() {
    let mut entity = new_entity();
    let msg = "Th帝s is a speciàl character messagæ.";
    let id = entity.insert_note("someone".to_string(), msg.as_bytes().to_vec(), None);

    assert_eq!(entity.get_note(id).unwrap().content_as_string().unwrap(), msg.to_string());
}

#[test]
fn test_update_note() {
    let mut entity = new_entity();
    let id = entity.insert_note("fsmith".to_string(), "This was updated".as_bytes().to_vec(), None);

    entity.modify_note(
        id.clone(),
        "fsmith".to_string(),
        "This was updated again".as_bytes().to_vec(),
        Some("private".to_string()),
    );

    assert_eq!(entity.get_note(id.clone()).unwrap().access, "private".to_string());
    assert_eq!(
        entity.get_note(id.clone()).unwrap().content_as_string().unwrap(),
        "This was updated again".to_string()
    );
}

#[test]
fn note_access_defaults_and_persists() {
    let mut entity = new_entity();
    let id = entity.insert_note("fsmith".to_string(), b"hello".to_vec(), None);
    assert_eq!(entity.get_note(id.clone()).unwrap().access, "public");
    entity.modify_note(id.clone(), "jdoe".to_string(), b"bye".to_vec(), Some("internal".to_string()));
    entity.modify_note(id.clone(), "jdoe".to_string(), b"bye again".to_vec(), None);
    let note = entity.get_note(id).unwrap();
    assert_eq!(note.access, "internal");
    assert_eq!(note.author, "jdoe");
    assert_eq!(note.content, b"bye again".to_vec());
}

#[test]
fn invalid_utf8_content_reads_lossily() {
    let note = Note::new("someone".to_string(), vec![b'a', 0xff, b'b'], None);
    match note.content_as_string() {
        Ok(_) => assert!(false),
        Err(text) => assert_eq!(text, "a\u{FFFD}b"),
    }
    assert_eq!(note.content_text(), "a\u{FFFD}b");
}

#[test]
fn search_reads_invalid_content_lossily() {
    let mut entity = new_entity();
    let _ = entity.insert_note("a".to_string(), vec![b't', b'h', 0xff, b'i', b'n', b'g'], None);
    let _ = entity.insert_note("b".to_string(), vec![0xfe, b't', b'h', b'i', b'n', b'g'], None);
    let found = entity.search_notes("thing".to_string());
    assert_eq!(found.len(), 1);
    assert_eq!(found[0].author, "b");
    assert_eq!(entity.search_notes("\u{FFFD}".to_string()).len(), 2);
    assert_eq!(entity.search_notes("nothing".to_string()).len(), 0);
}
