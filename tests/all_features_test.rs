use scaffolding_core::catalog::Capability;
use scaffolding_core::defaults;
use scaffolding_core::entity::{
    Entity, Scaffolding, ScaffoldingAddresses, ScaffoldingEmailAddresses, ScaffoldingNotes,
    ScaffoldingPhoneNumbers, ScaffoldingTags,
};

struct MyEntity {
    core: Entity,
    b: bool,
    n: i64,
}

impl MyEntity {
    fn new(arg: bool) -> Self {
        let caps = vec![
            Capability::Addresses,
            Capability::EmailAddresses,
            Capability::Metadata,
            Capability::Notes,
            Capability::PhoneNumbers,
            Capability::Tags,
        ];
        MyEntity {
            core: Entity::with_capabilities("my entity".to_string(), caps),
            b: arg,
            n: defaults::never(),
        }
    }
}

fn get_entity() -> MyEntity {
    let mut entity = MyEntity::new(true);
    let core = &mut entity.core;

    // activity logs
    core.log_activity("updated".to_string(), "The object has been updated".to_string());
    core.log_activity("updated".to_string(), "The object has been updated".to_string());
    core.log_activity("cancelled".to_string(), "The object has been cancelled".to_string());

    // addresses
    let _ = core.insert_address(
        "shipping".to_string(),
        "acmes company".to_string(),
        "14 Main Street".to_string(),
        "Big City, NY 038845".to_string(),
        "USA".to_string(),
        "USA".to_string(),
    );
    let _ = core.insert_address(
        "billing".to_string(),
        "acmes company".to_string(),
        "14 Main Street".to_string(),
        "Big City, NY 038845".to_string(),
        "USA".to_string(),
        "USA".to_string(),
    );
    let _ = core.insert_address(
        "home".to_string(),
        "Peter Petty".to_string(),
        "23 Corner Lane".to_string(),
        "Tiny Town, VT 044567".to_string(),
        "USA".to_string(),
        "USA".to_string(),
    );
    let _ = core.insert_address(
        "shipping".to_string(),
        "neighbor house".to_string(),
        "24 Corner Lane".to_string(),
        "Tiny Town, VT 044567".to_string(),
        "USA".to_string(),
        "USA".to_string(),
    );

    // email addresses
    let _ = core.insert_email_address("home".to_string(), "myemail@example.com".to_string());
    let _ = core.insert_email_address("work".to_string(), "myemail@example.com".to_string());
    let _ = core.insert_email_address("other".to_string(), "myemail@example.com".to_string());

    // metadata
    core.metadata.insert("field_1".to_string(), "myvalue1".to_string());
    core.metadata.insert("field_2".to_string(), "myvalue2".to_string());

    // notes
    let _ = core.insert_note("fsmith".to_string(), "This was updated".as_bytes().to_vec(), None);
    let _ = core.insert_note(
        "fsmith".to_string(),
        "Something to find here".as_bytes().to_vec(),
        None,
    );
    let _ = core.insert_note(
        "fsmith".to_string(),
        "Nonething to find here".as_bytes().to_vec(),
        Some("private".to_string()),
    );

    // phone numbers
    let _ = core.insert_phone_number("home".to_string(), "8482493561".to_string(), "USA".to_string());
    let _ = core.insert_phone_number("work".to_string(), "2223330000".to_string(), "USA".to_string());
    let _ = core.insert_phone_number("other".to_string(), "7776664444".to_string(), "USA".to_string());

    // tags
    core.add_tag("tag_1".to_string());
    core.add_tag("tag_2".to_string());
    core.add_tag("tag_3".to_string());

    entity
}

#[test]
fn test_entity_all() {
    let entity = get_entity();
    assert!(entity.b);
    assert_eq!(entity.n, 253402261199);
    let entity = entity.core;

    // activity logs
    assert_eq!(entity.activity.len(), 3);
    assert_eq!(entity.get_activity("updated".to_string()).len(), 2);

    // addresses
    assert_eq!(entity.addresses.len(), 4);
    assert_eq!(entity.search_addresses_by_category("shipping".to_string()).len(), 2);

    // email addresses
    assert_eq!(entity.email_addresses.len(), 3);

    // metadata
    assert_eq!(entity.metadata.len(), 2);

    // notes
    assert_eq!(entity.notes.len(), 3);

    // phone numbers
    assert_eq!(entity.phone_numbers.len(), 3);

    // tags
    assert_eq!(entity.tags.len(), 3);
}
