use chrono::Utc;
use scaffolding_core::catalog::Capability;
use scaffolding_core::entity::{Entity, ScaffoldingAddresses};
use scaffolding_core::records::Address;

fn new_entity() -> Entity {
    Entity::with_capabilities("customer".to_string(), vec![Capability::Addresses])
}

fn check_address_new() {
    let address = Address::new(
        "shipping".to_string(),
        "acmes company".to_string(),
        "14 Main Street".to_string(),
        "Big City, NY 038845".to_string(),
        "USA".to_string(),
        "USA".to_string(),
    );
    let now = Utc::now().timestamp();

    // scaffolding attributes
    assert_eq!(address.id.len(), "54324f57-9e6b-4142-b68d-1d4c86572d0a".len());
    assert_eq!(address.created_dtm, now);
    assert_eq!(address.modified_dtm, now);
}

#[test]
fn address_test_test_address_new() {
    check_address_new();
}

#[test]
fn entity_test_test_address_new() {
    check_address_new();
}

#[test]
fn test_entity_addresses() {
    let mut entity = new_entity();

    assert_eq!(entity.addresses.len(), 0);

    let addr1 = entity.insert_address(
        "shipping".to_string(),
        "acmes company".to_string(),
        "14 Main Street".to_string(),
        "Big City, NY 038845".to_string(),
        "USA".to_string(),
        "USA".to_string(),
    );

    let addr2 = entity.insert_address(
        "billing".to_string(),
        "acmes company".to_string(),
        "14 Main Street".to_string(),
        "Big City, NY 038845".to_string(),
        "USA".to_string(),
        "USA".to_string(),
    );

    let _ = entity.insert_address(
        "home".to_string(),
        "Peter Petty".to_string(),
        "23 Corner Lane".to_string(),
        "Tiny Town, VT 044567".to_string(),
        "USA".to_string(),
        "USA".to_string(),
    );

    let _ = entity.insert_address(
        "shipping".to_string(),
        "neighbor house".to_string(),
        "24 Corner Lane".to_string(),
        "Tiny Town, VT 044567".to_string(),
        "USA".to_string(),
        "USA".to_string(),
    );

    assert_eq!(addr1.len(), "54324f57-9e6b-4142-b68d-1d4c86572d0a".len());
    assert_eq!(entity.addresses.len(), 4);

    assert_eq!(entity.get_address(addr1.clone()).unwrap().id, addr1);

    entity.remove_address(addr2);
    assert_eq!(entity.addresses.len(), 3);

    let shipping = entity.search_addresses_by_category("shipping".to_string());
    println!("{:?}", shipping);
    assert_eq!(shipping.len(), 2);
    assert_eq!(shipping[0].category, "shipping".to_string());
    assert_eq!(shipping[1].category, "shipping".to_string());
}

#[test]
fn address_search_follows_identifier_order() {
    let mut entity = new_entity();
    for category in ["shipping", "billing", "home", "shipping"] {
        let _ = entity.insert_address(
            category.to_string(),
            "line 1".to_string(),
            "line 2".to_string(),
            "line 3".to_string(),
            "line 4".to_string(),
            "USA".to_string(),
        );
    }
    let shipping = entity.search_addresses_by_category("shipping".to_string());
    assert_eq!(shipping.len(), 2);
    assert!(shipping.iter().all(|a| a.category == "shipping"));
    assert!(shipping[0].id < shipping[1].id);
    assert_eq!(entity.search_addresses_by_category("work".to_string()).len(), 0);
}

#[test]
fn modify_address_updates_in_place() {
    let mut entity = new_entity();
    let id = entity.insert_address(
        "shipping".to_string(),
        "acmes company".to_string(),
        "14 Main Street".to_string(),
        "Big City, NY 038845".to_string(),
        "USA".to_string(),
        "USA".to_string(),
    );
    let created = entity.get_address(id.clone()).unwrap().created_dtm;
    entity.modify_address(
        id.clone(),
        "billing".to_string(),
        "acmes company".to_string(),
        "15 Main Street".to_string(),
        "Big City, NY 038845".to_string(),
        "United States".to_string(),
        "USA".to_string(),
    );
    let address = entity.get_address(id.clone()).unwrap();
    assert_eq!(address.category, "billing");
    assert_eq!(address.line_2, "15 Main Street");
    assert_eq!(address.line_4, "United States");
    assert_eq!(address.created_dtm, created);
    assert!(address.modified_dtm >= created);
    assert_eq!(entity.addresses.len(), 1);

    // an unknown identifier changes nothing
    entity.modify_address(
        "1234".to_string(),
        "home".to_string(),
        String::new(),
        String::new(),
        String::new(),
        String::new(),
        String::new(),
    );
    entity.remove_address("1234".to_string());
    assert_eq!(entity.addresses.len(), 1);
    assert_eq!(entity.get_address(id).unwrap().category, "billing");
}

#[test]
fn address_update_keeps_identity() {
    let mut address = Address::new(
        "shipping".to_string(),
        "acmes company".to_string(),
        "14 Main Street".to_string(),
        "Big City, NY 038845".to_string(),
        "USA".to_string(),
        "USA".to_string(),
    );
    let id = address.id.clone();
    address.update(
        "billing".to_string(),
        "acmes company".to_string(),
        "14 Main Street".to_string(),
        "Big City, NY 038845".to_string(),
        "USA".to_string(),
        "USA".to_string(),
    );
    assert_eq!(address.category, "billing".to_string());
    assert_eq!(address.id, id);
    assert!(address.modified_dtm >= address.created_dtm);
}
