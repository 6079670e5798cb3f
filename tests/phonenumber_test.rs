use chrono::Utc;
use scaffolding_core::catalog::Capability;
use scaffolding_core::entity::{Entity, ScaffoldingPhoneNumbers};
use scaffolding_core::records::PhoneNumber;

#[test]
fn test_phone_new() {
    let phone = PhoneNumber::new("home".to_string(), "8482493561".to_string(), "USA".to_string());
    let now = Utc::now().timestamp();

    // scaffolding attributes
    assert_eq!(phone.id.len(), "54324f57-9e6b-4142-b68d-1d4c86572d0a".len());
    assert_eq!(phone.created_dtm, now);
    assert_eq!(phone.modified_dtm, now);
}

#[test]
fn test_entity_phonenumbers() {
    let mut entity =
        Entity::with_capabilities("customer".to_string(), vec![Capability::PhoneNumbers]);

    assert_eq!(entity.phone_numbers.len(), 0);

    let phone1 = entity.insert_phone_number(
        "home".to_string(),
        "8482493561".to_string(),
        "USA".to_string(),
    );

    let phone2 = entity.insert_phone_number(
        "work".to_string(),
        "2223330000".to_string(),
        "USA".to_string(),
    );

    let _ = entity.insert_phone_number(
        "other".to_string(),
        "7776664444".to_string(),
        "USA".to_string(),
    );

    assert_eq!(phone1.len(), "54324f57-9e6b-4142-b68d-1d4c86572d0a".len());
    assert_eq!(entity.phone_numbers.len(), 3);

    entity.remove_phone_number(phone2);
    assert_eq!(entity.phone_numbers.len(), 2);

    let home = entity.search_phone_numbers_by_category("home".to_string());
    assert_eq!(home.len(), 1);
    assert_eq!(home[0].category, "home".to_string());
    assert_eq!(entity.get_phone_number(phone1).unwrap().number, "8482493561");
}
