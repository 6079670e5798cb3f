use scaffolding_core::catalog::{
    augment, augment_fields, catalog_fields, inject, inject_initializers, parse_capabilities,
    Capability, ConfigError, Field, FieldDecl, FieldInit,
};

fn decl(name: &str, ty: &str) -> FieldDecl {
    FieldDecl { name: name.to_string(), ty: ty.to_string() }
}

fn init(field: &str, expr: &str) -> FieldInit {
    FieldInit { field: field.to_string(), expr: expr.to_string() }
}

fn names(v: &[&str]) -> Vec<String> {
    v.iter().map(|s| s.to_string()).collect()
}

#[test]
fn catalog_lists_lifecycle_then_capabilities() {
    let fields = catalog_fields(&vec![Capability::Tags, Capability::Addresses]);
    assert_eq!(
        fields,
        vec![
            Field::Id,
            Field::CreatedDtm,
            Field::ModifiedDtm,
            Field::InactiveDtm,
            Field::ExpiredDtm,
            Field::Activity,
            Field::Collection(Capability::Addresses),
            Field::Collection(Capability::Tags),
        ]
    );
    assert_eq!(catalog_fields(&vec![]).len(), 6);
}

#[test]
fn augment_adds_missing_fields_before_base() {
    let base = vec![decl("b", "bool"), decl("n", "i64")];
    let caps = names(&["tags", "notes"]);
    let fields = augment_fields(&base, &caps).unwrap();
    let got: Vec<(String, String)> = fields.iter().map(|d| (d.name.clone(), d.ty.clone())).collect();
    let want: Vec<(String, String)> = vec![
        ("id", "String"),
        ("created_dtm", "i64"),
        ("modified_dtm", "i64"),
        ("inactive_dtm", "i64"),
        ("expired_dtm", "i64"),
        ("activity", "Vec<ActivityItem>"),
        ("notes", "KeyedMap<Note>"),
        ("tags", "Vec<String>"),
        ("b", "bool"),
        ("n", "i64"),
    ]
    .into_iter()
    .map(|(a, b)| (a.to_string(), b.to_string()))
    .collect();
    assert_eq!(got, want);
}

#[test]
fn augment_leaves_declared_fields_alone() {
    let base = vec![decl("id", "u64"), decl("b", "bool")];
    let fields = augment(&base, &vec![]);
    assert_eq!(fields.len(), 7);
    assert_eq!(fields.iter().filter(|d| d.name == "id").count(), 1);
    assert_eq!(fields[6], decl("b", "bool"));
    assert_eq!(fields[5], decl("id", "u64"));
}

#[test]
fn augment_twice_is_augment_once() {
    let base = vec![decl("b", "bool")];
    let caps = vec![Capability::Metadata, Capability::PhoneNumbers];
    let once = augment(&base, &caps);
    let twice = augment(&once, &caps);
    assert_eq!(once, twice);
}

#[test]
fn unknown_capability_is_refused() {
    let caps = names(&["tags", "friends", "pets"]);
    assert_eq!(
        augment_fields(&vec![], &caps),
        Err(ConfigError::UnknownCapability("friends".to_string()))
    );
    assert_eq!(
        inject_initializers(&vec![], &caps),
        Err(ConfigError::UnknownCapability("friends".to_string()))
    );
    assert_eq!(
        parse_capabilities(&names(&["email_addresses", "phone_numbers"])),
        Ok(vec![Capability::EmailAddresses, Capability::PhoneNumbers])
    );
}

#[test]
fn explicit_initializer_wins() {
    let explicit = vec![init("id", "\"my unique id\".to_string()"), init("a", "arg")];
    let caps = names(&["addresses"]);
    let done = inject_initializers(&explicit, &caps).unwrap();
    assert_eq!(done.len(), 8);
    assert_eq!(done[0], init("id", "\"my unique id\".to_string()"));
    assert_eq!(done[1], init("a", "arg"));
    assert_eq!(done.iter().filter(|i| i.field == "id").count(), 1);
    assert!(done.contains(&init("created_dtm", "defaults::now()")));
    assert!(done.contains(&init("modified_dtm", "defaults::now()")));
    assert!(done.contains(&init("inactive_dtm", "defaults::add_days(defaults::now(), 90)")));
    assert!(done.contains(&init("expired_dtm", "defaults::add_years(defaults::now(), 3)")));
    assert!(done.contains(&init("activity", "Vec::new()")));
    assert!(done.contains(&init("addresses", "KeyedMap::new()")));
}

#[test]
fn every_capability_gets_its_default() {
    let all = vec![
        Capability::Addresses,
        Capability::EmailAddresses,
        Capability::Metadata,
        Capability::Notes,
        Capability::PhoneNumbers,
        Capability::Tags,
    ];
    let done = inject(&vec![], &all);
    assert_eq!(done.len(), 12);
    assert!(done.contains(&init("tags", "Vec::new()")));
    assert!(done.contains(&init("metadata", "KeyedMap::new()")));
    let full = inject(&done, &all);
    assert_eq!(full, done);
}
