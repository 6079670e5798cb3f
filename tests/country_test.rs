use scaffolding_core::countries::{Countries, Country};

#[test]
fn country_test_test_countries() {
    let countries = Countries::new();

    assert_eq!(countries.list.len(), 240);
    assert_eq!(countries.list[0].name, "Afghanistan");
    assert_eq!(countries.list[0].phone_code, "93");
    assert_eq!(countries.list[0].iso_2_code, "AF");
    assert_eq!(countries.list[0].iso_3_code, "AFG");
}

#[test]
fn country_test_test_countries_get_iso_2() {
    let countries = Countries::new();

    match countries.get_country_by_iso_2_code("US".to_string()) {
        Some(country) => {
            assert_eq!(country.name, "United States");
            assert_eq!(country.phone_code, "1");
            assert_eq!(country.iso_2_code, "US");
            assert_eq!(country.iso_3_code, "USA");
        }
        None => assert!(false),
    }
}

#[test]
fn country_test_test_countries_get_iso_3() {
    let countries = Countries::new();

    match countries.get_country_by_iso_3_code("USA".to_string()) {
        Some(country) => {
            assert_eq!(country.name, "United States");
            assert_eq!(country.phone_code, "1");
            assert_eq!(country.iso_2_code, "US");
            assert_eq!(country.iso_3_code, "USA");
        }
        None => assert!(false),
    }
}

#[test]
fn country_test_test_countries_is_valid_true() {
    let countries = Countries::new();
    let country = Country::new(
        "United States".to_string(),
        "1".to_string(),
        "US".to_string(),
        "USA".to_string(),
    );

    assert_eq!(countries.is_valid(country), true);
}

#[test]
fn country_test_test_countries_is_valid_false() {
    let countries = Countries::new();
    let country = Country::new(
        "United States".to_string(),
        "1".to_string(),
        "US".to_string(),
        "ABC".to_string(),
    );

    assert_eq!(countries.is_valid(country), false);
}

#[test]
fn country_test_test_countries_get_phone() {
    let countries = Countries::new();

    match countries.get_country_by_phone_code("1".to_string()) {
        Some(country) => {
            assert_eq!(country.name, "United States");
            assert_eq!(country.phone_code, "1");
            assert_eq!(country.iso_2_code, "US");
            assert_eq!(country.iso_3_code, "USA");
        }
        None => assert!(false),
    }
}

#[test]
fn country_test_test_country_new() {
    let country = Country::new(
        "United States".to_string(),
        "1".to_string(),
        "US".to_string(),
        "USA".to_string(),
    );

    assert_eq!(country.name, "United States".to_string());
    assert_eq!(country.phone_code, "1".to_string());
    assert_eq!(country.iso_2_code, "US".to_string());
    assert_eq!(country.iso_3_code, "USA".to_string());
}

#[test]
fn entity_test_test_countries() {
    let countries = Countries::new();

    assert_eq!(countries.list.len(), 240);
    assert_eq!(countries.list[0].name, "Afghanistan");
    assert_eq!(countries.list[0].phone_code, "93");
    assert_eq!(countries.list[0].iso_2_code, "AF");
    assert_eq!(countries.list[0].iso_3_code, "AFG");
}

#[test]
fn entity_test_test_countries_get_iso_2() {
    let countries = Countries::new();

    match countries.get_country_by_iso_2_code("US".to_string()) {
        Some(country) => {
            assert_eq!(country.name, "United States");
            assert_eq!(country.phone_code, "1");
            assert_eq!(country.iso_2_code, "US");
            assert_eq!(country.iso_3_code, "USA");
        }
        None => assert!(false),
    }
}

#[test]
fn entity_test_test_countries_get_iso_3() {
    let countries = Countries::new();

    match countries.get_country_by_iso_3_code("USA".to_string()) {
        Some(country) => {
            assert_eq!(country.name, "United States");
            assert_eq!(country.phone_code, "1");
            assert_eq!(country.iso_2_code, "US");
            assert_eq!(country.iso_3_code, "USA");
        }
        None => assert!(false),
    }
}

#[test]
fn entity_test_test_countries_is_valid_true() {
    let countries = Countries::new();
    let country = Country::new(
        "United States".to_string(),
        "1".to_string(),
        "US".to_string(),
        "USA".to_string(),
    );

    assert_eq!(countries.is_valid(country), true);
}

#[test]
fn entity_test_test_countries_is_valid_false() {
    let countries = Countries::new();
    let country = Country::new(
        "United States".to_string(),
        "1".to_string(),
        "US".to_string(),
        "ABC".to_string(),
    );

    assert_eq!(countries.is_valid(country), false);
}

#[test]
fn entity_test_test_countries_get_phone() {
    let countries = Countries::new();

    match countries.get_country_by_phone_code("1".to_string()) {
        Some(country) => {
            assert_eq!(country.name, "United States");
            assert_eq!(country.phone_code, "1");
            assert_eq!(country.iso_2_code, "US");
            assert_eq!(country.iso_3_code, "USA");
        }
        None => assert!(false),
    }
}

#[test]
fn entity_test_test_country_new() {
    let country = Country::new(
        "United States".to_string(),
        "1".to_string(),
        "US".to_string(),
        "USA".to_string(),
    );

    assert_eq!(country.name, "United States".to_string());
    assert_eq!(country.phone_code, "1".to_string());
    assert_eq!(country.iso_2_code, "US".to_string());
    assert_eq!(country.iso_3_code, "USA".to_string());
}

#[test]
fn phonenumber_test_test_countries_get_phone() {
    let countries = Countries::new();

    match countries.get_country_by_phone_code("1".to_string()) {
        Some(country) => {
            assert_eq!(country.name, "United States");
            assert_eq!(country.phone_code, "1");
            assert_eq!(country.iso_2_code, "US");
            assert_eq!(country.iso_3_code, "USA");
        }
        None => assert!(false),
    }
}

#[test]
fn unknown_codes_find_nothing() {
    let countries = Countries::new();
    assert!(countries.get_country_by_iso_2_code("XX".to_string()).is_none());
    assert!(countries.get_country_by_iso_3_code("XXX".to_string()).is_none());
    assert!(countries.get_country_by_phone_code("0".to_string()).is_none());
}

#[test]
fn lookup_returns_the_last_match() {
    let countries = Countries {
        list: vec![
            Country::new("First".to_string(), "9".to_string(), "AA".to_string(), "AAA".to_string()),
            Country::new("Second".to_string(), "9".to_string(), "BB".to_string(), "BBB".to_string()),
            Country::new("Third".to_string(), "8".to_string(), "CC".to_string(), "CCC".to_string()),
        ],
    };
    assert_eq!(countries.get_country_by_phone_code("9".to_string()).unwrap().name, "Second");
}

#[test]
fn is_valid_checks_every_field() {
    let countries = Countries::new();
    let wrong_name = Country::new(
        "United Kingdom".to_string(),
        "1".to_string(),
        "US".to_string(),
        "USA".to_string(),
    );
    assert!(!countries.is_valid(wrong_name));
    let afghanistan =
        Country::new("Afghanistan".to_string(), "93".to_string(), "AF".to_string(), "AFG".to_string());
    assert!(countries.is_valid(afghanistan));
}
