use token_extension::address::Address;
use token_extension::authority::AccountSnapshot;
use token_extension::error::ErrorCode;
use token_extension::instructions::update_metadata_field;
use token_extension::metadata::{validate_metadata, Field, MetadataRecord};
use token_extension::steps::Step;

fn record() -> MetadataRecord {
    MetadataRecord::new("Name".to_string(), "SYM".to_string(), "https://x".to_string()).unwrap()
}

#[test]
fn empty_name_is_invalid() {
    let r = MetadataRecord::new(String::new(), "SYM".to_string(), "https://x".to_string());
    assert_eq!(r.unwrap_err(), ErrorCode::InvalidName);
    assert_eq!(validate_metadata(&"a".to_string(), &"b".to_string(), &"c".to_string()), Ok(()));
}

#[test]
fn symbol_update_leaves_other_fields() {
    let mut m = record();
    m.update_field(Field::Symbol, "NEW".to_string());
    assert_eq!(m.symbol, "NEW");
    assert_eq!(m.name, "Name");
    assert_eq!(m.uri, "https://x");
    assert!(m.additional.is_empty());
}

#[test]
fn key_update_replaces_or_appends() {
    let mut m = record();
    m.update_field(Field::Key("color".to_string()), "red".to_string());
    m.update_field(Field::Key("size".to_string()), "L".to_string());
    m.update_field(Field::Key("color".to_string()), "blue".to_string());
    assert_eq!(
        m.additional,
        vec![("color".to_string(), "blue".to_string()), ("size".to_string(), "L".to_string())]
    );
    assert_eq!(m.name, "Name");
}

#[test]
fn metadata_field_update_is_planned() {
    let mint = AccountSnapshot { key: Address::new([1; 32]), owner: Address::new([9; 32]), lamports: 1, data_len: 234 };
    let steps = update_metadata_field(&mint, &Address::new([9; 32]), &Address::new([3; 32]), Field::Uri, "u".to_string()).unwrap();
    assert!(matches!(&steps[0], Step::UpdateMetadataField { field: Field::Uri, .. }));
    let r = update_metadata_field(&mint, &Address::new([8; 32]), &Address::new([3; 32]), Field::Uri, "u".to_string());
    assert_eq!(r.unwrap_err(), ErrorCode::InvalidAccountOwner);
}
