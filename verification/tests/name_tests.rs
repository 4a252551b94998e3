use fast_version::protocol_name::PROTOCOL_NAME_MIN_LENGTH;
use fast_version::protocol_name::ProtocolName;
use fast_version::protocol_name::ProtocolNameError;

#[test]
fn short_alphanumeric_name_is_accepted() {
    let name = ProtocolName::new("abc12".to_string()).unwrap();
    assert_eq!(name.to_str(), "abc12");
    assert_eq!(name.to_string(), "abc12".to_string());
}

#[test]
fn length_check_admits_names_up_to_the_bound() {
    assert_eq!(PROTOCOL_NAME_MIN_LENGTH, 5);
    assert!(ProtocolName::validate_length(""));
    assert!(ProtocolName::validate_length("basic"));
    assert!(!ProtocolName::validate_length("basics"));
}

#[test]
fn name_over_the_length_bound_is_rejected_with_its_length() {
    let r = ProtocolName::new("toolong".to_string());
    assert_eq!(r.err().unwrap(), ProtocolNameError::NameToShort(7));
}

#[test]
fn invalid_characters_are_collected_in_order() {
    let r = ProtocolName::new("a-b!".to_string());
    assert_eq!(r.err().unwrap(), ProtocolNameError::InvalidCharacter("-!".to_string()));
}

#[test]
fn validate_characters_reports_every_offender() {
    assert_eq!(ProtocolName::validate_characters("abcDE9"), Ok(()));
    assert_eq!(ProtocolName::validate_characters("a b\tc"), Err(" \t".to_string()));
}

#[test]
fn characters_valid_is_true_iff_an_invalid_character_exists() {
    assert!(!ProtocolName::characters_valid("abcXYZ019"));
    assert!(!ProtocolName::characters_valid(""));
    assert!(ProtocolName::characters_valid("abc def"));
    assert!(ProtocolName::characters_valid("ü"));
}

#[test]
fn length_check_runs_before_the_character_check() {
    let r = ProtocolName::new("no spaces allowed".to_string());
    assert_eq!(r.err().unwrap(), ProtocolNameError::NameToShort(17));
}
