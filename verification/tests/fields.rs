use flashcards::fields::Fields;

#[test]
fn a_new_name_goes_to_the_end() {
    let mut fields = Fields::new();
    assert_eq!(fields.len(), 0);
    fields.insert("Front".to_string(), "a".to_string());
    fields.insert("Back".to_string(), "b".to_string());
    assert_eq!(fields.len(), 2);
    assert_eq!(fields.entries[1], ("Back".to_string(), "b".to_string()));
}

#[test]
fn an_old_name_keeps_its_place_and_gets_the_new_value() {
    let mut fields = Fields::new();
    fields.insert("Front".to_string(), "a".to_string());
    fields.insert("Back".to_string(), "b".to_string());
    fields.insert("Front".to_string(), "c".to_string());
    assert_eq!(fields.len(), 2);
    assert_eq!(fields.get("Front"), Some("c".to_string()));
    assert_eq!(fields.get("Back"), Some("b".to_string()));
    assert_eq!(fields.entries[0], ("Front".to_string(), "c".to_string()));
}

#[test]
fn a_missing_name_has_no_value() {
    let mut fields = Fields::new();
    assert_eq!(fields.get("Front"), None);
    fields.insert("Front".to_string(), "a".to_string());
    assert_eq!(fields.get("front"), None);
    assert_eq!(fields.get(""), None);
}
