use ripasso_cursive::inputs::{get_value_from_input, new_entry_request, TextInputs};

fn dialog(fields: &[(&str, &str)]) -> TextInputs {
    let mut d = TextInputs::new();
    for (n, c) in fields.iter() {
        d.add(n, c);
    }
    d
}

#[test]
fn value_of_a_named_field() {
    let d = dialog(&[("new_path_input", "mail/work"), ("new_password_input", "hunter2")]);
    assert_eq!(get_value_from_input(&d, "new_path_input").unwrap().as_str(), "mail/work");
    assert_eq!(get_value_from_input(&d, "new_password_input").unwrap().as_str(), "hunter2");
}

#[test]
fn missing_field_has_no_value() {
    let d = dialog(&[("searchbox", "git")]);
    assert!(get_value_from_input(&d, "key_id_input").is_none());
    assert!(get_value_from_input(&TextInputs::new(), "searchbox").is_none());
}

#[test]
fn first_field_of_a_name_counts() {
    let d = dialog(&[("a", "first"), ("b", "other"), ("a", "second")]);
    assert_eq!(get_value_from_input(&d, "a").unwrap().as_str(), "first");
}

#[test]
fn empty_field_has_an_empty_value() {
    let d = dialog(&[("key_id_input", "")]);
    assert_eq!(get_value_from_input(&d, "key_id_input").unwrap().as_str(), "");
}

#[test]
fn new_entry_needs_both_fields_filled() {
    let full = dialog(&[("new_path_input", "mail/work"), ("new_password_input", "hunter2")]);
    let e = new_entry_request(&full).unwrap();
    assert_eq!(e.path, "mail/work");
    assert_eq!(e.password, "hunter2");

    assert!(new_entry_request(&dialog(&[("new_path_input", "mail/work"), ("new_password_input", "")])).is_none());
    assert!(new_entry_request(&dialog(&[("new_path_input", ""), ("new_password_input", "pw")])).is_none());
    assert!(new_entry_request(&dialog(&[("new_password_input", "pw")])).is_none());
    assert!(new_entry_request(&dialog(&[("new_path_input", "p")])).is_none());
    assert!(new_entry_request(&TextInputs::new()).is_none());
}
