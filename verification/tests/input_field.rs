use form_fields::AbstractFields;
use form_fields::Files;
use form_fields::FormData;
use form_fields::InputField;

fn submission(pairs: &[(&str, &str)]) -> FormData {
    let mut form_data = FormData::new();
    for (name, value) in pairs {
        form_data.add_value(name.to_string(), value.to_string());
    }
    form_data
}

#[test]
fn required_field_with_no_value_reports_required_error() {
    let mut field = InputField::with("name", 5);
    let mut form_data = FormData::new();
    let mut files = Files::new();

    let result = field.validate(&mut form_data, &mut files);
    assert_eq!(result, Err(vec!["This field is required.".to_string()]));
    assert_eq!(field.value(), None);
}

#[test]
fn required_field_within_bound_validates_and_stores() {
    let mut field = InputField::with("name", 5);
    let mut form_data = submission(&[("name", "abc")]);
    let mut files = Files::new();

    let result = field.validate(&mut form_data, &mut files);
    assert_eq!(result, Ok(()));
    assert_eq!(field.value(), Some("abc".to_string()));
    assert_eq!(field.value(), None);
}

#[test]
fn required_field_over_bound_reports_error_yet_stores() {
    let mut field = InputField::with("name", 5);
    let mut form_data = submission(&[("name", "abcdef")]);
    let mut files = Files::new();

    let result = field.validate(&mut form_data, &mut files);
    assert_eq!(
        result,
        Err(vec!["Character length exceeds maximum size of 5".to_string()])
    );
    assert_eq!(field.value(), Some("abcdef".to_string()));
    assert_eq!(field.value(), None);
}

#[test]
fn optional_field_with_value_passes_and_stores_nothing() {
    let mut field = InputField::with("name", 5).set_optional();
    let mut form_data = submission(&[("name", "abcdefghij")]);
    let mut files = Files::new();

    let result = field.validate(&mut form_data, &mut files);
    assert_eq!(result, Ok(()));
    assert_eq!(field.value(), None);
}

#[test]
fn optional_field_with_no_value_passes() {
    let mut field = InputField::with("name", 5).set_optional();
    let mut form_data = FormData::new();
    let mut files = Files::new();

    let result = field.validate(&mut form_data, &mut files);
    assert_eq!(result, Ok(()));
    assert_eq!(field.value(), None);
}

#[test]
fn validate_drains_the_submission_entry() {
    let mut field = InputField::with("name", 5);
    let mut form_data = submission(&[("name", "abc"), ("other", "xyz")]);
    let mut files = Files::new();

    field.validate(&mut form_data, &mut files).unwrap();
    assert_eq!(form_data.remove(&"name".to_string()), None);
    assert_eq!(
        form_data.remove(&"other".to_string()),
        Some(vec!["xyz".to_string()])
    );
}

#[test]
fn optional_field_still_drains_the_entry() {
    let mut field = InputField::with("name", 5).set_optional();
    let mut form_data = submission(&[("name", "abc")]);
    let mut files = Files::new();

    field.validate(&mut form_data, &mut files).unwrap();
    assert_eq!(form_data.remove(&"name".to_string()), None);
}

#[test]
fn only_the_first_submitted_value_is_used() {
    let mut field = InputField::with("name", 5);
    let mut form_data = submission(&[("name", "one"), ("name", "two")]);
    let mut files = Files::new();

    let result = field.validate(&mut form_data, &mut files);
    assert_eq!(result, Ok(()));
    assert_eq!(field.value(), Some("one".to_string()));
    assert_eq!(form_data.remove(&"name".to_string()), None);
}

#[test]
fn empty_submitted_value_is_accepted_and_stored() {
    let mut field = InputField::with("name", 5);
    let mut form_data = submission(&[("name", "")]);
    let mut files = Files::new();

    let result = field.validate(&mut form_data, &mut files);
    assert_eq!(result, Ok(()));
    assert_eq!(field.value(), Some(String::new()));
}

#[test]
fn value_at_the_exact_bound_is_accepted() {
    let mut field = InputField::with("name", 5);
    let mut form_data = submission(&[("name", "abcde")]);
    let mut files = Files::new();

    let result = field.validate(&mut form_data, &mut files);
    assert_eq!(result, Ok(()));
    assert_eq!(field.value(), Some("abcde".to_string()));
}

#[test]
fn length_is_measured_in_bytes() {
    // one character, two bytes in UTF-8
    let value = "\u{e9}";

    let mut field = InputField::with("name", 1);
    let mut form_data = submission(&[("name", value)]);
    let mut files = Files::new();
    let result = field.validate(&mut form_data, &mut files);
    assert_eq!(
        result,
        Err(vec!["Character length exceeds maximum size of 1".to_string()])
    );
    assert_eq!(field.value(), Some(value.to_string()));

    let mut field = InputField::with("name", 2);
    let mut form_data = submission(&[("name", value)]);
    let result = field.validate(&mut form_data, &mut files);
    assert_eq!(result, Ok(()));
    assert_eq!(field.value(), Some(value.to_string()));
}

#[test]
fn failed_validation_leaves_earlier_stored_value_untouched() {
    let mut field = InputField::with("name", 5);
    let mut files = Files::new();

    let mut first = submission(&[("name", "abc")]);
    field.validate(&mut first, &mut files).unwrap();

    let mut second = FormData::new();
    let result = field.validate(&mut second, &mut files);
    assert_eq!(result, Err(vec!["This field is required.".to_string()]));
    assert_eq!(field.value(), Some("abc".to_string()));
}

#[test]
fn revalidation_replaces_the_stored_value() {
    let mut field = InputField::with("name", 5);
    let mut files = Files::new();

    let mut first = submission(&[("name", "abc")]);
    field.validate(&mut first, &mut files).unwrap();

    let mut second = submission(&[("name", "xyz")]);
    field.validate(&mut second, &mut files).unwrap();
    assert_eq!(field.value(), Some("xyz".to_string()));
    assert_eq!(field.value(), None);
}

#[test]
fn field_name_returns_the_identity() {
    let field = InputField::with("email", 100);
    assert_eq!(field.field_name(), "email".to_string());
    let handle = field.wrap();
    assert_eq!(handle.field_name(), "email".to_string());
}

#[test]
fn set_optional_on_wrapped_handle_changes_the_original() {
    let mut field = InputField::with("name", 5);
    let handle = field.wrap();
    let _handle = handle.set_optional();

    let mut form_data = FormData::new();
    let mut files = Files::new();
    let result = field.validate(&mut form_data, &mut files);
    assert_eq!(result, Ok(()));
}

#[test]
fn value_stored_via_one_handle_is_taken_once_via_another() {
    let mut field = InputField::with("name", 5);
    let handle = field.wrap();
    let mut form_data = submission(&[("name", "abc")]);
    let mut files = Files::new();

    field.validate(&mut form_data, &mut files).unwrap();
    assert_eq!(handle.value(), Some("abc".to_string()));
    assert_eq!(field.value(), None);
    assert_eq!(handle.value(), None);
}

#[test]
fn validation_through_a_wrapped_handle_stores_for_the_original() {
    let field = InputField::with("name", 5);
    let mut handle = field.wrap();
    let mut form_data = submission(&[("name", "abc")]);
    let mut files = Files::new();

    handle.validate(&mut form_data, &mut files).unwrap();
    assert_eq!(field.value(), Some("abc".to_string()));
}
