use form_fields::messages::decimal_string;
use form_fields::messages::length_message_string;
use form_fields::messages::required_message_string;
use form_fields::FormData;
use form_fields::InputField;
use form_fields::{AbstractFields, Files};

#[test]
fn decimal_rendering_is_exact() {
    assert_eq!(decimal_string(0), "0");
    assert_eq!(decimal_string(5), "5");
    assert_eq!(decimal_string(10), "10");
    assert_eq!(decimal_string(123), "123");
    assert_eq!(decimal_string(usize::MAX), usize::MAX.to_string());
}

#[test]
fn message_builders_match_the_reported_messages() {
    assert_eq!(required_message_string(), "This field is required.");
    assert_eq!(
        length_message_string(17),
        "Character length exceeds maximum size of 17"
    );
}

#[test]
fn length_message_carries_the_field_bound() {
    let mut field = InputField::with("name", 12);
    let mut form_data = FormData::new();
    form_data.add_value("name".to_string(), "a".repeat(13));
    let mut files = Files::new();

    let result = field.validate(&mut form_data, &mut files);
    assert_eq!(
        result,
        Err(vec!["Character length exceeds maximum size of 12".to_string()])
    );
}

#[test]
fn remove_returns_all_values_in_submission_order() {
    let mut form_data = FormData::new();
    form_data.add_value("name".to_string(), "one".to_string());
    form_data.add_value("name".to_string(), "two".to_string());
    form_data.add_value("name".to_string(), "three".to_string());

    let values = form_data.remove(&"name".to_string());
    assert_eq!(
        values,
        Some(vec!["one".to_string(), "two".to_string(), "three".to_string()])
    );
    assert_eq!(form_data.remove(&"name".to_string()), None);
}

#[test]
fn remove_of_an_absent_name_returns_none_and_keeps_the_rest() {
    let mut form_data = FormData::new();
    form_data.add_value("kept".to_string(), "v".to_string());

    assert_eq!(form_data.remove(&"missing".to_string()), None);
    assert_eq!(
        form_data.remove(&"kept".to_string()),
        Some(vec!["v".to_string()])
    );
}
