//! Field-level validation for submitted form data.
//!
//! A form field extracts its raw value from a submission store, applies its
//! validation rules, stores the accepted value in a concurrency-safe value
//! cell, and reports human-readable error messages on failure.

pub mod fields;
pub mod form_data;
pub mod input_field;
pub mod messages;
pub mod pipeline;
pub mod value_cell;

pub use fields::AbstractFields;
pub use form_data::Files;
pub use form_data::FormData;
pub use input_field::InputField;
