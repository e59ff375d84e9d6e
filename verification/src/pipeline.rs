//! The validation pipeline's outcome, stated as functions of the submitted
//! data and the field's configuration.
//!
//! One validation cycle extracts the first raw value submitted under the
//! field's name, checks it against the field's rules, and either stores it
//! or leaves the previously stored value in place.  The functions here pin
//! that outcome down; the executable pipeline in [`crate::value_cell`] is
//! proved against them.

use vstd::prelude::*;
use vstd::string::StringSliceAdditionalSpecFns;
use vstd::utf8::encode_utf8;

use crate::messages::length_message;
use crate::messages::length_message_string;
use crate::messages::required_message;
use crate::messages::required_message_string;

verus! {

/// The length of a string value: the byte length of its UTF-8 encoding.
pub open spec fn byte_len(s: Seq<char>) -> nat {
    encode_utf8(s).len()
}

/// The candidate raw value a field extracts from the submitted data: the
/// first value submitted under its name, if any.
pub open spec fn candidate_of(
    submitted: Map<Seq<char>, Seq<Seq<char>>>,
    name: Seq<char>,
) -> Option<Seq<char>> {
    if submitted.contains_key(name) {
        Some(submitted[name][0])
    } else {
        None
    }
}

/// The errors one validation cycle reports.  An optional field reports
/// none; a required field reports the missing-value message when no value
/// was submitted, and the over-length message when the submitted value is
/// longer than `max_length` bytes.
pub open spec fn validate_errors(
    required: bool,
    max_length: nat,
    candidate: Option<Seq<char>>,
) -> Seq<Seq<char>> {
    if !required {
        Seq::empty()
    } else {
        match candidate {
            Some(value) => if byte_len(value) > max_length {
                seq![length_message(max_length)]
            } else {
                Seq::empty()
            },
            None => seq![required_message()],
        }
    }
}

/// What the value cell holds after one validation cycle.  A required field
/// stores a submitted candidate even when it is over-length; in every other
/// case the cell keeps what it held before.
pub open spec fn stored_after(
    required: bool,
    candidate: Option<Seq<char>>,
    previous: Option<Seq<char>>,
) -> Option<Seq<char>> {
    if required && candidate is Some {
        candidate
    } else {
        previous
    }
}

/// Ties a validation result to the errors the pipeline computes: success
/// exactly when there are none, and failure carries exactly them.
pub open spec fn result_matches(r: Result<(), Vec<String>>, errors: Seq<Seq<char>>) -> bool {
    match r {
        Ok(_) => errors.len() == 0,
        Err(reported) => reported.deep_view() == errors && errors.len() > 0,
    }
}

/// The decision of one validation cycle, from plain values to plain
/// values: the result to report, and the value to store, if any.
///
/// A required field stores a present candidate even when its length
/// violation is reported alongside; an optional field checks nothing and
/// stores nothing.
pub fn check_candidate(required: bool, max_length: usize, candidate: Option<String>) -> (r: (
    Result<(), Vec<String>>,
    Option<String>,
))
    ensures
        required && candidate is Some ==> r.1 == candidate,
        !(required && candidate is Some) ==> r.1 is None,
        result_matches(r.0, validate_errors(required, max_length as nat, candidate.deep_view())),
{
    let ghost expected = validate_errors(required, max_length as nat, candidate.deep_view());
    let mut errors: Vec<String> = Vec::new();
    let mut to_store: Option<String> = None;
    if required {
        match candidate {
            Some(value) => {
                if value.as_str().as_bytes().len() > max_length {
                    errors.push(length_message_string(max_length));
                }
                to_store = Some(value);
            },
            None => {
                errors.push(required_message_string());
            },
        }
    }
    if errors.len() > 0 {
        proof {
            assert(errors.deep_view() =~= expected);
        }
        return (Err(errors), to_store);
    }
    (Ok(()), to_store)
}

/// A required field with no submitted value reports exactly the
/// missing-required message, and the cell keeps what it held; a fresh cell
/// therefore still holds nothing.
pub proof fn lemma_required_missing(max_length: nat, previous: Option<Seq<char>>)
    ensures
        validate_errors(true, max_length, None) == seq![required_message()],
        stored_after(true, None, previous) == previous,
{
}

/// A required field with a submitted value within the length bound
/// validates cleanly, and exactly that value is stored.
pub proof fn lemma_within_bound_accepted(
    max_length: nat,
    value: Seq<char>,
    previous: Option<Seq<char>>,
)
    requires
        byte_len(value) <= max_length,
    ensures
        validate_errors(true, max_length, Some(value)) == Seq::<Seq<char>>::empty(),
        stored_after(true, Some(value), previous) == Some(value),
{
}

/// A required field with an over-length submitted value reports exactly
/// the length message, yet the value is still stored.
pub proof fn lemma_over_bound_reported(
    max_length: nat,
    value: Seq<char>,
    previous: Option<Seq<char>>,
)
    requires
        byte_len(value) > max_length,
    ensures
        validate_errors(true, max_length, Some(value)) == seq![length_message(max_length)],
        stored_after(true, Some(value), previous) == Some(value),
{
}

/// An optional field reports no errors and stores nothing, whether or not
/// a value was submitted.
pub proof fn lemma_optional_passes(
    max_length: nat,
    candidate: Option<Seq<char>>,
    previous: Option<Seq<char>>,
)
    ensures
        validate_errors(false, max_length, candidate) == Seq::<Seq<char>>::empty(),
        stored_after(false, candidate, previous) == previous,
{
}

} // verus!
