//! The single-slot holder for a field's accepted value, together with the
//! required flag that is kept under the same mutual exclusion.
//!
//! The struct here is the plain state; a field shares it between handles
//! behind a lock, and every transition a validation cycle may apply to it
//! is a method with an exact contract.

use vstd::prelude::*;

use crate::pipeline::check_candidate;
use crate::pipeline::result_matches;
use crate::pipeline::stored_after;
use crate::pipeline::validate_errors;

verus! {

/// A field's mutable state: whether a value is required, and the value
/// slot at most one accepted value sits in.
pub struct ValueCell {
    required: bool,
    value: Option<String>,
}

impl ValueCell {
    /// Whether absence of a submitted value is an error for this field.
    pub closed spec fn spec_required(&self) -> bool {
        self.required
    }

    /// The value the slot holds.
    pub closed spec fn spec_value(&self) -> Option<Seq<char>> {
        self.value.deep_view()
    }

    /// A fresh cell: required, with an empty slot.
    pub fn new() -> (r: ValueCell)
        ensures
            r.spec_required(),
            r.spec_value() is None,
    {
        ValueCell { required: true, value: None }
    }

    /// Demotes the field to optional.  The slot is untouched.
    pub fn make_optional(&mut self)
        ensures
            !final(self).spec_required(),
            final(self).spec_value() == old(self).spec_value(),
    {
        self.required = false;
    }

    /// Destructively reads the slot: returns what it held and clears it,
    /// so at most one caller observes a given stored value.
    pub fn take(&mut self) -> (r: Option<String>)
        ensures
            r.deep_view() == old(self).spec_value(),
            final(self).spec_value() is None,
            final(self).spec_required() == old(self).spec_required(),
    {
        let mut taken: Option<String> = None;
        std::mem::swap(&mut taken, &mut self.value);
        taken
    }

    /// One validation cycle over the extracted candidate value.
    ///
    /// An optional field checks nothing and stores nothing.  A required
    /// field stores a present candidate — even an over-length one, whose
    /// length violation is reported alongside — and reports the
    /// missing-value message when no candidate is present, leaving the
    /// slot untouched.
    pub fn run_validation(&mut self, max_length: usize, candidate: Option<String>) -> (r: Result<
        (),
        Vec<String>,
    >)
        ensures
            final(self).spec_required() == old(self).spec_required(),
            final(self).spec_value() == stored_after(
                old(self).spec_required(),
                candidate.deep_view(),
                old(self).spec_value(),
            ),
            result_matches(
                r,
                validate_errors(
                    old(self).spec_required(),
                    max_length as nat,
                    candidate.deep_view(),
                ),
            ),
    {
        let (r, to_store) = check_candidate(self.required, max_length, candidate);
        match to_store {
            Some(value) => {
                self.value = Some(value);
            },
            None => {},
        }
        r
    }
}

} // verus!
