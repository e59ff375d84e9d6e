//! A single-line text field: the concrete variant of the field contract.
//!
//! The field's name and maximum length are immutable.  Its mutable state —
//! the required flag and the value slot — is a [`ValueCell`] shared behind
//! a lock, so that every handle [`AbstractFields::wrap`] hands out observes
//! and mutates the same state, and so that concurrent validation and
//! concurrent take-and-clear of the stored value never race.
//!
//! Because that state is shared, a contract on one handle cannot pin which
//! cell state a call finds; each method therefore promises what holds of
//! every outcome, over the exact transitions of [`ValueCell`] and the
//! outcome functions of [`crate::pipeline`].

use std::sync::Arc;
use vstd::prelude::*;
use vstd::rwlock::RwLock;

use crate::fields::AbstractFields;
use crate::form_data::Files;
use crate::form_data::FormData;
use crate::pipeline::candidate_of;
use crate::pipeline::result_matches;
use crate::pipeline::validate_errors;
use crate::value_cell::ValueCell;

verus! {

/// The lock a field's shared mutable state sits behind.
type CellLock = RwLock<ValueCell, spec_fn(ValueCell) -> bool>;

/// A named text input with a maximum length, required by default.
pub struct InputField {
    field_name: String,
    max_length: usize,
    cell: Arc<CellLock>,
}

impl InputField {
    // The lock's predicate admits every cell state; knowing so is what
    // lets each method hand the cell back after its transition.
    #[verifier::type_invariant]
    spec fn wf(&self) -> bool {
        forall|cell: ValueCell| (*self.cell).inv(cell)
    }

    /// The field's maximum value length, in bytes.
    pub closed spec fn spec_max(&self) -> nat {
        self.max_length as nat
    }

    /// A fresh field: required, with an empty value slot.
    pub fn with(field_name: &str, max_length: usize) -> (r: InputField)
        ensures
            r.spec_name() == field_name@,
            r.spec_max() == max_length as nat,
    {
        let cell_lock = RwLock::<ValueCell, spec_fn(ValueCell) -> bool>::new(
            ValueCell::new(),
            Ghost(|cell: ValueCell| true),
        );
        proof {
            assert(forall|cell: ValueCell| cell_lock.inv(cell));
        }
        InputField { field_name: field_name.to_owned(), max_length, cell: Arc::new(cell_lock) }
    }

    /// Demotes the field to optional, fluently.  The change is made in the
    /// shared state, so every handle to this field observes it.
    pub fn set_optional(self) -> (r: InputField)
        ensures
            r == self,
    {
        proof {
            use_type_invariant(&self);
        }
        let (mut cell, handle) = self.cell.acquire_write();
        cell.make_optional();
        handle.release_write(cell);
        self
    }

    /// Destructively reads the stored value: returns what the shared slot
    /// held and clears it, so exactly one caller observes a given stored
    /// value.  Which value is current depends on the interleaving of the
    /// other handles' calls.
    pub fn value(&self) -> Option<String> {
        proof {
            use_type_invariant(self);
        }
        let (mut cell, handle) = self.cell.acquire_write();
        let taken = cell.take();
        handle.release_write(cell);
        taken
    }
}

impl AbstractFields for InputField {
    closed spec fn spec_name(&self) -> Seq<char> {
        self.field_name@
    }

    /// The field itself is unchanged, and the result is the pipeline's
    /// outcome for the extracted candidate under the required flag the
    /// call found in the shared state.
    open spec fn validate_ens(
        &self,
        updated: Self,
        submitted: Map<Seq<char>, Seq<Seq<char>>>,
        r: Result<(), Vec<String>>,
    ) -> bool {
        &&& updated == *self
        &&& exists|required: bool|
            result_matches(
                r,
                validate_errors(required, self.spec_max(), candidate_of(submitted, self.spec_name())),
            )
    }

    /// A wrapped handle is an equivalent field over the same shared state.
    open spec fn wrap_ens(&self, r: Self) -> bool {
        r == *self
    }

    fn field_name(&self) -> (r: String) {
        self.field_name.clone()
    }

    fn validate(&mut self, form_data: &mut FormData, files: &mut Files) -> (r: Result<
        (),
        Vec<String>,
    >) {
        proof {
            use_type_invariant(&*self);
        }
        let candidate: Option<String> = match form_data.remove(&self.field_name) {
            Some(mut values) => Some(values.remove(0)),
            None => None,
        };
        proof {
            assert(candidate.deep_view() == candidate_of(
                old(form_data)@,
                self.spec_name(),
            ));
        }
        let (mut cell, handle) = self.cell.acquire_write();
        let ghost required = cell.spec_required();
        let r = cell.run_validation(self.max_length, candidate);
        handle.release_write(cell);
        proof {
            assert(result_matches(
                r,
                validate_errors(required, self.spec_max(), candidate.deep_view()),
            ));
        }
        r
    }

    fn wrap(&self) -> (r: Self) {
        proof {
            use_type_invariant(self);
        }
        InputField {
            field_name: self.field_name.clone(),
            max_length: self.max_length,
            cell: self.cell.clone(),
        }
    }
}

} // verus!
