//! The polymorphic contract every field variant offers.
//!
//! A field has an immutable name, extracts and validates its own value from
//! a submission, and can hand out further handles to itself.  What a
//! variant promises of a validation outcome beyond the shared obligations —
//! draining its entry and reporting a non-empty error list on failure — is
//! its own `validate_ens`, and likewise `wrap_ens` for its handles.

use vstd::prelude::*;

use crate::form_data::Files;
use crate::form_data::FormData;

verus! {

pub trait AbstractFields: Sized {
    /// The field's identity within a form.
    spec fn spec_name(&self) -> Seq<char>;

    /// What this variant promises of a validation call: how the field
    /// after the call (`updated`) and the result `r` relate to the data
    /// that was submitted.
    spec fn validate_ens(
        &self,
        updated: Self,
        submitted: Map<Seq<char>, Seq<Seq<char>>>,
        r: Result<(), Vec<String>>,
    ) -> bool;

    /// What this variant promises of a handle `wrap` returns.
    spec fn wrap_ens(&self, r: Self) -> bool;

    /// The field's name.  A pure read of immutable state.
    fn field_name(&self) -> (r: String)
        ensures
            r@ == self.spec_name(),
    ;

    /// One validation cycle: drains this field's entry from the submitted
    /// data, applies the variant's rules, and returns the collected error
    /// messages on failure.
    fn validate(&mut self, form_data: &mut FormData, files: &mut Files) -> (r: Result<
        (),
        Vec<String>,
    >)
        ensures
            final(form_data)@ == old(form_data)@.remove(old(self).spec_name()),
            !final(form_data)@.contains_key(old(self).spec_name()),
            r matches Err(errors) ==> errors@.len() > 0,
            old(self).validate_ens(*final(self), old(form_data)@, r),
    ;

    /// An independently owned handle to an equivalent field.  The handle
    /// shares the underlying state; it does not fork it.
    fn wrap(&self) -> (r: Self)
        ensures
            r.spec_name() == self.spec_name(),
            self.wrap_ens(r),
    ;
}

} // verus!
