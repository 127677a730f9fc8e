//! The opt-out hook for serialization integrations.

use vstd::prelude::*;

use crate::{Redacted, Redactor};

verus! {

/// The per-field opt-out of redaction: hands a serializer the true wrapped
/// value instead of the redacted rendering.
///
/// Default serialization of a wrapper emits the string produced by
/// [`Redacted::render`]; a field that names this function instead is
/// serialized structurally from the value it returns.
pub fn no_redact<'a, T, R: Redactor<T>>(value: &'a Redacted<T, R>) -> (v: &'a T)
    ensures
        *v == value.spec_inner(),
{
    value.inner()
}

} // verus!
