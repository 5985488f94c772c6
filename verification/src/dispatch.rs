use vstd::prelude::*;

verus! {

/// Whether an HTTP status code counts as success for the event dispatcher:
/// any 2xx response. Everything else — like a transport failure — is a
/// dispatch error, swallowed on the automatic path and surfaced on the
/// manual one.
pub fn is_success_status(code: u16) -> (r: bool)
    ensures
        r == (200 <= code < 300),
{
    code >= 200 && code < 300
}

} // verus!
