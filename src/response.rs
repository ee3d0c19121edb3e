use vstd::prelude::*;

verus! {

/// The envelope of every answer of the control interface: what happened,
/// and why it failed when it did.
#[derive(Clone, Debug, PartialEq, Eq)]
pub struct GenericResponse {
    pub message: &'static str,
    pub error: Option<String>,
}

impl GenericResponse {
    /// A failure, with its reason.
    pub fn err(message: &'static str, error: String) -> (r: Self)
        ensures
            r.message == message,
            r.error == Some(error),
    {
        GenericResponse { message, error: Some(error) }
    }

    /// A success.
    pub fn ok(message: &'static str) -> (r: Self)
        ensures
            r.message == message,
            r.error is None,
    {
        GenericResponse { message, error: None }
    }
}

} // verus!
