//! Constructors for the web-search error taxonomy whose messages follow a
//! fixed textual form.

use vstd::prelude::*;

use crate::websearch::types::SearchError;

verus! {

/// The error for a feature the selected provider cannot honor.
pub fn unsupported(what: &str) -> (r: SearchError)
    ensures
        r matches SearchError::UnsupportedFeature(m) && m@ == "Unsupported: "@ + what@,
{
    let mut m = String::from_str("Unsupported: ");
    m.append(what);
    SearchError::UnsupportedFeature(m)
}

/// The backend error for a failed transport request: the caller's detail
/// text, a separator, and the transport error's own message.
pub fn from_transport_error(details: &str, message: &str) -> (r: SearchError)
    ensures
        r matches SearchError::BackendError(m) && m@ == details@ + ": "@ + message@,
{
    let mut m = details.to_owned();
    m.append(": ");
    m.append(message);
    SearchError::BackendError(m)
}

} // verus!
