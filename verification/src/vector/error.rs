//! Classification of transport failures into the vector-store error
//! taxonomy. The flags describe what went wrong with the request; reading
//! them off the transport's error value happens at the edge outside the
//! library.

use vstd::prelude::*;

use crate::vector::types::VectorError;

verus! {

/// Classify a failed transport request: a request, timeout or redirect
/// problem means the connection could not be established; a decode problem
/// means the provider answered with something unreadable; anything else is
/// an unknown provider error. The message carries the transport's own text
/// behind a fixed explanation.
pub fn classify_transport_error(
    is_request: bool,
    is_timeout: bool,
    is_redirect: bool,
    is_decode: bool,
    message: &str,
) -> (r: VectorError)
    ensures
        (is_request || is_timeout || is_redirect) ==> (r matches VectorError::ConnectionError(m)
            && m@ == "The connection could not be established: "@ + message@),
        (!(is_request || is_timeout || is_redirect) && is_decode) ==> (r
            matches VectorError::ProviderError(m) && m@
            == "The provider returned an invalid response: "@ + message@),
        (!(is_request || is_timeout || is_redirect) && !is_decode) ==> (r
            matches VectorError::ProviderError(m) && m@ == "An unknown error occurred: "@
            + message@),
{
    if is_request || is_timeout || is_redirect {
        let mut m = String::from_str("The connection could not be established: ");
        m.append(message);
        return VectorError::ConnectionError(m);
    }
    if is_decode {
        let mut m = String::from_str("The provider returned an invalid response: ");
        m.append(message);
        return VectorError::ProviderError(m);
    }
    let mut m = String::from_str("An unknown error occurred: ");
    m.append(message);
    VectorError::ProviderError(m)
}

} // verus!
