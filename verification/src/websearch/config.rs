//! Resolution of provider configuration that was looked up from the
//! environment: every required key must have been found, and the first
//! missing key names the error.

use vstd::prelude::*;

use crate::websearch::types::SearchError;

verus! {

/// The error reported when a required configuration key is absent.
pub fn missing_config_error(key: &str) -> (r: SearchError)
    ensures
        r matches SearchError::BackendError(m) && m@ == "Missing config key: "@ + key@,
{
    let mut m = String::from_str("Missing config key: ");
    m.append(key);
    SearchError::BackendError(m)
}

/// The index of the first lookup that found nothing.
pub open spec fn first_missing(lookups: Seq<(String, Option<String>)>) -> int
    decreases lookups,
{
    if lookups.len() == 0 {
        0
    } else if lookups[0].1 is None {
        0
    } else {
        1 + first_missing(lookups.drop_first())
    }
}

proof fn lemma_first_missing(lookups: Seq<(String, Option<String>)>, i: int)
    requires
        0 <= i < lookups.len(),
        forall|j: int| 0 <= j < i ==> (#[trigger] lookups[j]).1 is Some,
        lookups[i].1 is None,
    ensures
        first_missing(lookups) == i,
    decreases lookups,
{
    if i > 0 {
        assert(forall|j: int|
            0 <= j < i - 1 ==> (#[trigger] lookups.drop_first()[j]) == lookups[j + 1]);
        lemma_first_missing(lookups.drop_first(), i - 1);
    }
}

/// Collect looked-up configuration values. Succeeds exactly when every key
/// was found, pairing each key with its value in order; otherwise the error
/// names the first key whose lookup found nothing.
pub fn with_config_key(lookups: Vec<(String, Option<String>)>) -> (r: Result<
    Vec<(String, String)>,
    SearchError,
>)
    ensures
        r is Ok <==> (forall|i: int| 0 <= i < lookups@.len() ==> (#[trigger] lookups@[i]).1
            is Some),
        r matches Ok(vals) ==> vals@.len() == lookups@.len() && (forall|i: int|
            0 <= i < vals@.len() ==> (#[trigger] vals@[i]).0 == lookups@[i].0 && lookups@[i].1
                == Some(vals@[i].1)),
        r matches Err(e) ==> (e matches SearchError::BackendError(m) && m@ == "Missing config key: "@
            + lookups@[first_missing(lookups@)].0@),
{
    let mut vals: Vec<(String, String)> = Vec::new();
    let mut i: usize = 0;
    while i < lookups.len()
        invariant
            i <= lookups@.len(),
            vals@.len() == i,
            forall|j: int| 0 <= j < i ==> (#[trigger] lookups@[j]).1 is Some,
            forall|j: int|
                0 <= j < i ==> (#[trigger] vals@[j]).0 == lookups@[j].0 && lookups@[j].1 == Some(
                    vals@[j].1,
                ),
        decreases lookups@.len() - i,
    {
        let (key, found) = &lookups[i];
        match found {
            Some(value) => {
                vals.push((key.clone(), value.clone()));
            },
            None => {
                proof {
                    lemma_first_missing(lookups@, i as int);
                }
                return Err(missing_config_error(key.as_str()));
            },
        }
        i += 1;
    }
    Ok(vals)
}

} // verus!
