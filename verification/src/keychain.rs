//! The provider credential: where it is kept and when it is seeded. The
//! secure store itself is the caller's.

use vstd::prelude::*;

verus! {

/// The service under which the credential is kept in the secure store.
pub const SERVICE_NAME: &'static str = "voice-flow";

/// The account under which the credential is kept.
pub const ACCOUNT: &'static str = "groq_api_key";

/// The environment variable from which the credential is seeded.
pub const ENV_API_KEY: &'static str = "GROQ_API_KEY";

/// The credential to store at startup, if any: the environment's, where the
/// secure store holds none and the environment's is not empty.
pub fn seed_from_environment(stored: bool, environment: Option<String>) -> (seed: Option<String>)
    ensures
        seed == (match environment {
            Some(key) if !stored && key@.len() > 0 => Some(key),
            _ => None,
        }),
{
    if stored {
        return None;
    }
    match environment {
        Some(key) => {
            if key.as_str().is_empty() {
                None
            } else {
                Some(key)
            }
        },
        None => None,
    }
}

} // verus!
