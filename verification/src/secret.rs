//! Lookup of a configured secret with a fixed fallback.

use vstd::prelude::*;
use vstd::string::*;

verus! {

/// The text handed out when a secret is not configured.
pub open spec fn fallback_secret() -> Seq<char> {
    "default"@
}

/// The value of a secret given what the configuration provider found for its
/// name: the value found, or the fallback where nothing was found. It never
/// fails.
pub open spec fn secret_value(found: Option<Seq<char>>) -> Seq<char> {
    match found {
        Some(value) => value,
        None => fallback_secret(),
    }
}

/// Resolves a secret from the result of looking its name up.
pub fn read_secret(found: Option<String>) -> (value: String)
    ensures
        value@ == secret_value(found.deep_view()),
{
    match found {
        Some(value) => value,
        None => String::from_str("default"),
    }
}

} // verus!
