//! The naming rule of the environment-backed key store: the key for a
//! provider lives in the `{PROVIDER}_API_KEY` variable, provider name
//! uppercased. The store itself reads the environment at the process
//! boundary; the rule that names the variable is decided here.

use vstd::prelude::*;
use vstd::string::StringExecFns;

verus! {

/// The uppercased form of a string, as `str::to_uppercase` computes it.
pub uninterp spec fn upper_of(s: Seq<char>) -> Seq<char>;

/// Relies on `str::to_uppercase`: the Unicode uppercase of the string,
/// a function of its characters alone.
#[verifier::external_body]
fn to_uppercase_string(s: &str) -> (r: String)
    ensures
        r@ == upper_of(s@),
{
    s.to_uppercase()
}

/// The environment variable that holds a provider's API key: the provider
/// name uppercased, then `_API_KEY`.
pub fn key_env_var_name(provider: &str) -> (r: String)
    ensures
        r@ == upper_of(provider@) + "_API_KEY"@,
{
    let mut r = to_uppercase_string(provider);
    r.append("_API_KEY");
    r
}

} // verus!
