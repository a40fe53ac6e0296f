//! The temp staging area's naming scheme: scratch-file paths unique per
//! upload attempt, derived from fresh randomness rather than a counter, so
//! concurrent requests need no shared state.

use vstd::prelude::*;
use crate::paths::join;
use crate::paths::join_spec;

verus! {

/// `uuid::Uuid` carried opaquely through upload records as the identifier of
/// the target storage bucket.
#[verifier::external_type_specification]
#[verifier::external_body]
pub struct ExUuid(uuid::Uuid);

/// Relies on `uuid::Uuid::new_v4` and its `Display` impl: a fresh random
/// version-4 identifier, rendered in the hyphenated form, which is always 36
/// characters. The value is random, so nothing relates two calls.
#[verifier::external_body]
fn fresh_token() -> (r: String)
    ensures
        r@.len() == 36,
{
    uuid::Uuid::new_v4().to_string()
}

/// Returns a scratch-file path inside `scratch_dir`: the directory joined
/// with `upload_<token>.tmp`, where the token is 36 characters of fresh
/// randomness, making a collision between concurrent attempts negligible.
pub fn new_temp_path(scratch_dir: &str) -> (r: String)
    ensures
        exists|t: Seq<char>|
            t.len() == 36 && r@ == join_spec(scratch_dir@, "upload_"@ + t + ".tmp"@),
{
    let token = fresh_token();
    let name = "upload_".to_owned().concat(token.as_str()).concat(".tmp");
    join(scratch_dir, name.as_str())
}

} // verus!
