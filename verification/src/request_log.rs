//! What is recorded of each request.

use vstd::prelude::*;
use crate::encoding::hex_lower;

verus! {

/// The path to record: the query string is dropped, so no secret it carries is
/// stored.
pub fn path_only(path: &str, query: Option<&str>) -> (r: String)
    ensures
        r@ == path@,
{
    let _ = query;
    String::from_str(path)
}

/// A fresh request id: 16 random bytes in lower-case hexadecimal.
pub fn request_id() -> (r: String)
    ensures
        r@.len() == 32,
        exists|b: Seq<u8>| b.len() == 16 && r@ == hex_lower(b),
{
    crate::crypto::random_hex16()
}

} // verus!
