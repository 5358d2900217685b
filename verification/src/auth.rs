//! Bearer-token authorization of outgoing requests.

use vstd::prelude::*;

verus! {

/// The `authorization` header value for a token: `"Bearer <token>"`, or no
/// header at all when the token is empty.
pub fn bearer_header_value(token: &str) -> (r: Option<String>)
    ensures
        token@.len() == 0 ==> r is None,
        token@.len() > 0 ==> (r matches Some(v) && v@ == "Bearer "@ + token@),
{
    if token.is_empty() {
        None
    } else {
        let mut v = String::from_str("Bearer ");
        v.append(token);
        Some(v)
    }
}

} // verus!
