//! Checks of the Tor peer transport: the contact's onion endpoint it dials
//! and the identifiers it gives its wire frames.
use vstd::prelude::*;
use crate::memory_transport::PeerTransportError;
use crate::onion_endpoint::{is_base32_lower, onion_suffix};

verus! {

/// A v3 onion address: 56 lowercase base32 characters and `.onion`.
pub open spec fn is_v3_onion(value: Seq<char>) -> bool {
    &&& value.len() == 62
    &&& value.subrange(56, 62) == onion_suffix()
    &&& forall|i: int| 0 <= i < 56 ==> is_base32_lower(#[trigger] value[i])
}

/// Checks a contact's onion address.
pub fn validate_v3_onion(value: &str) -> (r: Result<(), PeerTransportError>)
    ensures
        match r {
            Ok(()) => is_v3_onion(value@),
            Err(e) => !is_v3_onion(value@) && e.0@ == "peer onion address is invalid"@,
        },
{
    let chars = crate::text::chars_of(value);
    if chars.len() != 62 {
        return Err(PeerTransportError("peer onion address is invalid".to_owned()));
    }
    let suffix = value.substring_char(56, 62);
    proof {
        reveal_strlit(".onion");
        assert(".onion"@ =~= onion_suffix());
    }
    if !crate::text::str_eq(suffix, ".onion") {
        return Err(PeerTransportError("peer onion address is invalid".to_owned()));
    }
    let mut i: usize = 0;
    while i < 56
        invariant
            chars@ == value@,
            chars@.len() == 62,
            value@.subrange(56, 62) == onion_suffix(),
            i <= 56,
            forall|k: int| 0 <= k < i ==> is_base32_lower(#[trigger] chars@[k]),
        decreases 56 - i,
    {
        let c = chars[i];
        if !(('a' <= c && c <= 'z') || ('2' <= c && c <= '7')) {
            assert(!is_base32_lower(value@[i as int]));
            return Err(PeerTransportError("peer onion address is invalid".to_owned()));
        }
        i = i + 1;
    }
    assert(value@.subrange(56, 62) == onion_suffix());
    Ok(())
}

/// Checks the endpoint a Tor peer transport dials: a v3 onion address and
/// a non-zero port.
pub fn validate_peer_endpoint(onion_address: &str, port: u16) -> (r: Result<(), PeerTransportError>)
    ensures
        match r {
            Ok(()) => is_v3_onion(onion_address@) && port != 0,
            Err(e) => if !is_v3_onion(onion_address@) {
                e.0@ == "peer onion address is invalid"@
            } else {
                port == 0 && e.0@ == "peer port is invalid"@
            },
        },
{
    validate_v3_onion(onion_address)?;
    if port == 0 {
        return Err(PeerTransportError("peer port is invalid".to_owned()));
    }
    Ok(())
}

/// The identifier of the next wire frame and the counter after it; the
/// counter never wraps.
pub fn next_wire_id(counter: u128) -> (r: Result<(u128, u128), PeerTransportError>)
    ensures
        match r {
            Ok((id, next)) => id == counter && next == counter + 1,
            Err(e) => counter == u128::MAX && e.0@ == "peer wire sequence exhausted"@,
        },
{
    match counter.checked_add(1) {
        Some(next) => Ok((counter, next)),
        None => Err(PeerTransportError("peer wire sequence exhausted".to_owned())),
    }
}

} // verus!
