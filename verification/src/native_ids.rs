//! Identifiers the native boundary mints for new intents: sixteen random
//! bytes, never all zero, written as 32 lowercase hexadecimal digits.
use vstd::prelude::*;
use crate::contract::projection::spec_lower_hex;
use crate::native_json::hex_digit;
use crate::text::push_char;

verus! {

/// Every byte is zero.
pub open spec fn all_zero(bytes: Seq<u8>) -> bool {
    forall|i: int| 0 <= i < bytes.len() ==> #[trigger] bytes[i] == 0
}

/// The identifier for the random `bytes`: an all-zero draw, which would
/// read as no identifier, becomes ...01.
pub fn nonzero_id(bytes: [u8; 16]) -> (r: [u8; 16])
    ensures
        all_zero(bytes@) ==> r@ == bytes@.update(15, 1),
        !all_zero(bytes@) ==> r == bytes,
        !all_zero(r@),
{
    let mut i: usize = 0;
    while i < 16
        invariant
            i <= 16,
            forall|k: int| 0 <= k < i ==> #[trigger] bytes@[k] == 0,
        decreases 16 - i,
    {
        if bytes[i] != 0 {
            return bytes;
        }
        i = i + 1;
    }
    let mut r = bytes;
    r[15] = 1;
    assert(r@ =~= bytes@.update(15, 1));
    assert(r@[15] == 1);
    r
}

/// The bytes as lowercase hexadecimal, two digits per byte, high first.
pub fn id_hex(bytes: &[u8; 16]) -> (r: String)
    ensures
        r@ == spec_lower_hex(bytes@),
{
    let mut out = String::new();
    let mut i: usize = 0;
    while i < 16
        invariant
            i <= 16,
            out@ == spec_lower_hex(bytes@.subrange(0, i as int)),
        decreases 16 - i,
    {
        let b = bytes[i];
        proof {
            let s = bytes@.subrange(0, i as int + 1);
            assert(s.drop_last() =~= bytes@.subrange(0, i as int));
            assert(s.last() == b);
        }
        push_char(&mut out, hex_digit((b / 16) as u32));
        push_char(&mut out, hex_digit((b % 16) as u32));
        i = i + 1;
    }
    assert(bytes@.subrange(0, 16) =~= bytes@);
    out
}

/// A fresh identifier from sixteen random bytes, as hexadecimal.
pub fn secure_id_hex(random: [u8; 16]) -> (r: String)
    ensures
        all_zero(random@) ==> r@ == spec_lower_hex(random@.update(15, 1)),
        !all_zero(random@) ==> r@ == spec_lower_hex(random@),
{
    let id = nonzero_id(random);
    id_hex(&id)
}

} // verus!
