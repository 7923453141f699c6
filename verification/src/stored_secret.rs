//! Reading 32-byte secrets back from the platform's protected store: the
//! Iroh endpoint identity and the database key. A stored value of any other
//! length is refused, and the bytes read are wiped whatever the outcome.
use vstd::prelude::*;
use crate::iroh_config::IrohIdentityError;
use crate::onion_endpoint::NativeCompositionError;

verus! {

/// Every byte is zero.
pub open spec fn wiped(bytes: Seq<u8>) -> bool {
    forall|i: int| 0 <= i < bytes.len() ==> #[trigger] bytes[i] == 0
}

/// Overwrites every byte with zero.
pub fn wipe(bytes: &mut Vec<u8>)
    ensures
        final(bytes)@.len() == old(bytes)@.len(),
        wiped(final(bytes)@),
{
    let mut i: usize = 0;
    while i < bytes.len()
        invariant
            i <= bytes@.len(),
            bytes@.len() == old(bytes)@.len(),
            forall|k: int| 0 <= k < i ==> #[trigger] bytes@[k] == 0,
        decreases bytes@.len() - i,
    {
        bytes.set(i, 0);
        i = i + 1;
    }
}

/// The 32-byte secret in `stored`, if it has exactly that length; `stored`
/// is wiped either way.
pub fn take_secret(stored: &mut Vec<u8>) -> (r: Option<[u8; 32]>)
    ensures
        r is Some <==> old(stored)@.len() == 32,
        r matches Some(key) ==> key@ == old(stored)@,
        final(stored)@.len() == old(stored)@.len(),
        wiped(final(stored)@),
{
    if stored.len() != 32 {
        wipe(stored);
        return None;
    }
    let mut key: [u8; 32] = [0; 32];
    let mut i: usize = 0;
    while i < 32
        invariant
            i <= 32,
            stored@.len() == 32,
            stored@ == old(stored)@,
            forall|k: int| 0 <= k < i ==> #[trigger] key@[k] == stored@[k],
        decreases 32 - i,
    {
        key[i] = stored[i];
        i = i + 1;
    }
    assert(key@ =~= old(stored)@);
    wipe(stored);
    Some(key)
}

/// The stored Iroh endpoint identity: `InvalidStoredKey` unless it is 32
/// bytes. The stored bytes are wiped.
pub fn stored_endpoint_secret(stored: &mut Vec<u8>) -> (r: Result<[u8; 32], IrohIdentityError>)
    ensures
        match r {
            Ok(key) => old(stored)@.len() == 32 && key@ == old(stored)@,
            Err(e) => old(stored)@.len() != 32 && e == IrohIdentityError::InvalidStoredKey,
        },
        wiped(final(stored)@),
{
    match take_secret(stored) {
        Some(key) => Ok(key),
        None => Err(IrohIdentityError::InvalidStoredKey),
    }
}

/// The stored database key, refused unless it is 32 bytes. The stored
/// bytes are wiped.
pub fn stored_database_key(stored: &mut Vec<u8>) -> (r: Result<[u8; 32], NativeCompositionError>)
    ensures
        match r {
            Ok(key) => old(stored)@.len() == 32 && key@ == old(stored)@,
            Err(e) => old(stored)@.len() != 32 && e.message@ == "protected database key has an invalid length"@,
        },
        wiped(final(stored)@),
{
    match take_secret(stored) {
        Some(key) => Ok(key),
        None => Err(NativeCompositionError::new("protected database key has an invalid length")),
    }
}

/// What loading or creating the endpoint identity gives for what the store
/// held: the stored 32 bytes, or the `generated` secret to be persisted when
/// the store held none. The flag says whether the secret must be persisted.
pub open spec fn spec_load_or_create(stored: Option<Seq<u8>>, generated: Seq<u8>) -> Result<
    (Seq<u8>, bool),
    IrohIdentityError,
> {
    match stored {
        None => Ok((generated, true)),
        Some(bytes) => if bytes.len() == 32 {
            Ok((bytes, false))
        } else {
            Err(IrohIdentityError::InvalidStoredKey)
        },
    }
}

pub open spec fn secret_outcome_view(r: Result<([u8; 32], bool), IrohIdentityError>) -> Result<
    (Seq<u8>, bool),
    IrohIdentityError,
> {
    match r {
        Ok((key, persist)) => Ok((key@, persist)),
        Err(e) => Err(e),
    }
}

/// The endpoint identity from what the protected store held (`None` when
/// it held nothing), or the freshly `generated` secret, which must then be
/// persisted. Stored bytes are wiped once read.
pub fn load_or_create_endpoint_secret(stored: Option<Vec<u8>>, generated: [u8; 32]) -> (r: Result<
    ([u8; 32], bool),
    IrohIdentityError,
>)
    ensures
        secret_outcome_view(r) == spec_load_or_create(
            match stored {
                Some(b) => Some(b@),
                None => None,
            },
            generated@,
        ),
{
    match stored {
        None => Ok((generated, true)),
        Some(mut bytes) => match stored_endpoint_secret(&mut bytes) {
            Ok(key) => Ok((key, false)),
            Err(e) => Err(e),
        },
    }
}

/// Law: the endpoint identity is stable in the protected store. Creating it
/// into an empty store persists the generated secret, and loading what was
/// persisted gives back that same secret, whatever a second generation
/// would have produced, and persists nothing more.
pub proof fn endpoint_identity_is_stable(generated: Seq<u8>, regenerated: Seq<u8>)
    requires
        generated.len() == 32,
    ensures
        spec_load_or_create(None, generated) == Ok::<(Seq<u8>, bool), IrohIdentityError>((generated, true)),
        spec_load_or_create(Some(generated), regenerated) == Ok::<(Seq<u8>, bool), IrohIdentityError>(
            (generated, false),
        ),
{
}

} // verus!
