use vstd::prelude::*;

use ed25519_dalek::{Signature, Verifier, VerifyingKey};

use crate::error::ErrorCode;
use crate::pubkey::Pubkey;

verus! {

/// Whether Ed25519 accepts `key` as a public key: `VerifyingKey::from_bytes`
/// of ed25519-dalek succeeds on it (the bytes decompress to a curve point).
pub uninterp spec fn ed25519_key_decodes(key: Seq<u8>) -> bool;

/// Whether `Verifier::verify` of ed25519-dalek, on the verifying key decoded
/// from `key`, accepts `signature` over `message`.
pub uninterp spec fn ed25519_signature_verifies(
    key: Seq<u8>,
    message: Seq<u8>,
    signature: Seq<u8>,
) -> bool;

/// Which step of an Ed25519 check refused its input.
#[derive(Clone, Copy, Debug, PartialEq, Eq, Structural)]
pub enum SignatureRejection {
    /// The public key bytes are not a valid curve point.
    MalformedKey,
    /// The signature does not verify under the key.
    BadSignature,
}

/// The outcome of an Ed25519 check, over the names of ed25519-dalek's results.
pub open spec fn ed25519_outcome(
    key: Seq<u8>,
    message: Seq<u8>,
    signature: Seq<u8>,
) -> Result<(), SignatureRejection> {
    if !ed25519_key_decodes(key) {
        Err(SignatureRejection::MalformedKey)
    } else if ed25519_signature_verifies(key, message, signature) {
        Ok(())
    } else {
        Err(SignatureRejection::BadSignature)
    }
}

/// Checks an Ed25519 signature with ed25519-dalek: `VerifyingKey::from_bytes`
/// on the key bytes, `Signature::from_bytes` on the signature bytes (which
/// cannot fail), then `Verifier::verify`. The contract claims only that the
/// key is refused exactly when `from_bytes` fails, and that otherwise the
/// result is what `verify` answers; both answers depend on the bytes alone.
#[verifier::external_body]
fn ed25519_check(
    public_key: &[u8; 32],
    message: &[u8],
    signature: &[u8; 64],
) -> (r: Result<(), SignatureRejection>)
    ensures
        (r is Err && r->Err_0 == SignatureRejection::MalformedKey) <==> !ed25519_key_decodes(
            public_key@,
        ),
        r is Ok <==> (ed25519_key_decodes(public_key@) && ed25519_signature_verifies(
            public_key@,
            message@,
            signature@,
        )),
{
    let key = match VerifyingKey::from_bytes(public_key) {
        Ok(key) => key,
        Err(_) => return Err(SignatureRejection::MalformedKey),
    };
    let sig = Signature::from_bytes(signature);
    match key.verify(message, &sig) {
        Ok(()) => Ok(()),
        Err(_) => Err(SignatureRejection::BadSignature),
    }
}

/// The error a refused location proof is answered with.
pub open spec fn rejection_error_of(rejection: SignatureRejection) -> ErrorCode {
    match rejection {
        SignatureRejection::MalformedKey => ErrorCode::InvalidPubkeyBytes,
        SignatureRejection::BadSignature => ErrorCode::InvalidLocationProof,
    }
}

/// Maps a refused Ed25519 check to the program's error.
pub fn rejection_error(rejection: SignatureRejection) -> (e: ErrorCode)
    ensures
        e == rejection_error_of(rejection),
{
    match rejection {
        SignatureRejection::MalformedKey => ErrorCode::InvalidPubkeyBytes,
        SignatureRejection::BadSignature => ErrorCode::InvalidLocationProof,
    }
}

/// What a location proof check answers for the backend admin key, the
/// message and the signature.
pub open spec fn location_proof_result(
    backend_admin: Pubkey,
    message: Seq<u8>,
    signature: Seq<u8>,
) -> Result<(), ErrorCode> {
    match ed25519_outcome(backend_admin@, message, signature) {
        Ok(()) => Ok(()),
        Err(rejection) => Err(rejection_error_of(rejection)),
    }
}

/// Checks that `signature` is the backend admin's Ed25519 signature of `message`.
pub fn verify_location_proof(
    backend_admin: &Pubkey,
    message: &[u8],
    signature: &[u8; 64],
) -> (r: Result<(), ErrorCode>)
    ensures
        r == location_proof_result(*backend_admin, message@, signature@),
{
    let key_bytes = backend_admin.to_bytes();
    match ed25519_check(&key_bytes, message, signature) {
        Ok(()) => Ok(()),
        Err(rejection) => Err(rejection_error(rejection)),
    }
}

/// The eight little-endian bytes of `x` in two's complement.
pub open spec fn le_bytes_i64(x: i64) -> Seq<u8> {
    Seq::new(8, |i: int| ((x as u64) >> ((8 * i) as u64)) as u8)
}

/// Appends the little-endian bytes of `x` to `out`.
pub fn push_le_bytes_i64(out: &mut Vec<u8>, x: i64)
    ensures
        final(out)@ == old(out)@ + le_bytes_i64(x),
{
    let u: u64 = x as u64;
    let mut k: u64 = 0;
    while k < 8
        invariant
            0 <= k <= 8,
            u == x as u64,
            out@.len() == old(out)@.len() + k,
            forall|j: int| 0 <= j < old(out)@.len() ==> out@[j] == old(out)@[j],
            forall|j: int|
                old(out)@.len() <= j < out@.len() ==> #[trigger] out@[j] == le_bytes_i64(x)[j
                    - old(out)@.len()],
        decreases 8 - k,
    {
        out.push((u >> (8 * k)) as u8);
        k = k + 1;
    }
    assert(out@ =~= old(out)@ + le_bytes_i64(x));
}

/// Appends an address's bytes to `out`.
pub fn push_key_bytes(out: &mut Vec<u8>, key: &Pubkey)
    ensures
        final(out)@ == old(out)@ + key@,
{
    let mut i: usize = 0;
    while i < 32
        invariant
            0 <= i <= 32,
            out@.len() == old(out)@.len() + i,
            forall|j: int| 0 <= j < old(out)@.len() ==> out@[j] == old(out)@[j],
            forall|j: int|
                old(out)@.len() <= j < out@.len() ==> #[trigger] out@[j] == key@[j - old(
                    out,
                )@.len()],
        decreases 32 - i,
    {
        out.push(key.bytes[i]);
        i = i + 1;
    }
    assert(out@ =~= old(out)@ + key@);
}

/// The message the backend signs to prove a visit: user, spot, timestamp,
/// latitude and longitude, in that order.
pub open spec fn location_message_of(
    user: Pubkey,
    spot: Pubkey,
    timestamp: i64,
    latitude: i64,
    longitude: i64,
) -> Seq<u8> {
    user@ + spot@ + le_bytes_i64(timestamp) + le_bytes_i64(latitude) + le_bytes_i64(longitude)
}

/// Builds the message the backend signs to prove a visit.
pub fn location_message(
    user: &Pubkey,
    spot: &Pubkey,
    timestamp: i64,
    latitude: i64,
    longitude: i64,
) -> (m: Vec<u8>)
    ensures
        m@ == location_message_of(*user, *spot, timestamp, latitude, longitude),
{
    let mut message: Vec<u8> = Vec::with_capacity(32 + 32 + 8 + 8 + 8);
    push_key_bytes(&mut message, user);
    push_key_bytes(&mut message, spot);
    push_le_bytes_i64(&mut message, timestamp);
    push_le_bytes_i64(&mut message, latitude);
    push_le_bytes_i64(&mut message, longitude);
    message
}

} // verus!
