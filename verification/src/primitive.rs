//! HKDF with SHA-256 (RFC 5869), as the `hkdf` and `sha2` crates compute it.
//! Nothing of the primitive is proved here: its two results are named, and the
//! calls are assumed to return what the names stand for.

use crate::bytes::{short_data_bytes, ShortData};
use hkdf::Hkdf;
use sha2::Sha256;
use vstd::prelude::*;

verus! {

/// Width in bytes of a SHA-256 digest, and so of a pseudorandom key.
pub const HASH_LENGTH: usize = 32;

/// The longest output that HKDF-Expand yields: 255 blocks of one digest each.
pub const MAX_EXPAND_LENGTH: usize = 8160;

/// The pseudorandom key that HKDF-Extract with SHA-256 yields from `salt` and
/// `ikm`: one digest. Without a salt the primitive keys its HMAC with a digest's
/// width of zero bytes.
pub uninterp spec fn hkdf_sha256_extract(salt: Option<Seq<u8>>, ikm: Seq<u8>) -> [u8; HASH_LENGTH];

/// The byte at `index` of the output keying material that HKDF-Expand with
/// SHA-256 yields from `prk` and `info`. The output of a given length is the
/// beginning of one stream of blocks, so a byte does not depend on how many
/// bytes are asked for after it.
pub uninterp spec fn hkdf_sha256_okm_byte(prk: Seq<u8>, info: Seq<u8>, index: nat) -> u8;

/// The first `len` bytes of output keying material that HKDF-Expand with
/// SHA-256 yields from `prk` and `info`.
pub open spec fn hkdf_sha256_expand(prk: Seq<u8>, info: Seq<u8>, len: nat) -> Seq<u8> {
    Seq::new(len, |index: int| hkdf_sha256_okm_byte(prk, info, index as nat))
}

/// The salt as the names above take it.
pub open spec fn salt_view(salt: Option<&[u8]>) -> Option<Seq<u8>> {
    match salt {
        Some(bytes) => Some(bytes@),
        None => None,
    }
}

/// `Hkdf::<Sha256>::extract`, keeping the pseudorandom key and dropping the
/// expansion context that comes with it. Assumed: the key is HKDF-Extract of
/// the arguments; that it is one digest wide is in its type.
#[verifier::external_body]
pub(crate) fn hkdf_extract(salt: Option<&[u8]>, ikm: &[u8]) -> (prk: [u8; HASH_LENGTH])
    ensures
        prk == hkdf_sha256_extract(salt_view(salt), ikm@),
{
    let (prk, _) = Hkdf::<Sha256>::extract(salt, ikm);
    prk.into()
}

/// `Hkdf::<Sha256>::from_prk`, asked only whether it takes the key. Assumed: it
/// takes any key of at least one digest's width and refuses every shorter one.
#[verifier::external_body]
pub(crate) fn prk_accepted(prk: &[u8]) -> (accepted: bool)
    ensures
        accepted == (prk@.len() >= HASH_LENGTH),
{
    Hkdf::<Sha256>::from_prk(prk).is_ok()
}

/// `Hkdf::<Sha256>::expand` on the context that `from_prk` makes of `prk`,
/// filling `okm` to the length it has. Assumed: the call succeeds exactly when
/// the key is accepted and `okm` is no longer than 255 digests; `okm` then
/// holds, byte for byte, the beginning of HKDF-Expand of `prk` and `info`, and
/// is untouched otherwise. Its length stays what it was either way.
#[verifier::external_body]
pub(crate) fn hkdf_expand(prk: &[u8], info: &[u8], okm: &mut ShortData) -> (done: Result<(), ()>)
    ensures
        done is Ok <==> prk@.len() >= HASH_LENGTH && short_data_bytes(*old(okm)).len()
            <= MAX_EXPAND_LENGTH,
        done is Ok ==> forall|index: int|
            0 <= index < short_data_bytes(*old(okm)).len() ==> #[trigger] short_data_bytes(
                *final(okm),
            )[index] == hkdf_sha256_okm_byte(prk@, info@, index as nat),
        done is Err ==> short_data_bytes(*final(okm)) == short_data_bytes(*old(okm)),
        short_data_bytes(*final(okm)).len() == short_data_bytes(*old(okm)).len(),
{
    match Hkdf::<Sha256>::from_prk(prk) {
        Ok(hkdf) => hkdf.expand(info, okm).map_err(|_| ()),
        Err(_) => Err(()),
    }
}

} // verus!
