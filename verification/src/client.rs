//! The requests that a client sends, put together from their parts.

use crate::bytes::{Message, MAX_MEDIUM_DATA_LENGTH};
use crate::key::Location;
use crate::request::{HkdfExpandRequest, HkdfExtractRequest, HkdfRequest, KeyOrData, OkmId};
use vstd::prelude::*;

verus! {

/// The request for HKDF-Extract of `ikm` under `salt`, with the pseudorandom
/// key to be stored at `storage`.
pub fn hkdf_extract(
    ikm: KeyOrData<MAX_MEDIUM_DATA_LENGTH>,
    salt: Option<KeyOrData<MAX_MEDIUM_DATA_LENGTH>>,
    storage: Location,
) -> (request: HkdfRequest)
    ensures
        request == HkdfRequest::Extract(HkdfExtractRequest { ikm, salt, storage }),
{
    HkdfRequest::Extract(HkdfExtractRequest { ikm, salt, storage })
}

/// The request for `len` bytes of HKDF-Expand under the pseudorandom key `prk`
/// and `info`, with the output to be stored at `storage`.
pub fn hkdf_expand(
    prk: OkmId,
    info: Message,
    len: usize,
    storage: Location,
) -> (request: HkdfRequest)
    ensures
        request == HkdfRequest::Expand(HkdfExpandRequest { prk, info, len, storage }),
{
    HkdfRequest::Expand(HkdfExpandRequest { prk, info, len, storage })
}

} // verus!
