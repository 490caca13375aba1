//! The two derivations proper: from resolved material to the key that the
//! keystore is asked to store.

use crate::bytes::{
    medium_data_as_slice, medium_data_bytes, message_as_slice, message_bytes, short_data_as_slice,
    short_data_new, short_data_resize_default, MediumData, Message, MAX_SHORT_DATA_LENGTH,
};
use crate::error::Error;
use crate::key::{Key, KeyView, Kind, Location, Secrecy};
use crate::keystore::{loaded_view, StoreRequest, StoreRequestView};
use crate::primitive::{
    hkdf_expand, hkdf_extract, hkdf_sha256_expand, hkdf_sha256_extract, prk_accepted, HASH_LENGTH,
};
use vstd::prelude::*;
use vstd::slice::slice_to_vec;

verus! {

/// The value of salt material that may be absent.
pub open spec fn salt_bytes(salt: Option<&MediumData>) -> Option<Seq<u8>> {
    match salt {
        Some(data) => Some(medium_data_bytes(*data)),
        None => None,
    }
}

/// What an extraction stores: HKDF-Extract of the input keying material under
/// the salt, as a secret symmetric key of one digest's width, where the caller
/// wants it. An absent salt goes to the primitive as absent.
pub open spec fn prk_store(
    ikm: Seq<u8>,
    salt: Option<Seq<u8>>,
    storage: Location,
) -> StoreRequestView {
    StoreRequestView {
        location: storage,
        secrecy: Secrecy::Secret,
        kind: Kind::Symmetric(HASH_LENGTH),
        material: hkdf_sha256_extract(salt, ikm)@,
    }
}

/// Whether a loaded key can serve as a pseudorandom key: symmetric, and of
/// exactly one digest's width by its kind.
pub open spec fn is_prk(kind: Kind) -> bool {
    kind == Kind::Symmetric(HASH_LENGTH)
}

/// What an expansion stores, or how it fails, given what loading the
/// pseudorandom key came to. In this order: a failed load fails with the
/// keystore's own error; a key that is not symmetric of one digest's width is
/// `ObjectHandleInvalid`; material that the primitive does not take as a
/// pseudorandom key is an `InternalError`; more than `MAX_SHORT_DATA_LENGTH`
/// bytes of output is `WrongMessageLength` (the primitive's own limit of 255
/// digests lies far above that). Otherwise `len` bytes of HKDF-Expand are
/// stored as a secret symmetric key of that length, where the caller wants it;
/// a length of zero is no exception and gives an empty key.
pub open spec fn okm_store(
    loaded: Result<KeyView, Error>,
    info: Seq<u8>,
    len: usize,
    storage: Location,
) -> Result<StoreRequestView, Error> {
    match loaded {
        Err(error) => Err(error),
        Ok(key) => if !is_prk(key.kind) {
            Err(Error::ObjectHandleInvalid)
        } else if key.material.len() < HASH_LENGTH {
            Err(Error::InternalError)
        } else if len > MAX_SHORT_DATA_LENGTH {
            Err(Error::WrongMessageLength)
        } else {
            Ok(
                StoreRequestView {
                    location: storage,
                    secrecy: Secrecy::Secret,
                    kind: Kind::Symmetric(len),
                    material: hkdf_sha256_expand(key.material, info, len as nat),
                },
            )
        },
    }
}

/// Computes the pseudorandom key and says how it is to be stored.
pub fn store_prk(
    ikm: &MediumData,
    salt: Option<&MediumData>,
    storage: Location,
) -> (store: StoreRequest)
    ensures
        store@ == prk_store(medium_data_bytes(*ikm), salt_bytes(salt), storage),
{
    let salt_ref = match salt {
        Some(data) => Some(medium_data_as_slice(data)),
        None => None,
    };
    let prk = hkdf_extract(salt_ref, medium_data_as_slice(ikm));
    let material = slice_to_vec(prk.as_slice());
    StoreRequest {
        location: storage,
        secrecy: Secrecy::Secret,
        kind: Kind::Symmetric(material.len()),
        material,
    }
}

/// Checks the loaded pseudorandom key, computes the output keying material and
/// says how it is to be stored.
pub fn store_okm(
    loaded: Result<Key, Error>,
    info: &Message,
    len: usize,
    storage: Location,
) -> (store: Result<StoreRequest, Error>)
    ensures
        match okm_store(loaded_view(loaded), message_bytes(*info), len, storage) {
            Ok(request) => store is Ok && store->Ok_0@ == request,
            Err(error) => store == Err::<StoreRequest, Error>(error),
        },
{
    let prk = match loaded {
        Ok(key) => key,
        Err(error) => {
            return Err(error);
        },
    };
    let of_hash_width = match prk.kind {
        Kind::Symmetric(length) => length == HASH_LENGTH,
        _ => false,
    };
    if !of_hash_width {
        return Err(Error::ObjectHandleInvalid);
    }
    if !prk_accepted(prk.material.as_slice()) {
        return Err(Error::InternalError);
    }
    let mut okm = short_data_new();
    if short_data_resize_default(&mut okm, len).is_err() {
        return Err(Error::WrongMessageLength);
    }
    if hkdf_expand(prk.material.as_slice(), message_as_slice(info), &mut okm).is_err() {
        return Err(Error::WrongMessageLength);
    }
    let material = slice_to_vec(short_data_as_slice(&okm));
    assert(material@ =~= hkdf_sha256_expand(prk.material@, message_bytes(*info), len as nat));
    Ok(
        StoreRequest {
            location: storage,
            secrecy: Secrecy::Secret,
            kind: Kind::Symmetric(material.len()),
            material,
        },
    )
}

} // verus!
