//! Turns a reference to key material into the material itself.

use crate::bytes::{
    medium_data_bytes, medium_data_from_slice, MediumData, MAX_MEDIUM_DATA_LENGTH,
};
use crate::error::Error;
use crate::key::{Key, KeyView, Secrecy};
use crate::keystore::{loaded_view, secret_load, LoadRequest};
use crate::request::{KeyOrData, Reference};
use vstd::prelude::*;

verus! {

/// What it takes to have the material behind a reference.
pub enum Resolution {
    /// Nothing more: here it is.
    Material(MediumData),
    /// The keystore has to load a key first.
    Load(LoadRequest),
}

/// The mathematical value of a [`Resolution`].
pub enum ResolutionView {
    Material(Seq<u8>),
    Load(LoadRequest),
}

impl View for Resolution {
    type V = ResolutionView;

    open spec fn view(&self) -> ResolutionView {
        match *self {
            Resolution::Material(data) => ResolutionView::Material(medium_data_bytes(data)),
            Resolution::Load(load) => ResolutionView::Load(load),
        }
    }
}

/// Inline data is the material as it stands; a handle asks for one load, as a
/// secret and without a filter on the kind.
pub open spec fn resolution(reference: Reference) -> ResolutionView {
    match reference {
        Reference::Data(bytes) => ResolutionView::Material(bytes),
        Reference::Key(id) => ResolutionView::Load(secret_load(id)),
    }
}

/// The material that a load yields for a derivation. A failed load fails with
/// the keystore's own error. A key that is neither symmetric nor a shared
/// secret is refused as `MechanismInvalid`, whatever its size. Material of more
/// than `MAX_MEDIUM_DATA_LENGTH` bytes is an `InternalError`. Any other key
/// gives its material unchanged.
pub open spec fn key_material(loaded: Result<KeyView, Error>) -> Result<Seq<u8>, Error> {
    match loaded {
        Err(error) => Err(error),
        Ok(key) => if !key.kind.derivable() {
            Err(Error::MechanismInvalid)
        } else if key.material.len() > MAX_MEDIUM_DATA_LENGTH {
            Err(Error::InternalError)
        } else {
            Ok(key.material)
        },
    }
}

/// The material behind `reference` when the keystore answers the load that a
/// handle needs with `answer`. Inline data never consults the keystore.
pub open spec fn resolved(
    reference: Reference,
    answer: Result<KeyView, Error>,
) -> Result<Seq<u8>, Error> {
    match reference {
        Reference::Data(bytes) => Ok(bytes),
        Reference::Key(_) => key_material(answer),
    }
}

/// Resolves a reference as far as that goes without the keystore.
pub fn get_mat(req: KeyOrData<MAX_MEDIUM_DATA_LENGTH>) -> (found: Resolution)
    ensures
        found@ == resolution(req@),
{
    match req {
        KeyOrData::Data(data) => Resolution::Material(data),
        KeyOrData::Key(id) => Resolution::Load(
            LoadRequest { secrecy: Secrecy::Secret, kind: None, id },
        ),
    }
}

/// Resolves a reference by handle once the keystore has answered the load.
pub fn key_mat(loaded: Result<Key, Error>) -> (material: Result<MediumData, Error>)
    ensures
        match key_material(loaded_view(loaded)) {
            Ok(bytes) => material is Ok && medium_data_bytes(material->Ok_0) == bytes,
            Err(error) => material == Err::<MediumData, Error>(error),
        },
{
    let key = match loaded {
        Ok(key) => key,
        Err(error) => {
            return Err(error);
        },
    };
    if !key.kind.is_derivable() {
        return Err(Error::MechanismInvalid);
    }
    match medium_data_from_slice(key.material.as_slice()) {
        Ok(data) => Ok(data),
        Err(_) => Err(Error::InternalError),
    }
}

} // verus!
