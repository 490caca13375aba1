//! Identifiers by which a dispatcher tells this backend and this extension from
//! others, and the dispatcher over them.

use crate::backend::{begin, HkdfBackend};
use crate::error::Error;
use crate::operation::Step;
use crate::request::HkdfRequest;
use vstd::prelude::*;
use vstd::std_specs::convert::{FromSpecImpl, TryFromSpecImpl};

verus! {

/// Routes requests to [`HkdfBackend`].
#[derive(Clone, Copy, Debug, Default, PartialEq, Eq)]
pub struct Dispatcher;

/// The backends that a [`Dispatcher`] knows.
#[derive(Clone, Copy, Debug, PartialEq, Eq, Structural)]
pub enum BackendId {
    Hkdf,
}

/// The extensions that a [`Dispatcher`] knows, each with a number of one byte.
#[derive(Clone, Copy, Debug, PartialEq, Eq, Structural)]
pub enum ExtensionIds {
    Hkdf,
}

impl TryFrom<u8> for ExtensionIds {
    type Error = Error;

    fn try_from(v: u8) -> (id: Result<Self, Error>) {
        if v == 0 {
            Ok(ExtensionIds::Hkdf)
        } else {
            Err(Error::InternalError)
        }
    }
}

impl TryFromSpecImpl<u8> for ExtensionIds {
    open spec fn obeys_try_from_spec() -> bool {
        true
    }

    open spec fn try_from_spec(v: u8) -> Result<Self, Error> {
        if v == 0 {
            Ok(ExtensionIds::Hkdf)
        } else {
            Err(Error::InternalError)
        }
    }
}

impl From<ExtensionIds> for u8 {
    fn from(v: ExtensionIds) -> (number: u8) {
        match v {
            ExtensionIds::Hkdf => 0,
        }
    }
}

impl FromSpecImpl<ExtensionIds> for u8 {
    open spec fn obeys_from_spec() -> bool {
        true
    }

    open spec fn from_spec(v: ExtensionIds) -> u8 {
        match v {
            ExtensionIds::Hkdf => 0u8,
        }
    }
}

impl Dispatcher {
    /// Hands a request for `extension` to `backend`. There is one of each, so
    /// the request always goes to [`HkdfBackend`].
    pub fn extension_request(
        &mut self,
        backend: &BackendId,
        extension: &ExtensionIds,
        request: HkdfRequest,
    ) -> (step: Step)
        ensures
            step@ == begin(request@),
    {
        match backend {
            BackendId::Hkdf => match extension {
                ExtensionIds::Hkdf => {
                    let mut backend = HkdfBackend;
                    backend.extension_request(request)
                },
            },
        }
    }
}

} // verus!
