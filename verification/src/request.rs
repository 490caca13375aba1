//! What callers send and what they get back: two requests, two replies, and
//! the envelopes that carry either.

use crate::bytes::{medium_data_bytes, message_bytes, Message, MAX_MEDIUM_DATA_LENGTH};
use crate::error::Error;
use crate::key::{KeyId, Location};
use heapless_bytes::Bytes;
use vstd::prelude::*;
use vstd::std_specs::convert::{FromSpecImpl, TryFromSpecImpl};

verus! {

/// The handle of a pseudorandom key, as an extraction returns it. Nothing but
/// the caller's discipline sets it apart from any other handle, so an expansion
/// checks the key behind it again.
#[derive(Clone, Copy, Debug, PartialEq, Eq, Structural)]
pub struct OkmId(pub KeyId);

/// Key material named either by the handle of a stored key or given inline, in
/// at most `N` bytes.
pub enum KeyOrData<const N: usize> {
    Key(KeyId),
    Data(Bytes<N>),
}

/// The mathematical value of a [`KeyOrData`].
pub enum Reference {
    Key(KeyId),
    Data(Seq<u8>),
}

impl View for KeyOrData<MAX_MEDIUM_DATA_LENGTH> {
    type V = Reference;

    open spec fn view(&self) -> Reference {
        match *self {
            KeyOrData::Key(id) => Reference::Key(id),
            KeyOrData::Data(data) => Reference::Data(medium_data_bytes(data)),
        }
    }
}

/// The value of a salt that may be absent.
pub open spec fn salt_reference(
    salt: Option<KeyOrData<MAX_MEDIUM_DATA_LENGTH>>,
) -> Option<Reference> {
    match salt {
        Some(reference) => Some(reference@),
        None => None,
    }
}

/// Asks for HKDF-Extract of `ikm` under `salt`; the pseudorandom key is to be
/// stored at `storage`.
pub struct HkdfExtractRequest {
    pub ikm: KeyOrData<MAX_MEDIUM_DATA_LENGTH>,
    pub salt: Option<KeyOrData<MAX_MEDIUM_DATA_LENGTH>>,
    /// Location to store the pseudorandom key
    pub storage: Location,
}

/// The mathematical value of an [`HkdfExtractRequest`].
pub struct ExtractRequestView {
    pub ikm: Reference,
    pub salt: Option<Reference>,
    pub storage: Location,
}

impl View for HkdfExtractRequest {
    type V = ExtractRequestView;

    open spec fn view(&self) -> ExtractRequestView {
        ExtractRequestView {
            ikm: self.ikm@,
            salt: salt_reference(self.salt),
            storage: self.storage,
        }
    }
}

/// Answers an [`HkdfExtractRequest`] with the handle of the pseudorandom key.
#[derive(Clone, Copy, Debug, PartialEq, Eq, Structural)]
pub struct HkdfExtractReply {
    pub okm: OkmId,
}

/// Asks for `len` bytes of HKDF-Expand under the pseudorandom key `prk` and
/// `info`; the output is to be stored at `storage`.
pub struct HkdfExpandRequest {
    pub prk: OkmId,
    pub info: Message,
    pub len: usize,
    pub storage: Location,
}

/// The mathematical value of an [`HkdfExpandRequest`].
pub struct ExpandRequestView {
    pub prk: OkmId,
    pub info: Seq<u8>,
    pub len: usize,
    pub storage: Location,
}

impl View for HkdfExpandRequest {
    type V = ExpandRequestView;

    open spec fn view(&self) -> ExpandRequestView {
        ExpandRequestView {
            prk: self.prk,
            info: message_bytes(self.info),
            len: self.len,
            storage: self.storage,
        }
    }
}

/// Answers an [`HkdfExpandRequest`] with the handle of the derived key.
#[derive(Clone, Copy, Debug, PartialEq, Eq, Structural)]
pub struct HkdfExpandReply {
    pub key: KeyId,
}

/// Either request.
pub enum HkdfRequest {
    Extract(HkdfExtractRequest),
    Expand(HkdfExpandRequest),
}

/// The mathematical value of an [`HkdfRequest`].
pub enum RequestView {
    Extract(ExtractRequestView),
    Expand(ExpandRequestView),
}

impl View for HkdfRequest {
    type V = RequestView;

    open spec fn view(&self) -> RequestView {
        match *self {
            HkdfRequest::Extract(request) => RequestView::Extract(request@),
            HkdfRequest::Expand(request) => RequestView::Expand(request@),
        }
    }
}

/// Either reply.
#[derive(Clone, Copy, Debug, PartialEq, Eq, Structural)]
pub enum HkdfReply {
    Extract(HkdfExtractReply),
    Expand(HkdfExpandReply),
}

impl From<HkdfExpandRequest> for HkdfRequest {
    fn from(v: HkdfExpandRequest) -> (request: Self) {
        Self::Expand(v)
    }
}

impl FromSpecImpl<HkdfExpandRequest> for HkdfRequest {
    open spec fn obeys_from_spec() -> bool {
        true
    }

    open spec fn from_spec(v: HkdfExpandRequest) -> Self {
        Self::Expand(v)
    }
}

impl From<HkdfExtractRequest> for HkdfRequest {
    fn from(v: HkdfExtractRequest) -> (request: Self) {
        Self::Extract(v)
    }
}

impl FromSpecImpl<HkdfExtractRequest> for HkdfRequest {
    open spec fn obeys_from_spec() -> bool {
        true
    }

    open spec fn from_spec(v: HkdfExtractRequest) -> Self {
        Self::Extract(v)
    }
}

impl From<HkdfExpandReply> for HkdfReply {
    fn from(v: HkdfExpandReply) -> (reply: Self) {
        Self::Expand(v)
    }
}

impl FromSpecImpl<HkdfExpandReply> for HkdfReply {
    open spec fn obeys_from_spec() -> bool {
        true
    }

    open spec fn from_spec(v: HkdfExpandReply) -> Self {
        Self::Expand(v)
    }
}

impl From<HkdfExtractReply> for HkdfReply {
    fn from(v: HkdfExtractReply) -> (reply: Self) {
        Self::Extract(v)
    }
}

impl FromSpecImpl<HkdfExtractReply> for HkdfReply {
    open spec fn obeys_from_spec() -> bool {
        true
    }

    open spec fn from_spec(v: HkdfExtractReply) -> Self {
        Self::Extract(v)
    }
}

impl TryFrom<HkdfRequest> for HkdfExpandRequest {
    type Error = Error;

    fn try_from(v: HkdfRequest) -> (request: Result<Self, Error>) {
        match v {
            HkdfRequest::Expand(v) => Ok(v),
            _ => Err(Error::InternalError),
        }
    }
}

impl TryFromSpecImpl<HkdfRequest> for HkdfExpandRequest {
    open spec fn obeys_try_from_spec() -> bool {
        true
    }

    open spec fn try_from_spec(v: HkdfRequest) -> Result<Self, Error> {
        match v {
            HkdfRequest::Expand(v) => Ok(v),
            _ => Err(Error::InternalError),
        }
    }
}

impl TryFrom<HkdfRequest> for HkdfExtractRequest {
    type Error = Error;

    fn try_from(v: HkdfRequest) -> (request: Result<Self, Error>) {
        match v {
            HkdfRequest::Extract(v) => Ok(v),
            _ => Err(Error::InternalError),
        }
    }
}

impl TryFromSpecImpl<HkdfRequest> for HkdfExtractRequest {
    open spec fn obeys_try_from_spec() -> bool {
        true
    }

    open spec fn try_from_spec(v: HkdfRequest) -> Result<Self, Error> {
        match v {
            HkdfRequest::Extract(v) => Ok(v),
            _ => Err(Error::InternalError),
        }
    }
}

impl TryFrom<HkdfReply> for HkdfExpandReply {
    type Error = Error;

    fn try_from(v: HkdfReply) -> (reply: Result<Self, Error>) {
        match v {
            HkdfReply::Expand(v) => Ok(v),
            _ => Err(Error::InternalError),
        }
    }
}

impl TryFromSpecImpl<HkdfReply> for HkdfExpandReply {
    open spec fn obeys_try_from_spec() -> bool {
        true
    }

    open spec fn try_from_spec(v: HkdfReply) -> Result<Self, Error> {
        match v {
            HkdfReply::Expand(v) => Ok(v),
            _ => Err(Error::InternalError),
        }
    }
}

impl TryFrom<HkdfReply> for HkdfExtractReply {
    type Error = Error;

    fn try_from(v: HkdfReply) -> (reply: Result<Self, Error>) {
        match v {
            HkdfReply::Extract(v) => Ok(v),
            _ => Err(Error::InternalError),
        }
    }
}

impl TryFromSpecImpl<HkdfReply> for HkdfExtractReply {
    open spec fn obeys_try_from_spec() -> bool {
        true
    }

    open spec fn try_from_spec(v: HkdfReply) -> Result<Self, Error> {
        match v {
            HkdfReply::Extract(v) => Ok(v),
            _ => Err(Error::InternalError),
        }
    }
}

} // verus!
