//! The boundary to the keystore. The service never touches the keystore
//! itself: it says what is to be loaded or stored, and is told what came of it.

use crate::error::Error;
use crate::key::{Key, KeyId, KeyView, Kind, Location, Secrecy};
use crate::request::HkdfReply;
use vstd::prelude::*;

verus! {

/// Asks the keystore for the key behind `id`. With a `kind`, the keystore is to
/// refuse a key of any other kind.
#[derive(Clone, Copy, Debug, PartialEq, Eq)]
pub struct LoadRequest {
    pub secrecy: Secrecy,
    pub kind: Option<Kind>,
    pub id: KeyId,
}

/// The only form in which the service loads a key: as a secret, of whatever
/// kind. The service inspects the kind itself.
pub open spec fn secret_load(id: KeyId) -> LoadRequest {
    LoadRequest { secrecy: Secrecy::Secret, kind: None, id }
}

/// Asks the keystore to keep `material` as a new key and to mint a handle for
/// it.
#[derive(Debug, PartialEq, Eq)]
pub struct StoreRequest {
    pub location: Location,
    pub secrecy: Secrecy,
    pub kind: Kind,
    pub material: Vec<u8>,
}

/// The mathematical value of a [`StoreRequest`].
pub struct StoreRequestView {
    pub location: Location,
    pub secrecy: Secrecy,
    pub kind: Kind,
    pub material: Seq<u8>,
}

impl View for StoreRequest {
    type V = StoreRequestView;

    open spec fn view(&self) -> StoreRequestView {
        StoreRequestView {
            location: self.location,
            secrecy: self.secrecy,
            kind: self.kind,
            material: self.material@,
        }
    }
}

/// What is to happen next in the course of one call.
#[derive(Debug)]
pub enum Action {
    /// The keystore is to load a key; the outcome comes back as
    /// [`Event::Loaded`].
    Load(LoadRequest),
    /// The keystore is to store a key; the outcome comes back as
    /// [`Event::Stored`].
    Store(StoreRequest),
    /// The call is over, and this is its result.
    Reply(Result<HkdfReply, Error>),
}

/// The mathematical value of an [`Action`].
pub enum ActionView {
    Load(LoadRequest),
    Store(StoreRequestView),
    Reply(Result<HkdfReply, Error>),
}

impl View for Action {
    type V = ActionView;

    open spec fn view(&self) -> ActionView {
        match *self {
            Action::Load(load) => ActionView::Load(load),
            Action::Store(store) => ActionView::Store(store@),
            Action::Reply(reply) => ActionView::Reply(reply),
        }
    }
}

/// What the keystore made of the last [`Action`].
#[derive(Debug)]
pub enum Event {
    Loaded(Result<Key, Error>),
    Stored(Result<KeyId, Error>),
}

/// The mathematical value of an [`Event`].
pub enum EventView {
    Loaded(Result<KeyView, Error>),
    Stored(Result<KeyId, Error>),
}

/// The value of what a load came to.
pub open spec fn loaded_view(loaded: Result<Key, Error>) -> Result<KeyView, Error> {
    match loaded {
        Ok(key) => Ok(key@),
        Err(error) => Err(error),
    }
}

impl View for Event {
    type V = EventView;

    open spec fn view(&self) -> EventView {
        match *self {
            Event::Loaded(loaded) => EventView::Loaded(loaded_view(loaded)),
            Event::Stored(stored) => EventView::Stored(stored),
        }
    }
}

} // verus!
