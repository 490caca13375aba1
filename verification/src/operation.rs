//! One call as a sequence of steps. Each step ends where the keystore has to
//! act or where the call is over; the next step takes what the keystore made of
//! it. Whoever owns the keystore drives the steps.

use crate::bytes::{medium_data_bytes, message_bytes, MediumData, Message, MAX_MEDIUM_DATA_LENGTH};
use crate::derivation::{okm_store, prk_store, store_okm, store_prk};
use crate::error::Error;
use crate::key::{KeyId, KeyView, Location, Secrecy};
use crate::keystore::{secret_load, Action, ActionView, Event, EventView, LoadRequest};
use crate::request::{
    salt_reference, ExpandRequestView, ExtractRequestView, HkdfExpandReply, HkdfExpandRequest,
    HkdfExtractReply, HkdfExtractRequest, HkdfReply, KeyOrData, OkmId, Reference,
};
use crate::resolver::{get_mat, key_mat, key_material, Resolution};
use vstd::prelude::*;

verus! {

/// Where a call stands while the keystore acts. An extraction that waits for
/// its salt holds the input keying material it has resolved: hand the operation
/// back to [`resume`], or drop it.
pub enum Operation {
    /// An extraction waits for the key that holds its input keying material.
    AwaitIkm { salt: Option<KeyOrData<MAX_MEDIUM_DATA_LENGTH>>, storage: Location },
    /// An extraction has its input keying material and waits for the key that
    /// holds its salt.
    AwaitSalt { ikm: MediumData, storage: Location },
    /// An extraction waits for the handle of the pseudorandom key it had stored.
    AwaitPrkStored,
    /// An expansion waits for its pseudorandom key.
    AwaitPrk { info: Message, len: usize, storage: Location },
    /// An expansion waits for the handle of the key it had stored.
    AwaitOkmStored,
    /// The call is over.
    Done,
}

/// The mathematical value of an [`Operation`].
pub enum OperationView {
    AwaitIkm { salt: Option<Reference>, storage: Location },
    AwaitSalt { ikm: Seq<u8>, storage: Location },
    AwaitPrkStored,
    AwaitPrk { info: Seq<u8>, len: usize, storage: Location },
    AwaitOkmStored,
    Done,
}

impl View for Operation {
    type V = OperationView;

    open spec fn view(&self) -> OperationView {
        match *self {
            Operation::AwaitIkm { salt, storage } => OperationView::AwaitIkm {
                salt: salt_reference(salt),
                storage,
            },
            Operation::AwaitSalt { ikm, storage } => OperationView::AwaitSalt {
                ikm: medium_data_bytes(ikm),
                storage,
            },
            Operation::AwaitPrkStored => OperationView::AwaitPrkStored,
            Operation::AwaitPrk { info, len, storage } => OperationView::AwaitPrk {
                info: message_bytes(info),
                len,
                storage,
            },
            Operation::AwaitOkmStored => OperationView::AwaitOkmStored,
            Operation::Done => OperationView::Done,
        }
    }
}

/// Where a call stands, and the action that its last step ended on.
pub type Step = (Operation, Action);

/// The mathematical value of a [`Step`].
pub type StepView = (OperationView, ActionView);

/// A call that ends in failure.
pub open spec fn failed(error: Error) -> StepView {
    (OperationView::Done, ActionView::Reply(Err(error)))
}

/// A call that ends with a reply.
pub open spec fn replied(reply: HkdfReply) -> StepView {
    (OperationView::Done, ActionView::Reply(Ok(reply)))
}

/// An extraction that has all its material: the pseudorandom key goes to the
/// keystore.
pub open spec fn extract_store(
    ikm: Seq<u8>,
    salt: Option<Seq<u8>>,
    storage: Location,
) -> StepView {
    (OperationView::AwaitPrkStored, ActionView::Store(prk_store(ikm, salt, storage)))
}

/// An extraction that has its input keying material and turns to its salt.
pub open spec fn extract_salt(
    ikm: Seq<u8>,
    salt: Option<Reference>,
    storage: Location,
) -> StepView {
    match salt {
        None => extract_store(ikm, None, storage),
        Some(Reference::Data(bytes)) => extract_store(ikm, Some(bytes), storage),
        Some(Reference::Key(id)) => (
            OperationView::AwaitSalt { ikm, storage },
            ActionView::Load(secret_load(id)),
        ),
    }
}

/// The first step of an extraction: the input keying material is resolved
/// before the salt.
pub open spec fn extract_begin(request: ExtractRequestView) -> StepView {
    match request.ikm {
        Reference::Data(bytes) => extract_salt(bytes, request.salt, request.storage),
        Reference::Key(id) => (
            OperationView::AwaitIkm { salt: request.salt, storage: request.storage },
            ActionView::Load(secret_load(id)),
        ),
    }
}

/// The first step of an expansion: the pseudorandom key is loaded.
pub open spec fn expand_begin(request: ExpandRequestView) -> StepView {
    (
        OperationView::AwaitPrk {
            info: request.info,
            len: request.len,
            storage: request.storage,
        },
        ActionView::Load(secret_load(request.prk.0)),
    )
}

/// An extraction learns what loading its input keying material came to: with
/// the material it turns to the salt, without it the call fails.
pub open spec fn ikm_loaded(
    loaded: Result<KeyView, Error>,
    salt: Option<Reference>,
    storage: Location,
) -> StepView {
    match key_material(loaded) {
        Ok(ikm) => extract_salt(ikm, salt, storage),
        Err(error) => failed(error),
    }
}

/// An extraction learns what loading its salt came to: with the salt it has
/// the pseudorandom key stored, without it the call fails.
pub open spec fn salt_loaded(
    ikm: Seq<u8>,
    loaded: Result<KeyView, Error>,
    storage: Location,
) -> StepView {
    match key_material(loaded) {
        Ok(salt) => extract_store(ikm, Some(salt), storage),
        Err(error) => failed(error),
    }
}

/// An extraction learns what storing the pseudorandom key came to: the reply
/// is the handle minted, marked as that of a pseudorandom key, or the
/// keystore's error.
pub open spec fn prk_stored(stored: Result<KeyId, Error>) -> StepView {
    match stored {
        Ok(id) => replied(HkdfReply::Extract(HkdfExtractReply { okm: OkmId(id) })),
        Err(error) => failed(error),
    }
}

/// An expansion learns what loading its pseudorandom key came to: it has the
/// output keying material stored, or the call fails.
pub open spec fn prk_loaded(
    loaded: Result<KeyView, Error>,
    info: Seq<u8>,
    len: usize,
    storage: Location,
) -> StepView {
    match okm_store(loaded, info, len, storage) {
        Ok(store) => (OperationView::AwaitOkmStored, ActionView::Store(store)),
        Err(error) => failed(error),
    }
}

/// An expansion learns what storing the output keying material came to: the
/// reply is the handle minted, or the keystore's error.
pub open spec fn okm_stored(stored: Result<KeyId, Error>) -> StepView {
    match stored {
        Ok(id) => replied(HkdfReply::Expand(HkdfExpandReply { key: id })),
        Err(error) => failed(error),
    }
}

/// Every later step: what the operation makes of the event it waits for. An
/// event that it does not wait for ends the call with an `InternalError`.
pub open spec fn next(operation: OperationView, event: EventView) -> StepView {
    match (operation, event) {
        (OperationView::AwaitIkm { salt, storage }, EventView::Loaded(loaded)) => ikm_loaded(
            loaded,
            salt,
            storage,
        ),
        (OperationView::AwaitSalt { ikm, storage }, EventView::Loaded(loaded)) => salt_loaded(
            ikm,
            loaded,
            storage,
        ),
        (OperationView::AwaitPrkStored, EventView::Stored(stored)) => prk_stored(stored),
        (OperationView::AwaitPrk { info, len, storage }, EventView::Loaded(loaded)) => prk_loaded(
            loaded,
            info,
            len,
            storage,
        ),
        (OperationView::AwaitOkmStored, EventView::Stored(stored)) => okm_stored(stored),
        _ => failed(Error::InternalError),
    }
}

fn fail(error: Error) -> (step: Step)
    ensures
        step@ == failed(error),
{
    (Operation::Done, Action::Reply(Err(error)))
}

fn succeed(reply: HkdfReply) -> (step: Step)
    ensures
        step@ == replied(reply),
{
    (Operation::Done, Action::Reply(Ok(reply)))
}

fn begin_store(ikm: MediumData, salt: Option<MediumData>, storage: Location) -> (step: Step)
    ensures
        step@ == extract_store(
            medium_data_bytes(ikm),
            match salt {
                Some(data) => Some(medium_data_bytes(data)),
                None => None,
            },
            storage,
        ),
{
    let store = store_prk(&ikm, salt.as_ref(), storage);
    (Operation::AwaitPrkStored, Action::Store(store))
}

fn resolve_salt(
    ikm: MediumData,
    salt: Option<KeyOrData<MAX_MEDIUM_DATA_LENGTH>>,
    storage: Location,
) -> (step: Step)
    ensures
        step@ == extract_salt(medium_data_bytes(ikm), salt_reference(salt), storage),
{
    match salt {
        None => begin_store(ikm, None, storage),
        Some(reference) => match get_mat(reference) {
            Resolution::Material(salt) => begin_store(ikm, Some(salt), storage),
            Resolution::Load(load) => (Operation::AwaitSalt { ikm, storage }, Action::Load(load)),
        },
    }
}

/// Begins an extraction.
pub fn extract(req: HkdfExtractRequest) -> (step: Step)
    ensures
        step@ == extract_begin(req@),
{
    let HkdfExtractRequest { ikm, salt, storage } = req;
    match get_mat(ikm) {
        Resolution::Material(ikm) => resolve_salt(ikm, salt, storage),
        Resolution::Load(load) => (Operation::AwaitIkm { salt, storage }, Action::Load(load)),
    }
}

/// Begins an expansion.
pub fn expand(req: HkdfExpandRequest) -> (step: Step)
    ensures
        step@ == expand_begin(req@),
{
    let HkdfExpandRequest { prk, info, len, storage } = req;
    (
        Operation::AwaitPrk { info, len, storage },
        Action::Load(LoadRequest { secrecy: Secrecy::Secret, kind: None, id: prk.0 }),
    )
}

/// Takes an operation one step further with what the keystore made of its last
/// action.
pub fn resume(operation: Operation, event: Event) -> (step: Step)
    ensures
        step@ == next(operation@, event@),
{
    match (operation, event) {
        (Operation::AwaitIkm { salt, storage }, Event::Loaded(loaded)) => match key_mat(loaded) {
            Ok(ikm) => resolve_salt(ikm, salt, storage),
            Err(error) => fail(error),
        },
        (Operation::AwaitSalt { ikm, storage }, Event::Loaded(loaded)) => match key_mat(loaded) {
            Ok(salt) => begin_store(ikm, Some(salt), storage),
            Err(error) => fail(error),
        },
        (Operation::AwaitPrkStored, Event::Stored(stored)) => match stored {
            Ok(id) => succeed(HkdfReply::Extract(HkdfExtractReply { okm: OkmId(id) })),
            Err(error) => fail(error),
        },
        (Operation::AwaitPrk { info, len, storage }, Event::Loaded(loaded)) => match store_okm(
            loaded,
            &info,
            len,
            storage,
        ) {
            Ok(store) => (Operation::AwaitOkmStored, Action::Store(store)),
            Err(error) => fail(error),
        },
        (Operation::AwaitOkmStored, Event::Stored(stored)) => match stored {
            Ok(id) => succeed(HkdfReply::Expand(HkdfExpandReply { key: id })),
            Err(error) => fail(error),
        },
        _ => fail(Error::InternalError),
    }
}

} // verus!
