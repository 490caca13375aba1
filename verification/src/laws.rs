//! What holds of every call, proved from the steps' definitions.
//!
//! The keystore is not part of this library, so the laws speak of what the
//! service hands to it and of what it hands back: a key is "stored under a
//! handle" when the service has asked for it to be stored and the keystore has
//! answered with that handle.

use crate::backend::begin;
use crate::bytes::{MAX_MEDIUM_DATA_LENGTH, MAX_SHORT_DATA_LENGTH};
use crate::derivation::{is_prk, okm_store, prk_store};
use crate::error::Error;
use crate::key::{KeyId, KeyView, Kind, Location, Secrecy};
use crate::keystore::{secret_load, ActionView, EventView, StoreRequestView};
use crate::operation::{
    expand_begin, extract_begin, failed, next, replied, OperationView, StepView,
};
use crate::primitive::{
    hkdf_sha256_expand, hkdf_sha256_extract, HASH_LENGTH, MAX_EXPAND_LENGTH,
};
use crate::request::{
    ExpandRequestView, ExtractRequestView, HkdfExpandReply, HkdfExpandRequest, HkdfExtractReply,
    HkdfExtractRequest, HkdfReply, HkdfRequest, OkmId, Reference, RequestView,
};
use crate::resolver::{key_material, resolution, resolved, ResolutionView};
use crate::virt::ExtensionIds;
use vstd::prelude::*;
use vstd::std_specs::convert::{FromSpec, TryFromSpec};

verus! {

/// What a keystore that keeps its keys answers when asked to load what `store`
/// had it keep.
pub open spec fn kept(store: StoreRequestView) -> Result<KeyView, Error> {
    Ok(KeyView { kind: store.kind, material: store.material })
}

/// An extraction whose material is all given inline.
pub open spec fn inline_extract(
    ikm: Seq<u8>,
    salt: Option<Seq<u8>>,
    storage: Location,
) -> ExtractRequestView {
    ExtractRequestView {
        ikm: Reference::Data(ikm),
        salt: match salt {
            Some(bytes) => Some(Reference::Data(bytes)),
            None => None,
        },
        storage,
    }
}

/// What a derivation comes to before anything is stored: the key to store, or
/// the error that ends the call.
pub open spec fn settled(outcome: Result<StoreRequestView, Error>) -> ActionView {
    match outcome {
        Ok(store) => ActionView::Store(store),
        Err(error) => ActionView::Reply(Err(error)),
    }
}

/// The reply of a call whose derivation came to `outcome` and whose store, if
/// it got that far, the keystore answered with `stored`.
pub open spec fn reply_after(
    outcome: Result<StoreRequestView, Error>,
    stored: Result<KeyId, Error>,
    wrap: spec_fn(KeyId) -> HkdfReply,
) -> Result<HkdfReply, Error> {
    match outcome {
        Err(error) => Err(error),
        Ok(_) => match stored {
            Ok(handle) => Ok(wrap(handle)),
            Err(error) => Err(error),
        },
    }
}

/// An extraction, told in one piece: resolve the input keying material, then
/// the salt if there is one, and have HKDF-Extract of the two stored. The first
/// failure is the outcome.
pub open spec fn extraction(
    request: ExtractRequestView,
    ikm_answer: Result<KeyView, Error>,
    salt_answer: Result<KeyView, Error>,
) -> Result<StoreRequestView, Error> {
    match resolved(request.ikm, ikm_answer) {
        Err(error) => Err(error),
        Ok(ikm) => match request.salt {
            None => Ok(prk_store(ikm, None, request.storage)),
            Some(reference) => match resolved(reference, salt_answer) {
                Err(error) => Err(error),
                Ok(salt) => Ok(prk_store(ikm, Some(salt), request.storage)),
            },
        },
    }
}

/// The keystore's answers to the loads of an extraction, in the order asked:
/// one for the input keying material if it is named by handle, then one for
/// the salt if it is.
pub open spec fn extraction_loads(
    request: ExtractRequestView,
    ikm_answer: Result<KeyView, Error>,
    salt_answer: Result<KeyView, Error>,
) -> Seq<EventView> {
    let for_ikm = if request.ikm is Key {
        seq![EventView::Loaded(ikm_answer)]
    } else {
        Seq::<EventView>::empty()
    };
    let for_salt = if request.salt matches Some(Reference::Key(_)) {
        seq![EventView::Loaded(salt_answer)]
    } else {
        Seq::<EventView>::empty()
    };
    for_ikm + for_salt
}

/// Where a call stands once the keystore's outcomes have come in as `events`,
/// one for each load or store, in the order asked. A reply ends the call, so
/// events beyond it are never looked at.
pub open spec fn run(step: StepView, events: Seq<EventView>) -> StepView
    decreases events.len(),
{
    if events.len() == 0 || step.1 is Reply {
        step
    } else {
        run(next(step.0, events.first()), events.drop_first())
    }
}

/// How many more events an operation may take before the call is over.
pub open spec fn steps_left(operation: OperationView) -> nat {
    match operation {
        OperationView::AwaitIkm { .. } => 3,
        OperationView::AwaitSalt { .. } => 2,
        OperationView::AwaitPrkStored => 1,
        OperationView::AwaitPrk { .. } => 2,
        OperationView::AwaitOkmStored => 1,
        OperationView::Done => 0,
    }
}

/// Whether an operation waits for the outcome of a load.
pub open spec fn awaits_load(operation: OperationView) -> bool {
    operation is AwaitIkm || operation is AwaitSalt || operation is AwaitPrk
}

/// Whether an operation waits for the outcome of a store.
pub open spec fn awaits_store(operation: OperationView) -> bool {
    operation is AwaitPrkStored || operation is AwaitOkmStored
}

/// Whether an operation and the action that came with it belong together: a
/// load or a store leaves the operation waiting for its outcome, and a reply
/// leaves it done.
pub open spec fn in_step(operation: OperationView, action: ActionView) -> bool {
    match action {
        ActionView::Load(_) => awaits_load(operation),
        ActionView::Store(_) => awaits_store(operation),
        ActionView::Reply(_) => operation is Done,
    }
}

/// Resolving a reference is what its two halves do together: inline data is
/// the material without a word to the keystore, whatever the keystore would
/// answer; a handle asks for one load, as a secret of any kind, and the answer
/// decides.
pub proof fn lemma_resolution(reference: Reference, answer: Result<KeyView, Error>)
    ensures
        match resolution(reference) {
            ResolutionView::Material(bytes) => reference == Reference::Data(bytes) && resolved(
                reference,
                answer,
            ) == Ok::<Seq<u8>, Error>(bytes),
            ResolutionView::Load(load) => reference is Key && load == secret_load(
                reference->Key_0,
            ) && resolved(reference, answer) == key_material(answer),
        },
{
}

/// A resolved reference never yields more bytes than inline data may hold,
/// provided the inline data itself keeps to that bound.
pub proof fn lemma_resolved_is_bounded(reference: Reference, answer: Result<KeyView, Error>)
    requires
        reference matches Reference::Data(bytes) ==> bytes.len() <= MAX_MEDIUM_DATA_LENGTH,
    ensures
        resolved(reference, answer) matches Ok(bytes) ==> bytes.len() <= MAX_MEDIUM_DATA_LENGTH,
{
}

/// A handle to a key that is neither symmetric nor a shared secret resolves to
/// `MechanismInvalid`, and the extraction that asked for it ends there: its
/// last action is that error, which carries no material.
pub proof fn lemma_private_key_is_refused(
    id: KeyId,
    key: KeyView,
    ikm: Seq<u8>,
    salt: Option<Reference>,
    storage: Location,
)
    requires
        !key.kind.derivable(),
    ensures
        resolved(Reference::Key(id), Ok(key)) == Err::<Seq<u8>, Error>(Error::MechanismInvalid),
        next(OperationView::AwaitIkm { salt, storage }, EventView::Loaded(Ok(key))) == failed(
            Error::MechanismInvalid,
        ),
        next(OperationView::AwaitSalt { ikm, storage }, EventView::Loaded(Ok(key))) == failed(
            Error::MechanismInvalid,
        ),
{
}

/// An extraction of inline material asks the keystore, in its first step, to
/// store HKDF-Extract of that material as a secret symmetric key of one
/// digest's width at the place the caller chose; and it replies with the handle
/// that the keystore mints for it. So the key stored under the handle of the
/// reply is the HKDF-Extract output.
pub proof fn lemma_extract_stores_prk(
    ikm: Seq<u8>,
    salt: Option<Seq<u8>>,
    storage: Location,
    handle: KeyId,
)
    ensures
        ({
            let (waiting, action) = extract_begin(inline_extract(ikm, salt, storage));
            &&& action == ActionView::Store(
                StoreRequestView {
                    location: storage,
                    secrecy: Secrecy::Secret,
                    kind: Kind::Symmetric(HASH_LENGTH),
                    material: hkdf_sha256_extract(salt, ikm)@,
                },
            )
            &&& action->Store_0.material.len() == HASH_LENGTH
            &&& next(waiting, EventView::Stored(Ok(handle))) == replied(
                HkdfReply::Extract(HkdfExtractReply { okm: OkmId(handle) }),
            )
        }),
{
}

/// An expansion first asks for its pseudorandom key, as a secret of any kind.
/// Where that key is symmetric of one digest's width and the output fits a
/// short buffer, it then asks the keystore to store `len` bytes of HKDF-Expand
/// as a secret symmetric key of that length at the place the caller chose; and
/// it replies with the handle that the keystore mints for it. So the key stored
/// under the handle of the reply is the HKDF-Expand output.
pub proof fn lemma_expand_stores_okm(
    request: ExpandRequestView,
    prk: KeyView,
    handle: KeyId,
)
    requires
        is_prk(prk.kind),
        prk.material.len() == HASH_LENGTH,
        request.len <= MAX_SHORT_DATA_LENGTH,
    ensures
        ({
            let (loading, load) = expand_begin(request);
            let (storing, store) = next(loading, EventView::Loaded(Ok(prk)));
            &&& load == ActionView::Load(secret_load(request.prk.0))
            &&& store == ActionView::Store(
                StoreRequestView {
                    location: request.storage,
                    secrecy: Secrecy::Secret,
                    kind: Kind::Symmetric(request.len),
                    material: hkdf_sha256_expand(prk.material, request.info, request.len as nat),
                },
            )
            &&& store->Store_0.material.len() == request.len
            &&& next(storing, EventView::Stored(Ok(handle))) == replied(
                HkdfReply::Expand(HkdfExpandReply { key: handle }),
            )
        }),
{
}

/// Extraction and expansion through handles derive what HKDF derives directly.
/// Take an extraction of inline material, let the keystore mint `prk_handle`
/// for its pseudorandom key, and expand under that handle against a keystore
/// that kept the key: the key stored under the handle of the second reply is
/// HKDF-Expand, under the given `info` and `len`, of HKDF-Extract of the
/// material.
pub proof fn lemma_round_trip(
    ikm: Seq<u8>,
    salt: Option<Seq<u8>>,
    prk_storage: Location,
    prk_handle: KeyId,
    info: Seq<u8>,
    len: usize,
    okm_storage: Location,
    okm_handle: KeyId,
)
    requires
        len <= MAX_SHORT_DATA_LENGTH,
    ensures
        ({
            let (extracting, first_store) = extract_begin(inline_extract(ikm, salt, prk_storage));
            let (_, first_reply) = next(extracting, EventView::Stored(Ok(prk_handle)));
            let expansion = ExpandRequestView {
                prk: OkmId(prk_handle),
                info,
                len,
                storage: okm_storage,
            };
            let (loading, load) = expand_begin(expansion);
            let (storing, second_store) = next(
                loading,
                EventView::Loaded(kept(first_store->Store_0)),
            );
            let (_, second_reply) = next(storing, EventView::Stored(Ok(okm_handle)));
            &&& first_store is Store
            &&& first_reply == ActionView::Reply(
                Ok(HkdfReply::Extract(HkdfExtractReply { okm: OkmId(prk_handle) })),
            )
            &&& load == ActionView::Load(secret_load(prk_handle))
            &&& second_store == ActionView::Store(
                StoreRequestView {
                    location: okm_storage,
                    secrecy: Secrecy::Secret,
                    kind: Kind::Symmetric(len),
                    material: hkdf_sha256_expand(hkdf_sha256_extract(salt, ikm)@, info, len as nat),
                },
            )
            &&& second_reply == ActionView::Reply(
                Ok(HkdfReply::Expand(HkdfExpandReply { key: okm_handle })),
            )
        }),
{
}

/// The service keeps no record of what it derived. The same extraction, asked
/// for twice, succeeds both times; each time it has the same key stored anew
/// and replies with whatever handle the keystore minted that time, be the two
/// handles equal or not.
pub proof fn lemma_extract_twice(
    ikm: Seq<u8>,
    salt: Option<Seq<u8>>,
    storage: Location,
    first: KeyId,
    second: KeyId,
)
    ensures
        ({
            let (waiting, action) = extract_begin(inline_extract(ikm, salt, storage));
            &&& action == ActionView::Store(prk_store(ikm, salt, storage))
            &&& next(waiting, EventView::Stored(Ok(first))) == replied(
                HkdfReply::Extract(HkdfExtractReply { okm: OkmId(first) }),
            )
            &&& next(waiting, EventView::Stored(Ok(second))) == replied(
                HkdfReply::Extract(HkdfExtractReply { okm: OkmId(second) }),
            )
        }),
{
}

/// An expansion refuses, as `ObjectHandleInvalid`, every key that is not
/// symmetric of exactly one digest's width: a symmetric key of another length
/// as much as a key of another kind, and whatever else the request holds. It
/// ends there, with nothing derived and nothing to store.
pub proof fn lemma_expand_refuses_other_keys(
    key: KeyView,
    info: Seq<u8>,
    len: usize,
    storage: Location,
)
    requires
        key.kind != Kind::Symmetric(HASH_LENGTH),
    ensures
        okm_store(Ok(key), info, len, storage) == Err::<StoreRequestView, Error>(
            Error::ObjectHandleInvalid,
        ),
        next(OperationView::AwaitPrk { info, len, storage }, EventView::Loaded(Ok(key)))
            == failed(Error::ObjectHandleInvalid),
{
}

/// An expansion to no bytes at all succeeds: under a sound pseudorandom key it
/// has an empty symmetric key stored, and replies with its handle.
pub proof fn lemma_expand_to_nothing(
    prk: KeyView,
    info: Seq<u8>,
    storage: Location,
    handle: KeyId,
)
    requires
        is_prk(prk.kind),
        prk.material.len() >= HASH_LENGTH,
    ensures
        ({
            let (storing, store) = next(
                OperationView::AwaitPrk { info, len: 0, storage },
                EventView::Loaded(Ok(prk)),
            );
            &&& store == ActionView::Store(
                StoreRequestView {
                    location: storage,
                    secrecy: Secrecy::Secret,
                    kind: Kind::Symmetric(0),
                    material: Seq::<u8>::empty(),
                },
            )
            &&& next(storing, EventView::Stored(Ok(handle))) == replied(
                HkdfReply::Expand(HkdfExpandReply { key: handle }),
            )
        }),
{
    assert(hkdf_sha256_expand(prk.material, info, 0) =~= Seq::<u8>::empty());
}

/// No expansion to more bytes than a short buffer holds succeeds, whatever the
/// keystore answers; under a sound pseudorandom key it fails as
/// `WrongMessageLength`. The primitive's own limit of 255 digests lies above
/// the buffer's, so every length beyond that limit fails so, too.
pub proof fn lemma_expand_refuses_long_output(
    loaded: Result<KeyView, Error>,
    info: Seq<u8>,
    len: usize,
    storage: Location,
)
    requires
        len > MAX_SHORT_DATA_LENGTH,
    ensures
        okm_store(loaded, info, len, storage) is Err,
        MAX_EXPAND_LENGTH == 255 * HASH_LENGTH,
        MAX_SHORT_DATA_LENGTH <= MAX_EXPAND_LENGTH,
        loaded matches Ok(prk) && is_prk(prk.kind) && prk.material.len() >= HASH_LENGTH ==> {
            &&& okm_store(loaded, info, len, storage) == Err::<StoreRequestView, Error>(
                Error::WrongMessageLength,
            )
            &&& next(OperationView::AwaitPrk { info, len, storage }, EventView::Loaded(loaded))
                == failed(Error::WrongMessageLength)
        },
{
}

/// The steps of an extraction add up to the extraction told in one piece. Fed
/// with the keystore's answers to its loads, the call arrives at the store of
/// the pseudorandom key, or at the first error on the way; fed with the
/// keystore's answer to that store as well, it replies with the handle minted,
/// wrapped as that of a pseudorandom key, or with the error of the store.
pub proof fn lemma_extraction_in_steps(
    request: ExtractRequestView,
    ikm_answer: Result<KeyView, Error>,
    salt_answer: Result<KeyView, Error>,
    stored: Result<KeyId, Error>,
)
    ensures
        run(extract_begin(request), extraction_loads(request, ikm_answer, salt_answer)).1
            == settled(extraction(request, ikm_answer, salt_answer)),
        run(
            extract_begin(request),
            extraction_loads(request, ikm_answer, salt_answer).push(EventView::Stored(stored)),
        ).1 == ActionView::Reply(
            reply_after(
                extraction(request, ikm_answer, salt_answer),
                stored,
                |handle: KeyId| HkdfReply::Extract(HkdfExtractReply { okm: OkmId(handle) }),
            ),
        ),
{
    reveal_with_fuel(run, 4);
}

/// The steps of an expansion add up to the expansion told in one piece. Fed
/// with the keystore's answer to the load of the pseudorandom key, the call
/// arrives at the store of the output keying material, or at the error that
/// the key or the length gives rise to; fed with the keystore's answer to that
/// store as well, it replies with the handle minted or with the error of the
/// store.
pub proof fn lemma_expansion_in_steps(
    request: ExpandRequestView,
    prk_answer: Result<KeyView, Error>,
    stored: Result<KeyId, Error>,
)
    ensures
        expand_begin(request).1 == ActionView::Load(secret_load(request.prk.0)),
        run(expand_begin(request), seq![EventView::Loaded(prk_answer)]).1 == settled(
            okm_store(prk_answer, request.info, request.len, request.storage),
        ),
        run(
            expand_begin(request),
            seq![EventView::Loaded(prk_answer), EventView::Stored(stored)],
        ).1 == ActionView::Reply(
            reply_after(
                okm_store(prk_answer, request.info, request.len, request.storage),
                stored,
                |handle: KeyId| HkdfReply::Expand(HkdfExpandReply { key: handle }),
            ),
        ),
{
    reveal_with_fuel(run, 3);
}

/// A call reads and writes secret keys only: every load it asks for is that of
/// a secret, with the kind left open, and every key it has stored is a secret
/// symmetric key.
pub proof fn lemma_only_secrets_cross(
    request: RequestView,
    operation: OperationView,
    event: EventView,
)
    ensures
        begin(request).1 matches ActionView::Load(load) ==> load.secrecy == Secrecy::Secret
            && load.kind is None,
        begin(request).1 matches ActionView::Store(store) ==> store.secrecy == Secrecy::Secret
            && store.kind is Symmetric,
        next(operation, event).1 matches ActionView::Load(load) ==> load.secrecy
            == Secrecy::Secret && load.kind is None,
        next(operation, event).1 matches ActionView::Store(store) ==> store.secrecy
            == Secrecy::Secret && store.kind is Symmetric,
{
}

/// Whatever key the service has stored is a symmetric key whose kind states the
/// length of its material, and that material fits a short buffer.
pub proof fn lemma_stored_keys_are_sound(
    request: RequestView,
    operation: OperationView,
    event: EventView,
)
    ensures
        begin(request).1 matches ActionView::Store(store) ==> store.kind == Kind::Symmetric(
            store.material.len() as usize,
        ) && store.material.len() <= MAX_SHORT_DATA_LENGTH,
        next(operation, event).1 matches ActionView::Store(store) ==> store.kind
            == Kind::Symmetric(store.material.len() as usize) && store.material.len()
            <= MAX_SHORT_DATA_LENGTH,
{
}

/// A call succeeds only by way of a store that succeeded: the first step never
/// replies with success, and a later one does so only as the answer to the
/// handle that the keystore minted, which it passes on. And whatever the
/// keystore answers to a store, the reply follows at once: no call stores
/// twice.
pub proof fn lemma_success_follows_store(
    request: RequestView,
    operation: OperationView,
    event: EventView,
)
    ensures
        !(begin(request).1 matches ActionView::Reply(Ok(_))),
        next(operation, event).1 matches ActionView::Reply(Ok(reply)) ==> {
            &&& awaits_store(operation)
            &&& event matches EventView::Stored(Ok(handle))
            &&& reply == if operation is AwaitPrkStored {
                HkdfReply::Extract(HkdfExtractReply { okm: OkmId(handle) })
            } else {
                HkdfReply::Expand(HkdfExpandReply { key: handle })
            }
        },
        awaits_store(operation) ==> next(operation, event).1 is Reply,
{
}

/// An error of the keystore, on the load or the store that the operation waits
/// for, ends the call as that very error.
pub proof fn lemma_keystore_errors_pass(operation: OperationView, error: Error)
    ensures
        awaits_load(operation) ==> next(operation, EventView::Loaded(Err(error))) == failed(
            error,
        ),
        awaits_store(operation) ==> next(operation, EventView::Stored(Err(error))) == failed(
            error,
        ),
{
}

/// Every call is over after at most three answers of the keystore: each step
/// leaves fewer steps to take, an operation waits exactly as long as its last
/// action was not a reply, and one that is done stays done.
pub proof fn lemma_call_ends(request: RequestView, operation: OperationView, event: EventView)
    ensures
        steps_left(begin(request).0) <= 3,
        in_step(begin(request).0, begin(request).1),
        in_step(next(operation, event).0, next(operation, event).1),
        operation !is Done ==> steps_left(next(operation, event).0) < steps_left(operation),
        operation is Done ==> next(operation, event) == failed(Error::InternalError),
{
}

/// Wrapping a request or a reply into its envelope always works, and
/// unwrapping gives it back; unwrapping as the other variant is an
/// `InternalError`.
pub proof fn lemma_unwrap_undoes_wrap(
    extract: HkdfExtractRequest,
    expand: HkdfExpandRequest,
    extracted: HkdfExtractReply,
    expanded: HkdfExpandReply,
)
    ensures
        HkdfExtractRequest::try_from_spec(HkdfRequest::from_spec(extract)) == Ok::<
            HkdfExtractRequest,
            Error,
        >(extract),
        HkdfExpandRequest::try_from_spec(HkdfRequest::from_spec(expand)) == Ok::<
            HkdfExpandRequest,
            Error,
        >(expand),
        HkdfExtractRequest::try_from_spec(HkdfRequest::from_spec(expand)) == Err::<
            HkdfExtractRequest,
            Error,
        >(Error::InternalError),
        HkdfExpandRequest::try_from_spec(HkdfRequest::from_spec(extract)) == Err::<
            HkdfExpandRequest,
            Error,
        >(Error::InternalError),
        HkdfExtractReply::try_from_spec(HkdfReply::from_spec(extracted)) == Ok::<
            HkdfExtractReply,
            Error,
        >(extracted),
        HkdfExpandReply::try_from_spec(HkdfReply::from_spec(expanded)) == Ok::<
            HkdfExpandReply,
            Error,
        >(expanded),
        HkdfExtractReply::try_from_spec(HkdfReply::from_spec(expanded)) == Err::<
            HkdfExtractReply,
            Error,
        >(Error::InternalError),
        HkdfExpandReply::try_from_spec(HkdfReply::from_spec(extracted)) == Err::<
            HkdfExpandReply,
            Error,
        >(Error::InternalError),
{
}

/// The number of an extension names that extension again, and no other number
/// names one.
pub proof fn lemma_extension_numbers(id: ExtensionIds, number: u8)
    ensures
        ExtensionIds::try_from_spec(u8::from_spec(id)) == Ok::<ExtensionIds, Error>(id),
        ExtensionIds::try_from_spec(number) is Ok <==> number == 0,
        ExtensionIds::try_from_spec(number) matches Err(error) ==> error == Error::InternalError,
{
}

} // verus!
