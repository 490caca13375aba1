use heapless_bytes::Bytes;
use hkdf::Hkdf;
use sha2::Sha256;
use trussed_hkdf::client::{hkdf_expand, hkdf_extract};
use trussed_hkdf::key::{Key, KeyId, Kind, Location, Secrecy};
use trussed_hkdf::keystore::{Action, Event, LoadRequest, StoreRequest};
use trussed_hkdf::operation::{expand, extract, resume, Operation};
use trussed_hkdf::virt::{BackendId, Dispatcher, ExtensionIds};
use trussed_hkdf::{
    Error, HkdfBackend, HkdfExpandReply, HkdfExpandRequest, HkdfExtractReply, HkdfExtractRequest,
    HkdfReply, HkdfRequest, KeyOrData, OkmId,
};

const IKM: &[u8] = b"input keying material";
const SALT: &[u8] = b"salt";

fn secret(id: u128) -> Action {
    Action::Load(LoadRequest { secrecy: Secrecy::Secret, kind: None, id: KeyId(id) })
}

fn same(left: &Action, right: &Action) -> bool {
    match (left, right) {
        (Action::Load(left), Action::Load(right)) => left == right,
        (Action::Store(left), Action::Store(right)) => left == right,
        (Action::Reply(left), Action::Reply(right)) => left == right,
        _ => false,
    }
}

fn prk_of(salt: Option<&[u8]>, ikm: &[u8]) -> StoreRequest {
    let (prk, _) = Hkdf::<Sha256>::extract(salt, ikm);
    StoreRequest {
        location: Location::External,
        secrecy: Secrecy::Secret,
        kind: Kind::Symmetric(32),
        material: prk.to_vec(),
    }
}

#[test]
fn extraction_of_inline_material_stores_at_once() {
    let (operation, action) = extract(HkdfExtractRequest {
        ikm: KeyOrData::Data(Bytes::from_slice(IKM).unwrap()),
        salt: Some(KeyOrData::Data(Bytes::from_slice(SALT).unwrap())),
        storage: Location::External,
    });
    assert!(matches!(operation, Operation::AwaitPrkStored));
    assert!(same(&action, &Action::Store(prk_of(Some(SALT), IKM))));

    let (operation, action) = resume(operation, Event::Stored(Ok(KeyId(17))));
    assert!(matches!(operation, Operation::Done));
    assert!(same(
        &action,
        &Action::Reply(Ok(HkdfReply::Extract(HkdfExtractReply { okm: OkmId(KeyId(17)) })))
    ));
}

#[test]
fn extraction_loads_the_material_before_the_salt() {
    let (operation, action) = extract(HkdfExtractRequest {
        ikm: KeyOrData::Key(KeyId(1)),
        salt: Some(KeyOrData::Key(KeyId(2))),
        storage: Location::External,
    });
    assert!(matches!(operation, Operation::AwaitIkm { .. }));
    assert!(same(&action, &secret(1)));

    let (operation, action) = resume(
        operation,
        Event::Loaded(Ok(Key { kind: Kind::Shared(IKM.len()), material: IKM.to_vec() })),
    );
    assert!(matches!(operation, Operation::AwaitSalt { .. }));
    assert!(same(&action, &secret(2)));

    let (operation, action) = resume(
        operation,
        Event::Loaded(Ok(Key { kind: Kind::Symmetric(SALT.len()), material: SALT.to_vec() })),
    );
    assert!(matches!(operation, Operation::AwaitPrkStored));
    assert!(same(&action, &Action::Store(prk_of(Some(SALT), IKM))));

    let (operation, action) = resume(operation, Event::Stored(Ok(KeyId(3))));
    assert!(matches!(operation, Operation::Done));
    assert!(same(
        &action,
        &Action::Reply(Ok(HkdfReply::Extract(HkdfExtractReply { okm: OkmId(KeyId(3)) })))
    ));
}

#[test]
fn extraction_with_a_stored_key_and_no_salt() {
    let (operation, action) = extract(HkdfExtractRequest {
        ikm: KeyOrData::Key(KeyId(1)),
        salt: None,
        storage: Location::External,
    });
    assert!(same(&action, &secret(1)));
    let (operation, action) = resume(
        operation,
        Event::Loaded(Ok(Key { kind: Kind::Symmetric(IKM.len()), material: IKM.to_vec() })),
    );
    assert!(matches!(operation, Operation::AwaitPrkStored));
    assert!(same(&action, &Action::Store(prk_of(None, IKM))));
}

#[test]
fn extraction_with_inline_material_and_a_stored_salt() {
    let (operation, action) = extract(HkdfExtractRequest {
        ikm: KeyOrData::Data(Bytes::from_slice(IKM).unwrap()),
        salt: Some(KeyOrData::Key(KeyId(8))),
        storage: Location::External,
    });
    assert!(matches!(operation, Operation::AwaitSalt { .. }));
    assert!(same(&action, &secret(8)));
    let (_, action) = resume(
        operation,
        Event::Loaded(Ok(Key { kind: Kind::Shared(SALT.len()), material: SALT.to_vec() })),
    );
    assert!(same(&action, &Action::Store(prk_of(Some(SALT), IKM))));
}

#[test]
fn extraction_ends_on_the_first_failure() {
    let begin = || {
        extract(HkdfExtractRequest {
            ikm: KeyOrData::Key(KeyId(1)),
            salt: Some(KeyOrData::Key(KeyId(2))),
            storage: Location::External,
        })
        .0
    };
    let (operation, action) = resume(begin(), Event::Loaded(Err(Error::NoSuchKey)));
    assert!(matches!(operation, Operation::Done));
    assert!(same(&action, &Action::Reply(Err(Error::NoSuchKey))));

    let (operation, _) = resume(
        begin(),
        Event::Loaded(Ok(Key { kind: Kind::Shared(1), material: vec![1] })),
    );
    let (operation, action) = resume(operation, Event::Loaded(Err(Error::FilesystemReadFailure)));
    assert!(matches!(operation, Operation::Done));
    assert!(same(&action, &Action::Reply(Err(Error::FilesystemReadFailure))));
}

#[test]
fn a_failed_store_fails_the_call() {
    let (operation, _) = extract(HkdfExtractRequest {
        ikm: KeyOrData::Data(Bytes::from_slice(IKM).unwrap()),
        salt: None,
        storage: Location::Internal,
    });
    let (operation, action) = resume(operation, Event::Stored(Err(Error::FilesystemWriteFailure)));
    assert!(matches!(operation, Operation::Done));
    assert!(same(&action, &Action::Reply(Err(Error::FilesystemWriteFailure))));

    let (operation, _) = expand(HkdfExpandRequest {
        prk: OkmId(KeyId(1)),
        info: Bytes::new(),
        len: 8,
        storage: Location::Internal,
    });
    let (operation, _) = resume(
        operation,
        Event::Loaded(Ok(Key { kind: Kind::Symmetric(32), material: vec![0; 32] })),
    );
    let (operation, action) = resume(operation, Event::Stored(Err(Error::FilesystemWriteFailure)));
    assert!(matches!(operation, Operation::Done));
    assert!(same(&action, &Action::Reply(Err(Error::FilesystemWriteFailure))));
}

#[test]
fn expansion_loads_then_stores_then_replies() {
    let prk = vec![0x77; 32];
    let mut okm = [0; 20];
    Hkdf::<Sha256>::from_prk(&prk).unwrap().expand(b"info", &mut okm).unwrap();

    let (operation, action) = expand(HkdfExpandRequest {
        prk: OkmId(KeyId(40)),
        info: Bytes::from_slice(b"info").unwrap(),
        len: 20,
        storage: Location::Internal,
    });
    assert!(matches!(operation, Operation::AwaitPrk { .. }));
    assert!(same(&action, &secret(40)));

    let (operation, action) =
        resume(operation, Event::Loaded(Ok(Key { kind: Kind::Symmetric(32), material: prk })));
    assert!(matches!(operation, Operation::AwaitOkmStored));
    assert!(same(
        &action,
        &Action::Store(StoreRequest {
            location: Location::Internal,
            secrecy: Secrecy::Secret,
            kind: Kind::Symmetric(20),
            material: okm.to_vec(),
        })
    ));

    let (operation, action) = resume(operation, Event::Stored(Ok(KeyId(41))));
    assert!(matches!(operation, Operation::Done));
    assert!(same(
        &action,
        &Action::Reply(Ok(HkdfReply::Expand(HkdfExpandReply { key: KeyId(41) })))
    ));
}

#[test]
fn an_event_out_of_turn_is_an_internal_error() {
    let waiting_for_load = || {
        expand(HkdfExpandRequest {
            prk: OkmId(KeyId(1)),
            info: Bytes::new(),
            len: 8,
            storage: Location::Internal,
        })
        .0
    };
    let (operation, action) = resume(waiting_for_load(), Event::Stored(Ok(KeyId(2))));
    assert!(matches!(operation, Operation::Done));
    assert!(same(&action, &Action::Reply(Err(Error::InternalError))));

    let waiting_for_store = || {
        extract(HkdfExtractRequest {
            ikm: KeyOrData::Data(Bytes::new()),
            salt: None,
            storage: Location::Internal,
        })
        .0
    };
    let (operation, action) = resume(
        waiting_for_store(),
        Event::Loaded(Ok(Key { kind: Kind::Symmetric(32), material: vec![0; 32] })),
    );
    assert!(matches!(operation, Operation::Done));
    assert!(same(&action, &Action::Reply(Err(Error::InternalError))));

    let (operation, action) = resume(Operation::Done, Event::Stored(Ok(KeyId(2))));
    assert!(matches!(operation, Operation::Done));
    assert!(same(&action, &Action::Reply(Err(Error::InternalError))));
    let (_, action) = resume(Operation::Done, Event::Loaded(Err(Error::NoSuchKey)));
    assert!(same(&action, &Action::Reply(Err(Error::InternalError))));
}

#[test]
fn the_backend_routes_by_the_kind_of_request() {
    let (operation, action) = HkdfBackend.extension_request(hkdf_extract(
        KeyOrData::Key(KeyId(5)),
        None,
        Location::Volatile,
    ));
    assert!(matches!(operation, Operation::AwaitIkm { salt: None, storage: Location::Volatile }));
    assert!(same(&action, &secret(5)));

    let (operation, action) = HkdfBackend.extension_request(hkdf_expand(
        OkmId(KeyId(6)),
        Bytes::from_slice(b"abc").unwrap(),
        12,
        Location::External,
    ));
    match operation {
        Operation::AwaitPrk { info, len, storage } => {
            assert_eq!(info.as_slice(), b"abc");
            assert_eq!(len, 12);
            assert_eq!(storage, Location::External);
        }
        _ => panic!("an expansion waits for its key"),
    }
    assert!(same(&action, &secret(6)));
}

#[test]
fn the_dispatcher_hands_requests_to_the_backend() {
    let (operation, action) = Dispatcher.extension_request(
        &BackendId::Hkdf,
        &ExtensionIds::Hkdf,
        HkdfRequest::Expand(HkdfExpandRequest {
            prk: OkmId(KeyId(6)),
            info: Bytes::new(),
            len: 12,
            storage: Location::External,
        }),
    );
    assert!(matches!(operation, Operation::AwaitPrk { len: 12, .. }));
    assert!(same(&action, &secret(6)));
}

#[test]
fn a_private_key_ends_the_call_without_a_store() {
    let (operation, _) = extract(HkdfExtractRequest {
        ikm: KeyOrData::Key(KeyId(1)),
        salt: None,
        storage: Location::External,
    });
    let (operation, action) =
        resume(operation, Event::Loaded(Ok(Key { kind: Kind::P256, material: vec![3; 32] })));
    assert!(matches!(operation, Operation::Done));
    assert!(same(&action, &Action::Reply(Err(Error::MechanismInvalid))));
}
