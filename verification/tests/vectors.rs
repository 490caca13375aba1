use heapless_bytes::Bytes;
use hmac::{Hmac, Mac, NewMac};
use sha2::Sha256;
use trussed_hkdf::bytes::{MediumData, Message};
use trussed_hkdf::derivation::{store_okm, store_prk};
use trussed_hkdf::key::{Key, Kind, Location, Secrecy};
use trussed_hkdf::Error;

fn unhex(text: &str) -> Vec<u8> {
    let digits: Vec<u8> = text.bytes().map(|c| (c as char).to_digit(16).unwrap() as u8).collect();
    digits.chunks(2).map(|pair| pair[0] * 16 + pair[1]).collect()
}

fn medium(bytes: &[u8]) -> MediumData {
    Bytes::from_slice(bytes).unwrap()
}

fn message(bytes: &[u8]) -> Message {
    Bytes::from_slice(bytes).unwrap()
}

fn prk_key(material: Vec<u8>) -> Result<Key, Error> {
    Ok(Key { kind: Kind::Symmetric(32), material })
}

fn hmac_sha256(key: &[u8], parts: &[&[u8]]) -> Vec<u8> {
    let mut mac = Hmac::<Sha256>::new_from_slice(key).unwrap();
    for part in parts {
        mac.update(part);
    }
    mac.finalize().into_bytes().to_vec()
}

#[test]
fn rfc_5869_basic_case() {
    let ikm = unhex("0b0b0b0b0b0b0b0b0b0b0b0b0b0b0b0b0b0b0b0b0b0b");
    let salt = unhex("000102030405060708090a0b0c");
    let info = unhex("f0f1f2f3f4f5f6f7f8f9");

    let prk = store_prk(&medium(&ikm), Some(&medium(&salt)), Location::Volatile);
    assert_eq!(
        prk.material,
        unhex("077709362c2e32df0ddc3f0dc47bba6390b6c73bb50f9c3122ec844ad7c2b3e5")
    );
    assert_eq!(prk.kind, Kind::Symmetric(32));
    assert_eq!(prk.secrecy, Secrecy::Secret);
    assert_eq!(prk.location, Location::Volatile);

    let okm = store_okm(prk_key(prk.material), &message(&info), 42, Location::External).unwrap();
    assert_eq!(
        okm.material,
        unhex(
            "3cb25f25faacd57a90434f64d0362f2a2d2d0a90cf1a5a4c5db02d56ecc4c5bf34007208d5b887185865"
        )
    );
    assert_eq!(okm.kind, Kind::Symmetric(42));
    assert_eq!(okm.secrecy, Secrecy::Secret);
    assert_eq!(okm.location, Location::External);
}

#[test]
fn rfc_5869_long_inputs() {
    let ikm = unhex(
        "000102030405060708090a0b0c0d0e0f101112131415161718191a1b1c1d1e1f\
         202122232425262728292a2b2c2d2e2f303132333435363738393a3b3c3d3e3f\
         404142434445464748494a4b4c4d4e4f",
    );
    let salt = unhex(
        "606162636465666768696a6b6c6d6e6f707172737475767778797a7b7c7d7e7f\
         808182838485868788898a8b8c8d8e8f909192939495969798999a9b9c9d9e9f\
         a0a1a2a3a4a5a6a7a8a9aaabacadaeaf",
    );
    let info = unhex(
        "b0b1b2b3b4b5b6b7b8b9babbbcbdbebfc0c1c2c3c4c5c6c7c8c9cacbcccdcecf\
         d0d1d2d3d4d5d6d7d8d9dadbdcdddedfe0e1e2e3e4e5e6e7e8e9eaebecedeeef\
         f0f1f2f3f4f5f6f7f8f9fafbfcfdfeff",
    );

    let prk = store_prk(&medium(&ikm), Some(&medium(&salt)), Location::Internal);
    assert_eq!(
        prk.material,
        unhex("06a6b88c5853361a06104c9ceb35b45cef760014904671014a193f40c15fc244")
    );

    let okm = store_okm(prk_key(prk.material), &message(&info), 82, Location::Internal).unwrap();
    assert_eq!(
        okm.material,
        unhex(
            "b11e398dc80327a1c8e7f78c596a49344f012eda2d4efad8a050cc4c19afa97c\
             59045a99cac7827271cb41c65e590e09da3275600c2f09b8367793a9aca3db71\
             cc30c58179ec3e87c14c01d5c1f3434f1d87"
        )
    );
    assert_eq!(okm.kind, Kind::Symmetric(82));
}

#[test]
fn rfc_5869_without_salt_and_info() {
    let ikm = unhex("0b0b0b0b0b0b0b0b0b0b0b0b0b0b0b0b0b0b0b0b0b0b");
    let prk = unhex("19ef24a32c717b167f33a91d6f648bdf96596776afdb6377ac434c1c293ccb04");

    let absent = store_prk(&medium(&ikm), None, Location::Volatile);
    assert_eq!(absent.material, prk);
    let empty = store_prk(&medium(&ikm), Some(&medium(&[])), Location::Volatile);
    assert_eq!(empty.material, prk);

    let okm = store_okm(prk_key(prk), &message(&[]), 42, Location::Volatile).unwrap();
    assert_eq!(
        okm.material,
        unhex(
            "8da4e775a563c18f715f802a063c5a31b8a11f5c5ee1879ec3454e5f3c738d2d9d201395faa4b61a96c8"
        )
    );
}

#[test]
fn extract_is_hmac_of_the_material_under_the_salt() {
    let ikm = [0x5a; 40];
    let salt = [0xc3; 7];
    let prk = store_prk(&medium(&ikm), Some(&medium(&salt)), Location::Volatile);
    assert_eq!(prk.material, hmac_sha256(&salt, &[&ikm]));
    assert_ne!(prk.material, &ikm[..32]);
}

#[test]
fn extract_without_salt_keys_with_zeros() {
    let ikm = [0x5a; 40];
    let prk = store_prk(&medium(&ikm), None, Location::Volatile);
    assert_eq!(prk.material, hmac_sha256(&[0; 32], &[&ikm]));
}

#[test]
fn expand_chains_hmac_blocks() {
    let prk = vec![0x11; 32];
    let info = b"context";
    let first = hmac_sha256(&prk, &[info, &[1]]);
    let second = hmac_sha256(&prk, &[&first, info, &[2]]);

    let okm = store_okm(prk_key(prk.clone()), &message(info), 48, Location::Volatile).unwrap();
    assert_eq!(&okm.material[..32], &first[..]);
    assert_eq!(&okm.material[32..], &second[..16]);
    assert_ne!(&okm.material[..32], &prk[..]);
}

#[test]
fn expand_to_a_shorter_length_is_a_prefix() {
    let prk = vec![0x22; 32];
    let long = store_okm(prk_key(prk.clone()), &message(b"i"), 100, Location::Volatile).unwrap();
    let short = store_okm(prk_key(prk), &message(b"i"), 37, Location::Volatile).unwrap();
    assert_eq!(short.material.len(), 37);
    assert_eq!(short.material, &long.material[..37]);
}

#[test]
fn expand_takes_longer_material_under_a_kind_of_hash_width() {
    // The kind decides whether the key is a pseudorandom key; the primitive
    // decides whether it can work with the material.
    let material = vec![0x33; 40];
    let first = hmac_sha256(&material, &[b"x", &[1]]);
    let okm = store_okm(
        Ok(Key { kind: Kind::Symmetric(32), material }),
        &message(b"x"),
        32,
        Location::Volatile,
    )
    .unwrap();
    assert_eq!(okm.material, first);
}

#[test]
fn expand_reports_material_that_the_primitive_refuses() {
    let short = Ok(Key { kind: Kind::Symmetric(32), material: vec![0x33; 31] });
    assert_eq!(
        store_okm(short, &message(b"x"), 16, Location::Volatile),
        Err(Error::InternalError)
    );
    // The pseudorandom key is looked at before the length.
    let short = Ok(Key { kind: Kind::Symmetric(32), material: vec![] });
    assert_eq!(
        store_okm(short, &message(b"x"), 129, Location::Volatile),
        Err(Error::InternalError)
    );
}

#[test]
fn expand_lengths_at_the_limit() {
    let prk = || prk_key(vec![0x44; 32]);
    assert_eq!(
        store_okm(prk(), &message(b""), 128, Location::Volatile).unwrap().material.len(),
        128
    );
    assert_eq!(
        store_okm(prk(), &message(b""), 129, Location::Volatile),
        Err(Error::WrongMessageLength)
    );
    assert_eq!(
        store_okm(prk(), &message(b""), 8161, Location::Volatile),
        Err(Error::WrongMessageLength)
    );
    let none = store_okm(prk(), &message(b""), 0, Location::Volatile).unwrap();
    assert_eq!(none.material, Vec::<u8>::new());
    assert_eq!(none.kind, Kind::Symmetric(0));
}

#[test]
fn expand_passes_on_a_failed_load() {
    for error in [Error::NoSuchKey, Error::FilesystemReadFailure, Error::InvalidSerializedKey] {
        assert_eq!(store_okm(Err(error), &message(b""), 16, Location::Volatile), Err(error));
    }
}

#[test]
fn expand_takes_a_full_message_of_info() {
    let info = vec![0xab; 1024];
    let prk = vec![0x55; 32];
    let first = hmac_sha256(&prk, &[&info, &[1]]);
    let okm = store_okm(prk_key(prk), &message(&info), 32, Location::Volatile).unwrap();
    assert_eq!(okm.material, first);
}
