//! HKDF-SHA256 as a key-derivation service over a keystore: callers name key
//! material by handle or hand it in inline, and every derived secret goes back
//! into the keystore, to be named by a new handle.
//!
//! The keystore itself stays outside. A call is a short sequence of steps
//! ([`operation`]): each says what the keystore is to load or store next
//! ([`keystore`]), and the next step takes the outcome.

pub mod backend;
pub mod bytes;
pub mod client;
pub mod derivation;
pub mod error;
pub mod key;
pub mod keystore;
pub mod laws;
pub mod operation;
pub mod primitive;
pub mod request;
pub mod resolver;
pub mod virt;

pub use backend::{HkdfBackend, HkdfExtension};
pub use error::Error;
pub use request::{
    HkdfExpandReply, HkdfExpandRequest, HkdfExtractReply, HkdfExtractRequest, HkdfReply,
    HkdfRequest, KeyOrData, OkmId,
};
