//! Keys as the keystore hands them over: a handle, a kind, the raw material.

use vstd::prelude::*;

verus! {

/// A handle to a key that the keystore holds. The keystore mints it; the service
/// only carries it from a request to the keystore and from the keystore to a
/// reply.
#[derive(Clone, Copy, Debug, PartialEq, Eq, Structural)]
pub struct KeyId(pub u128);

/// Where the keystore places a key. The service hands the caller's choice on
/// and never looks at it.
#[derive(Clone, Copy, Debug, PartialEq, Eq, Structural)]
pub enum Location {
    Volatile,
    Internal,
    External,
}

/// Whether a stored key is public or secret.
#[derive(Clone, Copy, Debug, PartialEq, Eq, Structural)]
pub enum Secrecy {
    Public,
    Secret,
}

/// The cryptographic category of a key. The length that `Shared`, `Symmetric`
/// and `Symmetric32Nonce` carry is a number of bytes.
#[derive(Clone, Copy, Debug, PartialEq, Eq, Structural)]
pub enum Kind {
    /// Bytes of entropy that still need a key derivation applied.
    Shared(usize),
    /// Bytes fit for use as a symmetric secret.
    Symmetric(usize),
    /// A 32-byte symmetric key followed by a nonce of the given length.
    Symmetric32Nonce(usize),
    Rsa2048,
    Rsa3072,
    Rsa4096,
    Ed255,
    P256,
    P384,
    P521,
    BrainpoolP256R1,
    BrainpoolP384R1,
    BrainpoolP512R1,
    X255,
    Secp256k1,
}

impl Kind {
    /// Whether a key of this kind may be the input of a derivation: shared
    /// secrets and symmetric keys are, nothing else is.
    pub open spec fn derivable(self) -> bool {
        self is Symmetric || self is Shared
    }

    /// Computes [`Kind::derivable`].
    pub fn is_derivable(&self) -> (b: bool)
        ensures
            b == self.derivable(),
    {
        match self {
            Kind::Symmetric(_) => true,
            Kind::Shared(_) => true,
            _ => false,
        }
    }
}

/// A key as loaded from the keystore.
#[derive(Debug)]
pub struct Key {
    pub kind: Kind,
    pub material: Vec<u8>,
}

/// The mathematical value of a [`Key`].
pub struct KeyView {
    pub kind: Kind,
    pub material: Seq<u8>,
}

impl View for Key {
    type V = KeyView;

    open spec fn view(&self) -> KeyView {
        KeyView { kind: self.kind, material: self.material@ }
    }
}

} // verus!
