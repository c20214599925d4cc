//! The semantic byte buffers: public key, secret key, ciphertext, shared
//! secret and ephemeral secret.
//!
//! Each kind comes in an owned form (an exclusively owned heap allocation,
//! produced only by a successful pipeline operation) and a borrowed form (a
//! read-only view over caller-supplied bytes, produced only by the handle's
//! length-checked factories). The kinds are distinct types on purpose: a
//! ciphertext can never be handed to an operation expecting a public key.

use vstd::prelude::*;

verus! {

/// Byte-for-byte equality of two owned byte vectors.
fn vecs_equal(a: &Vec<u8>, b: &Vec<u8>) -> (r: bool)
    ensures
        r == (a@ == b@),
{
    if a.len() != b.len() {
        return false;
    }
    let n = a.len();
    let mut i: usize = 0;
    while i < n
        invariant
            n == a@.len(),
            n == b@.len(),
            i <= n,
            forall|j: int| 0 <= j < i ==> a@[j] == b@[j],
        decreases n - i,
    {
        if a[i] != b[i] {
            return false;
        }
        i = i + 1;
    }
    proof {
        assert(a@ =~= b@);
    }
    true
}

// --- Public key ---------------------------------------------------------

/// An owned public key.
#[derive(Debug, Clone)]
pub struct PublicKey {
    pub(crate) bytes: Vec<u8>,
}

/// A borrowed public key, produced by [`crate::kem::Kem::public_key_from_bytes`].
#[derive(Debug, Clone, Copy)]
pub struct PublicKeyRef<'a> {
    pub(crate) bytes: &'a [u8],
}

impl View for PublicKey {
    type V = Seq<u8>;

    closed spec fn view(&self) -> Seq<u8> {
        self.bytes@
    }
}

impl View for PublicKeyRef<'_> {
    type V = Seq<u8>;

    closed spec fn view(&self) -> Seq<u8> {
        self.bytes@
    }
}

impl PublicKey {
    pub(crate) fn from_vec(bytes: Vec<u8>) -> (r: Self)
        ensures
            r@ == bytes@,
    {
        PublicKey { bytes }
    }

    /// The key's length in bytes.
    pub fn len(&self) -> (r: usize)
        ensures
            r == self@.len(),
    {
        self.bytes.len()
    }

    /// The key's bytes.
    pub fn as_slice(&self) -> (r: &[u8])
        ensures
            r@ == self@,
    {
        self.bytes.as_slice()
    }

    /// A borrowed view of the key.
    pub fn as_ref(&self) -> (r: PublicKeyRef<'_>)
        ensures
            r@ == self@,
    {
        PublicKeyRef { bytes: self.bytes.as_slice() }
    }

    /// Consumes the key and hands its bytes back.
    pub fn into_vec(self) -> (r: Vec<u8>)
        ensures
            r@ == self@,
    {
        self.bytes
    }
}

impl<'a> PublicKeyRef<'a> {
    pub(crate) fn new(bytes: &'a [u8]) -> (r: Self)
        ensures
            r@ == bytes@,
    {
        PublicKeyRef { bytes }
    }

    /// The key's length in bytes.
    pub fn len(&self) -> (r: usize)
        ensures
            r == self@.len(),
    {
        self.bytes.len()
    }

    /// The key's bytes.
    pub fn as_slice(&self) -> (r: &'a [u8])
        ensures
            r@ == self@,
    {
        self.bytes
    }
}

impl PartialEq for PublicKey {
    fn eq(&self, other: &Self) -> (r: bool) {
        vecs_equal(&self.bytes, &other.bytes)
    }
}

impl Eq for PublicKey {}

impl vstd::std_specs::cmp::PartialEqSpecImpl for PublicKey {
    open spec fn obeys_eq_spec() -> bool {
        true
    }

    open spec fn eq_spec(&self, other: &Self) -> bool {
        self@ == other@
    }
}

// --- Secret key ---------------------------------------------------------

/// An owned secret key.
#[derive(Debug, Clone)]
pub struct SecretKey {
    pub(crate) bytes: Vec<u8>,
}

/// A borrowed secret key, produced by [`crate::kem::Kem::secret_key_from_bytes`].
#[derive(Debug, Clone, Copy)]
pub struct SecretKeyRef<'a> {
    pub(crate) bytes: &'a [u8],
}

impl View for SecretKey {
    type V = Seq<u8>;

    closed spec fn view(&self) -> Seq<u8> {
        self.bytes@
    }
}

impl View for SecretKeyRef<'_> {
    type V = Seq<u8>;

    closed spec fn view(&self) -> Seq<u8> {
        self.bytes@
    }
}

impl SecretKey {
    pub(crate) fn from_vec(bytes: Vec<u8>) -> (r: Self)
        ensures
            r@ == bytes@,
    {
        SecretKey { bytes }
    }

    /// The key's length in bytes.
    pub fn len(&self) -> (r: usize)
        ensures
            r == self@.len(),
    {
        self.bytes.len()
    }

    /// The key's bytes.
    pub fn as_slice(&self) -> (r: &[u8])
        ensures
            r@ == self@,
    {
        self.bytes.as_slice()
    }

    /// A borrowed view of the key.
    pub fn as_ref(&self) -> (r: SecretKeyRef<'_>)
        ensures
            r@ == self@,
    {
        SecretKeyRef { bytes: self.bytes.as_slice() }
    }

    /// Consumes the key and hands its bytes back.
    pub fn into_vec(self) -> (r: Vec<u8>)
        ensures
            r@ == self@,
    {
        self.bytes
    }
}

impl<'a> SecretKeyRef<'a> {
    pub(crate) fn new(bytes: &'a [u8]) -> (r: Self)
        ensures
            r@ == bytes@,
    {
        SecretKeyRef { bytes }
    }

    /// The key's length in bytes.
    pub fn len(&self) -> (r: usize)
        ensures
            r == self@.len(),
    {
        self.bytes.len()
    }

    /// The key's bytes.
    pub fn as_slice(&self) -> (r: &'a [u8])
        ensures
            r@ == self@,
    {
        self.bytes
    }
}

impl PartialEq for SecretKey {
    fn eq(&self, other: &Self) -> (r: bool) {
        vecs_equal(&self.bytes, &other.bytes)
    }
}

impl Eq for SecretKey {}

impl vstd::std_specs::cmp::PartialEqSpecImpl for SecretKey {
    open spec fn obeys_eq_spec() -> bool {
        true
    }

    open spec fn eq_spec(&self, other: &Self) -> bool {
        self@ == other@
    }
}

// --- Ciphertext ---------------------------------------------------------

/// An owned ciphertext.
#[derive(Debug, Clone)]
pub struct Ciphertext {
    pub(crate) bytes: Vec<u8>,
}

/// A borrowed ciphertext, produced by [`crate::kem::Kem::ciphertext_from_bytes`].
#[derive(Debug, Clone, Copy)]
pub struct CiphertextRef<'a> {
    pub(crate) bytes: &'a [u8],
}

impl View for Ciphertext {
    type V = Seq<u8>;

    closed spec fn view(&self) -> Seq<u8> {
        self.bytes@
    }
}

impl View for CiphertextRef<'_> {
    type V = Seq<u8>;

    closed spec fn view(&self) -> Seq<u8> {
        self.bytes@
    }
}

impl Ciphertext {
    pub(crate) fn from_vec(bytes: Vec<u8>) -> (r: Self)
        ensures
            r@ == bytes@,
    {
        Ciphertext { bytes }
    }

    /// The ciphertext's length in bytes.
    pub fn len(&self) -> (r: usize)
        ensures
            r == self@.len(),
    {
        self.bytes.len()
    }

    /// The ciphertext's bytes.
    pub fn as_slice(&self) -> (r: &[u8])
        ensures
            r@ == self@,
    {
        self.bytes.as_slice()
    }

    /// A borrowed view of the ciphertext.
    pub fn as_ref(&self) -> (r: CiphertextRef<'_>)
        ensures
            r@ == self@,
    {
        CiphertextRef { bytes: self.bytes.as_slice() }
    }

    /// Consumes the ciphertext and hands its bytes back.
    pub fn into_vec(self) -> (r: Vec<u8>)
        ensures
            r@ == self@,
    {
        self.bytes
    }
}

impl<'a> CiphertextRef<'a> {
    pub(crate) fn new(bytes: &'a [u8]) -> (r: Self)
        ensures
            r@ == bytes@,
    {
        CiphertextRef { bytes }
    }

    /// The ciphertext's length in bytes.
    pub fn len(&self) -> (r: usize)
        ensures
            r == self@.len(),
    {
        self.bytes.len()
    }

    /// The ciphertext's bytes.
    pub fn as_slice(&self) -> (r: &'a [u8])
        ensures
            r@ == self@,
    {
        self.bytes
    }
}

impl PartialEq for Ciphertext {
    fn eq(&self, other: &Self) -> (r: bool) {
        vecs_equal(&self.bytes, &other.bytes)
    }
}

impl Eq for Ciphertext {}

impl vstd::std_specs::cmp::PartialEqSpecImpl for Ciphertext {
    open spec fn obeys_eq_spec() -> bool {
        true
    }

    open spec fn eq_spec(&self, other: &Self) -> bool {
        self@ == other@
    }
}

// --- Shared secret ------------------------------------------------------

/// An owned shared secret.
#[derive(Debug, Clone)]
pub struct SharedSecret {
    pub(crate) bytes: Vec<u8>,
}

/// A borrowed shared secret, produced by [`crate::kem::Kem::shared_secret_from_bytes`].
#[derive(Debug, Clone, Copy)]
pub struct SharedSecretRef<'a> {
    pub(crate) bytes: &'a [u8],
}

impl View for SharedSecret {
    type V = Seq<u8>;

    closed spec fn view(&self) -> Seq<u8> {
        self.bytes@
    }
}

impl View for SharedSecretRef<'_> {
    type V = Seq<u8>;

    closed spec fn view(&self) -> Seq<u8> {
        self.bytes@
    }
}

impl SharedSecret {
    pub(crate) fn from_vec(bytes: Vec<u8>) -> (r: Self)
        ensures
            r@ == bytes@,
    {
        SharedSecret { bytes }
    }

    /// The secret's length in bytes.
    pub fn len(&self) -> (r: usize)
        ensures
            r == self@.len(),
    {
        self.bytes.len()
    }

    /// The secret's bytes.
    pub fn as_slice(&self) -> (r: &[u8])
        ensures
            r@ == self@,
    {
        self.bytes.as_slice()
    }

    /// A borrowed view of the secret.
    pub fn as_ref(&self) -> (r: SharedSecretRef<'_>)
        ensures
            r@ == self@,
    {
        SharedSecretRef { bytes: self.bytes.as_slice() }
    }

    /// Consumes the secret and hands its bytes back.
    pub fn into_vec(self) -> (r: Vec<u8>)
        ensures
            r@ == self@,
    {
        self.bytes
    }
}

impl<'a> SharedSecretRef<'a> {
    pub(crate) fn new(bytes: &'a [u8]) -> (r: Self)
        ensures
            r@ == bytes@,
    {
        SharedSecretRef { bytes }
    }

    /// The secret's length in bytes.
    pub fn len(&self) -> (r: usize)
        ensures
            r == self@.len(),
    {
        self.bytes.len()
    }

    /// The secret's bytes.
    pub fn as_slice(&self) -> (r: &'a [u8])
        ensures
            r@ == self@,
    {
        self.bytes
    }
}

impl PartialEq for SharedSecret {
    fn eq(&self, other: &Self) -> (r: bool) {
        vecs_equal(&self.bytes, &other.bytes)
    }
}

impl Eq for SharedSecret {}

impl vstd::std_specs::cmp::PartialEqSpecImpl for SharedSecret {
    open spec fn obeys_eq_spec() -> bool {
        true
    }

    open spec fn eq_spec(&self, other: &Self) -> bool {
        self@ == other@
    }
}

// --- Ephemeral secret ---------------------------------------------------

/// An owned ephemeral secret, the intermediate output of the split
/// encapsulation path.
#[derive(Debug, Clone)]
pub struct EphemeralSecret {
    pub(crate) bytes: Vec<u8>,
}

/// A borrowed ephemeral secret, produced by
/// [`crate::kem::Kem::ephemeral_secret_from_bytes`].
#[derive(Debug, Clone, Copy)]
pub struct EphemeralSecretRef<'a> {
    pub(crate) bytes: &'a [u8],
}

impl View for EphemeralSecret {
    type V = Seq<u8>;

    closed spec fn view(&self) -> Seq<u8> {
        self.bytes@
    }
}

impl View for EphemeralSecretRef<'_> {
    type V = Seq<u8>;

    closed spec fn view(&self) -> Seq<u8> {
        self.bytes@
    }
}

impl EphemeralSecret {
    pub(crate) fn from_vec(bytes: Vec<u8>) -> (r: Self)
        ensures
            r@ == bytes@,
    {
        EphemeralSecret { bytes }
    }

    /// The secret's length in bytes.
    pub fn len(&self) -> (r: usize)
        ensures
            r == self@.len(),
    {
        self.bytes.len()
    }

    /// The secret's bytes.
    pub fn as_slice(&self) -> (r: &[u8])
        ensures
            r@ == self@,
    {
        self.bytes.as_slice()
    }

    /// A borrowed view of the secret.
    pub fn as_ref(&self) -> (r: EphemeralSecretRef<'_>)
        ensures
            r@ == self@,
    {
        EphemeralSecretRef { bytes: self.bytes.as_slice() }
    }

    /// Consumes the secret and hands its bytes back.
    pub fn into_vec(self) -> (r: Vec<u8>)
        ensures
            r@ == self@,
    {
        self.bytes
    }
}

impl<'a> EphemeralSecretRef<'a> {
    pub(crate) fn new(bytes: &'a [u8]) -> (r: Self)
        ensures
            r@ == bytes@,
    {
        EphemeralSecretRef { bytes }
    }

    /// The secret's length in bytes.
    pub fn len(&self) -> (r: usize)
        ensures
            r == self@.len(),
    {
        self.bytes.len()
    }

    /// The secret's bytes.
    pub fn as_slice(&self) -> (r: &'a [u8])
        ensures
            r@ == self@,
    {
        self.bytes
    }
}

impl PartialEq for EphemeralSecret {
    fn eq(&self, other: &Self) -> (r: bool) {
        vecs_equal(&self.bytes, &other.bytes)
    }
}

impl Eq for EphemeralSecret {}

impl vstd::std_specs::cmp::PartialEqSpecImpl for EphemeralSecret {
    open spec fn obeys_eq_spec() -> bool {
        true
    }

    open spec fn eq_spec(&self, other: &Self) -> bool {
        self@ == other@
    }
}

} // verus!
