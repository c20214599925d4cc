//! The KEM handle and the validated operation pipeline.
//!
//! A [`Kem`] carries the metadata of one acquired native algorithm
//! descriptor: the declared length of each buffer kind, the claimed security
//! level and the IND-CCA flag. The descriptor's computation entry points run
//! in native code outside this crate, so every operation is split into two
//! verified phases around the one unverifiable step:
//!
//! * a `begin_` phase that validates every supplied buffer against its
//!   declared length — rejecting any mismatch with
//!   [`Error::InvalidLength`] before the native code could ever see it —
//!   and pre-sizes every output buffer to its declared length, zero-filled;
//! * a `finish_` phase that takes the status code the native entry point
//!   returned together with the buffers it filled, translates the status,
//!   and finalizes the outputs into their semantic types, again refusing any
//!   buffer whose length is not the declared one.
//!
//! Each phase's contract equates its result with a spec-level model of the
//! phase, and the laws in [`crate::laws`] are proved over those models.

use vstd::prelude::*;

use crate::Error;
use crate::algorithm::Algorithm;
use crate::buffer::{Ciphertext, CiphertextRef, EphemeralSecret, EphemeralSecretRef, PublicKey,
    PublicKeyRef, SecretKey, SecretKeyRef, SharedSecret, SharedSecretRef};
use crate::spec_status_to_result;
use crate::status_to_result;

verus! {

/// The read-only metadata of an acquired native algorithm descriptor.
///
/// The native acquisition call either yields these fields, fixed for the
/// descriptor's lifetime, or signals that the algorithm is disabled in the
/// linked build; there is no partially constructed state.
#[derive(Clone, Debug)]
pub struct Descriptor {
    /// The version text of the native implementation.
    pub version: String,
    /// The claimed NIST security level.
    pub claimed_nist_level: u8,
    /// Whether the algorithm is IND-CCA secure.
    pub ind_cca: bool,
    /// The declared public-key length in bytes.
    pub length_public_key: usize,
    /// The declared secret-key length in bytes.
    pub length_secret_key: usize,
    /// The declared ciphertext length in bytes.
    pub length_ciphertext: usize,
    /// The declared shared-secret length in bytes.
    pub length_shared_secret: usize,
    /// The declared ephemeral-secret length in bytes.
    pub length_ephemeral_secret: usize,
}

/// A sequence of `n` zero bytes: the pre-sized, not-yet-filled state of an
/// output buffer.
pub open spec fn zero_bytes(n: nat) -> Seq<u8> {
    Seq::new(n, |i: int| 0u8)
}

/// A zero-filled vector of length `n`.
fn zero_vec(n: usize) -> (v: Vec<u8>)
    ensures
        v@ == zero_bytes(n as nat),
{
    let mut v: Vec<u8> = Vec::new();
    while v.len() < n
        invariant
            v@.len() <= n,
            forall|j: int| 0 <= j < v@.len() ==> v@[j] == 0u8,
        decreases n - v@.len(),
    {
        v.push(0u8);
    }
    proof {
        assert(v@ =~= zero_bytes(n as nat));
    }
    v
}

// --- Spec-level models of the pipeline phases ---------------------------

/// Phase one of `keypair`: both outputs pre-sized to their declared lengths.
/// Key generation takes no caller-supplied buffer, so nothing can be
/// rejected.
pub open spec fn spec_begin_keypair(d: Descriptor) -> (Seq<u8>, Seq<u8>) {
    (zero_bytes(d.length_public_key as nat), zero_bytes(d.length_secret_key as nat))
}

/// Phase two of `keypair`: refuse buffers of other than the declared
/// lengths, translate the native status, and on success finalize exactly the
/// bytes native key generation wrote.
pub open spec fn spec_finish_keypair(d: Descriptor, status: i32, pk: Seq<u8>, sk: Seq<u8>) -> Result<
    (Seq<u8>, Seq<u8>),
    Error,
> {
    if pk.len() != d.length_public_key || sk.len() != d.length_secret_key {
        Err(Error::InvalidLength)
    } else if status != 0 {
        Err(Error::OperationFailed)
    } else {
        Ok((pk, sk))
    }
}

/// Phase one of `encapsulate`: reject a public key of other than the
/// declared length; otherwise pre-size the ciphertext and shared-secret
/// outputs.
pub open spec fn spec_begin_encapsulate(d: Descriptor, pk: Seq<u8>) -> Result<
    (Seq<u8>, Seq<u8>),
    Error,
> {
    if pk.len() != d.length_public_key {
        Err(Error::InvalidLength)
    } else {
        Ok((zero_bytes(d.length_ciphertext as nat), zero_bytes(d.length_shared_secret as nat)))
    }
}

/// Phase two of `encapsulate`: refuse buffers of other than the declared
/// lengths, translate the native status, and on success finalize exactly the
/// bytes native encapsulation wrote.
pub open spec fn spec_finish_encapsulate(d: Descriptor, status: i32, ct: Seq<u8>, ss: Seq<u8>) -> Result<
    (Seq<u8>, Seq<u8>),
    Error,
> {
    if ct.len() != d.length_ciphertext || ss.len() != d.length_shared_secret {
        Err(Error::InvalidLength)
    } else if status != 0 {
        Err(Error::OperationFailed)
    } else {
        Ok((ct, ss))
    }
}

/// Phase one of `encapsulate_ciphertext` (the split encapsulation path):
/// the same validation as `encapsulate`, with an ephemeral-secret output in
/// place of the finished shared secret.
pub open spec fn spec_begin_encapsulate_ciphertext(d: Descriptor, pk: Seq<u8>) -> Result<
    (Seq<u8>, Seq<u8>),
    Error,
> {
    if pk.len() != d.length_public_key {
        Err(Error::InvalidLength)
    } else {
        Ok(
            (
                zero_bytes(d.length_ciphertext as nat),
                zero_bytes(d.length_ephemeral_secret as nat),
            ),
        )
    }
}

/// Phase two of `encapsulate_ciphertext`.
pub open spec fn spec_finish_encapsulate_ciphertext(
    d: Descriptor,
    status: i32,
    ct: Seq<u8>,
    es: Seq<u8>,
) -> Result<(Seq<u8>, Seq<u8>), Error> {
    if ct.len() != d.length_ciphertext || es.len() != d.length_ephemeral_secret {
        Err(Error::InvalidLength)
    } else if status != 0 {
        Err(Error::OperationFailed)
    } else {
        Ok((ct, es))
    }
}

/// Phase one of `encapsulate_shared_secret` (finalizing a split
/// encapsulation): validate all three inputs, each against its own declared
/// length, before anything else; otherwise pre-size the shared-secret
/// output.
pub open spec fn spec_begin_encapsulate_shared_secret(
    d: Descriptor,
    ct: Seq<u8>,
    es: Seq<u8>,
    pk: Seq<u8>,
) -> Result<Seq<u8>, Error> {
    if pk.len() != d.length_public_key {
        Err(Error::InvalidLength)
    } else if ct.len() != d.length_ciphertext {
        Err(Error::InvalidLength)
    } else if es.len() != d.length_ephemeral_secret {
        Err(Error::InvalidLength)
    } else {
        Ok(zero_bytes(d.length_shared_secret as nat))
    }
}

/// Phase two of `encapsulate_shared_secret`: on success, exactly the bytes
/// the native computation wrote become the shared secret.
pub open spec fn spec_finish_encapsulate_shared_secret(
    d: Descriptor,
    status: i32,
    ss: Seq<u8>,
) -> Result<Seq<u8>, Error> {
    if ss.len() != d.length_shared_secret {
        Err(Error::InvalidLength)
    } else if status != 0 {
        Err(Error::OperationFailed)
    } else {
        Ok(ss)
    }
}

/// Phase one of `decapsulate`: reject a secret key or a ciphertext of other
/// than its declared length; otherwise pre-size the shared-secret output.
pub open spec fn spec_begin_decapsulate(d: Descriptor, sk: Seq<u8>, ct: Seq<u8>) -> Result<
    Seq<u8>,
    Error,
> {
    if sk.len() != d.length_secret_key || ct.len() != d.length_ciphertext {
        Err(Error::InvalidLength)
    } else {
        Ok(zero_bytes(d.length_shared_secret as nat))
    }
}

/// Phase two of `decapsulate`: on success, exactly the bytes native
/// decapsulation recovered become the shared secret.
pub open spec fn spec_finish_decapsulate(d: Descriptor, status: i32, ss: Seq<u8>) -> Result<
    Seq<u8>,
    Error,
> {
    if ss.len() != d.length_shared_secret {
        Err(Error::InvalidLength)
    } else if status != 0 {
        Err(Error::OperationFailed)
    } else {
        Ok(ss)
    }
}

// --- The handle ---------------------------------------------------------

/// A handle to one KEM algorithm: the metadata of its acquired native
/// descriptor.
///
/// A handle is created only by [`Kem::new`] from a successful acquisition
/// and is immutable afterwards, so every operation takes it by shared
/// reference and it is safe to share across threads; no operation carries
/// per-call state inside the handle.
pub struct Kem {
    algorithm: Algorithm,
    descriptor: Descriptor,
}

impl Kem {
    /// The algorithm this handle was created for.
    pub closed spec fn spec_algorithm(&self) -> Algorithm {
        self.algorithm
    }

    /// The descriptor metadata this handle carries.
    pub closed spec fn spec_descriptor(&self) -> Descriptor {
        self.descriptor
    }

    /// Construct a handle from the outcome of the native acquisition call:
    /// the descriptor's metadata when the algorithm is available in the
    /// linked build, or nothing when it is not.
    pub fn new(algorithm: Algorithm, acquired: Option<Descriptor>) -> (r: Result<Kem, Error>)
        ensures
            (match acquired {
                Some(d) => r matches Ok(kem) && kem.spec_algorithm() == algorithm
                    && kem.spec_descriptor() == d,
                None => r == Err::<Kem, Error>(Error::AlgorithmDisabled),
            }),
    {
        match acquired {
            Some(descriptor) => Ok(Kem { algorithm, descriptor }),
            None => Err(Error::AlgorithmDisabled),
        }
    }

    /// Get the algorithm used by this `Kem`.
    pub fn algorithm(&self) -> (r: Algorithm)
        ensures
            r == self.spec_algorithm(),
    {
        self.algorithm
    }

    /// Get the version of the native implementation.
    pub fn version(&self) -> (r: &str)
        ensures
            r@ == self.spec_descriptor().version@,
    {
        self.descriptor.version.as_str()
    }

    /// Get the claimed NIST level.
    pub fn claimed_nist_level(&self) -> (r: u8)
        ensures
            r == self.spec_descriptor().claimed_nist_level,
    {
        self.descriptor.claimed_nist_level
    }

    /// Is the algorithm IND-CCA secure?
    pub fn is_ind_cca(&self) -> (r: bool)
        ensures
            r == self.spec_descriptor().ind_cca,
    {
        self.descriptor.ind_cca
    }

    /// Get the declared length of the public key.
    pub fn length_public_key(&self) -> (r: usize)
        ensures
            r == self.spec_descriptor().length_public_key,
    {
        self.descriptor.length_public_key
    }

    /// Get the declared length of the secret key.
    pub fn length_secret_key(&self) -> (r: usize)
        ensures
            r == self.spec_descriptor().length_secret_key,
    {
        self.descriptor.length_secret_key
    }

    /// Get the declared length of the ciphertext.
    pub fn length_ciphertext(&self) -> (r: usize)
        ensures
            r == self.spec_descriptor().length_ciphertext,
    {
        self.descriptor.length_ciphertext
    }

    /// Get the declared length of a shared secret.
    pub fn length_shared_secret(&self) -> (r: usize)
        ensures
            r == self.spec_descriptor().length_shared_secret,
    {
        self.descriptor.length_shared_secret
    }

    /// Get the declared length of an ephemeral secret.
    pub fn length_ephemeral_secret(&self) -> (r: usize)
        ensures
            r == self.spec_descriptor().length_ephemeral_secret,
    {
        self.descriptor.length_ephemeral_secret
    }

    /// Obtain a borrowed secret key from bytes.
    ///
    /// Returns `None` if the supplied slice is not exactly the declared
    /// secret-key length.
    pub fn secret_key_from_bytes<'a>(&self, buf: &'a [u8]) -> (r: Option<SecretKeyRef<'a>>)
        ensures
            (match r {
                Some(k) => buf@.len() == self.spec_descriptor().length_secret_key && k@ == buf@,
                None => buf@.len() != self.spec_descriptor().length_secret_key,
            }),
    {
        if self.length_secret_key() != buf.len() {
            None
        } else {
            Some(SecretKeyRef::new(buf))
        }
    }

    /// Obtain a borrowed public key from bytes.
    ///
    /// Returns `None` if the supplied slice is not exactly the declared
    /// public-key length.
    pub fn public_key_from_bytes<'a>(&self, buf: &'a [u8]) -> (r: Option<PublicKeyRef<'a>>)
        ensures
            (match r {
                Some(k) => buf@.len() == self.spec_descriptor().length_public_key && k@ == buf@,
                None => buf@.len() != self.spec_descriptor().length_public_key,
            }),
    {
        if self.length_public_key() != buf.len() {
            None
        } else {
            Some(PublicKeyRef::new(buf))
        }
    }

    /// Obtain a borrowed ciphertext from bytes.
    ///
    /// Returns `None` if the supplied slice is not exactly the declared
    /// ciphertext length.
    pub fn ciphertext_from_bytes<'a>(&self, buf: &'a [u8]) -> (r: Option<CiphertextRef<'a>>)
        ensures
            (match r {
                Some(c) => buf@.len() == self.spec_descriptor().length_ciphertext && c@ == buf@,
                None => buf@.len() != self.spec_descriptor().length_ciphertext,
            }),
    {
        if self.length_ciphertext() != buf.len() {
            None
        } else {
            Some(CiphertextRef::new(buf))
        }
    }

    /// Obtain a borrowed shared secret from bytes.
    ///
    /// Returns `None` if the supplied slice is not exactly the declared
    /// shared-secret length.
    pub fn shared_secret_from_bytes<'a>(&self, buf: &'a [u8]) -> (r: Option<SharedSecretRef<'a>>)
        ensures
            (match r {
                Some(s) => buf@.len() == self.spec_descriptor().length_shared_secret && s@ == buf@,
                None => buf@.len() != self.spec_descriptor().length_shared_secret,
            }),
    {
        if self.length_shared_secret() != buf.len() {
            None
        } else {
            Some(SharedSecretRef::new(buf))
        }
    }

    /// Obtain a borrowed ephemeral secret from bytes.
    ///
    /// Returns `None` if the supplied slice is not exactly the declared
    /// ephemeral-secret length.
    pub fn ephemeral_secret_from_bytes<'a>(&self, buf: &'a [u8]) -> (r: Option<
        EphemeralSecretRef<'a>,
    >)
        ensures
            (match r {
                Some(s) => buf@.len() == self.spec_descriptor().length_ephemeral_secret && s@
                    == buf@,
                None => buf@.len() != self.spec_descriptor().length_ephemeral_secret,
            }),
    {
        if self.length_ephemeral_secret() != buf.len() {
            None
        } else {
            Some(EphemeralSecretRef::new(buf))
        }
    }

    /// Translate the outcome of the algorithm's native setup hook.
    pub fn init(&self, hook_status: i32) -> (r: Result<(), Error>)
        ensures
            r == spec_status_to_result(hook_status),
    {
        status_to_result(hook_status)
    }

    /// Translate the outcome of the algorithm's native teardown hook.
    pub fn deinit(&self, hook_status: i32) -> (r: Result<(), Error>)
        ensures
            r == spec_status_to_result(hook_status),
    {
        status_to_result(hook_status)
    }

    /// Phase one of `keypair`: pre-size the public-key and secret-key output
    /// buffers to their declared lengths, zero-filled, for native key
    /// generation to fill. Key generation consumes no caller-supplied
    /// buffer, so nothing can be rejected.
    pub fn begin_keypair(&self) -> (r: (Vec<u8>, Vec<u8>))
        ensures
            (r.0@, r.1@) == spec_begin_keypair(self.spec_descriptor()),
    {
        let pk = zero_vec(self.descriptor.length_public_key);
        let sk = zero_vec(self.descriptor.length_secret_key);
        (pk, sk)
    }

    /// Phase two of `keypair`: translate the native status and finalize the
    /// filled buffers into an owned key pair. Succeeds exactly when the
    /// status is success and both buffers have their declared lengths, and
    /// then returns their bytes unchanged.
    pub fn finish_keypair(&self, status: i32, public_key: Vec<u8>, secret_key: Vec<u8>) -> (r:
        Result<(PublicKey, SecretKey), Error>)
        ensures
            (
            {
                let m = spec_finish_keypair(self.spec_descriptor(), status, public_key@, secret_key@);
                match r {
                    Ok(out) => m == Ok::<_, Error>((out.0@, out.1@)),
                    Err(e) => m == Err::<(Seq<u8>, Seq<u8>), Error>(e),
                }
            }),
    {
        if public_key.len() != self.descriptor.length_public_key || secret_key.len()
            != self.descriptor.length_secret_key {
            return Err(Error::InvalidLength);
        }
        status_to_result(status)?;
        Ok((PublicKey::from_vec(public_key), SecretKey::from_vec(secret_key)))
    }

    /// Phase one of `encapsulate`: reject a public key whose length is not
    /// the declared one — before native code could ever see it — and
    /// pre-size the ciphertext and shared-secret output buffers.
    pub fn begin_encapsulate(&self, pk: PublicKeyRef<'_>) -> (r: Result<(Vec<u8>, Vec<u8>), Error>)
        ensures
            (
            {
                let m = spec_begin_encapsulate(self.spec_descriptor(), pk@);
                match r {
                    Ok(bufs) => m == Ok::<_, Error>((bufs.0@, bufs.1@)),
                    Err(e) => m == Err::<(Seq<u8>, Seq<u8>), Error>(e),
                }
            }),
    {
        if pk.len() != self.length_public_key() {
            return Err(Error::InvalidLength);
        }
        let ct = zero_vec(self.descriptor.length_ciphertext);
        let ss = zero_vec(self.descriptor.length_shared_secret);
        Ok((ct, ss))
    }

    /// Phase two of `encapsulate`: translate the native status and finalize
    /// the filled buffers into an owned ciphertext and shared secret,
    /// returning their bytes unchanged.
    pub fn finish_encapsulate(&self, status: i32, ciphertext: Vec<u8>, shared_secret: Vec<u8>) -> (r:
        Result<(Ciphertext, SharedSecret), Error>)
        ensures
            (
            {
                let m = spec_finish_encapsulate(
                    self.spec_descriptor(),
                    status,
                    ciphertext@,
                    shared_secret@,
                );
                match r {
                    Ok(out) => m == Ok::<_, Error>((out.0@, out.1@)),
                    Err(e) => m == Err::<(Seq<u8>, Seq<u8>), Error>(e),
                }
            }),
    {
        if ciphertext.len() != self.descriptor.length_ciphertext || shared_secret.len()
            != self.descriptor.length_shared_secret {
            return Err(Error::InvalidLength);
        }
        status_to_result(status)?;
        Ok((Ciphertext::from_vec(ciphertext), SharedSecret::from_vec(shared_secret)))
    }

    /// Phase one of `encapsulate_ciphertext`, the split encapsulation path
    /// for protocols that must commit to a ciphertext before deriving the
    /// final shared secret: the same validation as `encapsulate`, with an
    /// ephemeral-secret output in place of the finished shared secret.
    pub fn begin_encapsulate_ciphertext(&self, pk: PublicKeyRef<'_>) -> (r: Result<
        (Vec<u8>, Vec<u8>),
        Error,
    >)
        ensures
            (
            {
                let m = spec_begin_encapsulate_ciphertext(self.spec_descriptor(), pk@);
                match r {
                    Ok(bufs) => m == Ok::<_, Error>((bufs.0@, bufs.1@)),
                    Err(e) => m == Err::<(Seq<u8>, Seq<u8>), Error>(e),
                }
            }),
    {
        if pk.len() != self.length_public_key() {
            return Err(Error::InvalidLength);
        }
        let ct = zero_vec(self.descriptor.length_ciphertext);
        let es = zero_vec(self.descriptor.length_ephemeral_secret);
        Ok((ct, es))
    }

    /// Phase two of `encapsulate_ciphertext`.
    pub fn finish_encapsulate_ciphertext(
        &self,
        status: i32,
        ciphertext: Vec<u8>,
        ephemeral_secret: Vec<u8>,
    ) -> (r: Result<(Ciphertext, EphemeralSecret), Error>)
        ensures
            (
            {
                let m = spec_finish_encapsulate_ciphertext(
                    self.spec_descriptor(),
                    status,
                    ciphertext@,
                    ephemeral_secret@,
                );
                match r {
                    Ok(out) => m == Ok::<_, Error>((out.0@, out.1@)),
                    Err(e) => m == Err::<(Seq<u8>, Seq<u8>), Error>(e),
                }
            }),
    {
        if ciphertext.len() != self.descriptor.length_ciphertext || ephemeral_secret.len()
            != self.descriptor.length_ephemeral_secret {
            return Err(Error::InvalidLength);
        }
        status_to_result(status)?;
        Ok((Ciphertext::from_vec(ciphertext), EphemeralSecret::from_vec(ephemeral_secret)))
    }

    /// Phase one of `encapsulate_shared_secret`, which finalizes a split
    /// encapsulation: validate the ciphertext, the ephemeral secret and the
    /// public key, each against its own declared length, and pre-size the
    /// shared-secret output.
    pub fn begin_encapsulate_shared_secret(
        &self,
        ct: CiphertextRef<'_>,
        es: EphemeralSecretRef<'_>,
        pk: PublicKeyRef<'_>,
    ) -> (r: Result<Vec<u8>, Error>)
        ensures
            (
            {
                let m = spec_begin_encapsulate_shared_secret(self.spec_descriptor(), ct@, es@, pk@);
                match r {
                    Ok(buf) => m == Ok::<_, Error>(buf@),
                    Err(e) => m == Err::<Seq<u8>, Error>(e),
                }
            }),
    {
        if pk.len() != self.length_public_key() {
            return Err(Error::InvalidLength);
        }
        if ct.len() != self.length_ciphertext() {
            return Err(Error::InvalidLength);
        }
        if es.len() != self.length_ephemeral_secret() {
            return Err(Error::InvalidLength);
        }
        Ok(zero_vec(self.descriptor.length_shared_secret))
    }

    /// Phase two of `encapsulate_shared_secret`: on success, exactly the
    /// bytes the native computation wrote become the shared secret.
    pub fn finish_encapsulate_shared_secret(&self, status: i32, shared_secret: Vec<u8>) -> (r:
        Result<SharedSecret, Error>)
        ensures
            (
            {
                let m = spec_finish_encapsulate_shared_secret(
                    self.spec_descriptor(),
                    status,
                    shared_secret@,
                );
                match r {
                    Ok(out) => m == Ok::<_, Error>(out@),
                    Err(e) => m == Err::<Seq<u8>, Error>(e),
                }
            }),
    {
        if shared_secret.len() != self.descriptor.length_shared_secret {
            return Err(Error::InvalidLength);
        }
        status_to_result(status)?;
        Ok(SharedSecret::from_vec(shared_secret))
    }

    /// Phase one of `decapsulate`: reject a secret key or a ciphertext
    /// whose length is not its declared one, and pre-size the shared-secret
    /// output.
    pub fn begin_decapsulate(&self, sk: SecretKeyRef<'_>, ct: CiphertextRef<'_>) -> (r: Result<
        Vec<u8>,
        Error,
    >)
        ensures
            (
            {
                let m = spec_begin_decapsulate(self.spec_descriptor(), sk@, ct@);
                match r {
                    Ok(buf) => m == Ok::<_, Error>(buf@),
                    Err(e) => m == Err::<Seq<u8>, Error>(e),
                }
            }),
    {
        if sk.len() != self.length_secret_key() || ct.len() != self.length_ciphertext() {
            return Err(Error::InvalidLength);
        }
        Ok(zero_vec(self.descriptor.length_shared_secret))
    }

    /// Phase two of `decapsulate`: on success, exactly the bytes native
    /// decapsulation recovered become the shared secret.
    pub fn finish_decapsulate(&self, status: i32, shared_secret: Vec<u8>) -> (r: Result<
        SharedSecret,
        Error,
    >)
        ensures
            (
            {
                let m = spec_finish_decapsulate(self.spec_descriptor(), status, shared_secret@);
                match r {
                    Ok(out) => m == Ok::<_, Error>(out@),
                    Err(e) => m == Err::<Seq<u8>, Error>(e),
                }
            }),
    {
        if shared_secret.len() != self.descriptor.length_shared_secret {
            return Err(Error::InvalidLength);
        }
        status_to_result(status)?;
        Ok(SharedSecret::from_vec(shared_secret))
    }
}

} // verus!
