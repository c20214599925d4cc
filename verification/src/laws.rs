//! The laws of the operation pipeline, proved over the spec-level models
//! that the pipeline's contracts are stated against.
//!
//! What the native computations write is cryptography and outside this
//! crate; the laws here are exactly the pipeline's own obligations: it
//! rejects every wrongly sized buffer before native code could see it, it
//! sizes every successful output to the declared length, and it hands the
//! native bytes through unchanged, so that equalities the native algorithm
//! guarantees between its outputs survive the layer untouched.

use vstd::prelude::*;

use crate::Error;
use crate::kem::{Descriptor, spec_begin_decapsulate, spec_begin_encapsulate,
    spec_begin_encapsulate_ciphertext, spec_begin_encapsulate_shared_secret, spec_begin_keypair,
    spec_finish_decapsulate, spec_finish_encapsulate, spec_finish_encapsulate_ciphertext,
    spec_finish_encapsulate_shared_secret, spec_finish_keypair};

verus! {

/// Round-trip correctness, as far as it is the pipeline's to guarantee: the
/// pipeline neither alters nor loses a byte. When an encapsulation finishes
/// successfully with ciphertext `ct` and shared secret `ss`, a decapsulation
/// whose native computation recovers those same bytes `ss` — which is the
/// native algorithm's guarantee for a matching key pair — returns exactly
/// the shared secret the encapsulation returned.
pub proof fn lemma_round_trip(d: Descriptor, ct: Seq<u8>, ss: Seq<u8>)
    requires
        spec_finish_encapsulate(d, 0, ct, ss) is Ok,
    ensures
        spec_finish_encapsulate(d, 0, ct, ss) == Ok::<(Seq<u8>, Seq<u8>), Error>((ct, ss)),
        spec_finish_decapsulate(d, 0, ss) == Ok::<Seq<u8>, Error>(ss),
{
}

/// Split-path equivalence, as far as it is the pipeline's to guarantee: the
/// finalization of a split encapsulation and a decapsulation treat the
/// native outcome identically, so when their native computations produce the
/// same shared-secret bytes, the two paths return equal shared secrets.
pub proof fn lemma_split_path_equivalence(d: Descriptor, status: i32, ss: Seq<u8>)
    ensures
        spec_finish_encapsulate_shared_secret(d, status, ss) == spec_finish_decapsulate(
            d,
            status,
            ss,
        ),
{
}

/// Every buffer a successful operation returns has exactly the declared
/// length for its kind.
pub proof fn lemma_success_lengths(
    d: Descriptor,
    status: i32,
    pk: Seq<u8>,
    sk: Seq<u8>,
    ct: Seq<u8>,
    ss: Seq<u8>,
    es: Seq<u8>,
)
    ensures
        spec_finish_keypair(d, status, pk, sk) matches Ok(out) ==> out.0.len()
            == d.length_public_key && out.1.len() == d.length_secret_key,
        spec_finish_encapsulate(d, status, ct, ss) matches Ok(out) ==> out.0.len()
            == d.length_ciphertext && out.1.len() == d.length_shared_secret,
        spec_finish_encapsulate_ciphertext(d, status, ct, es) matches Ok(out) ==> out.0.len()
            == d.length_ciphertext && out.1.len() == d.length_ephemeral_secret,
        spec_finish_encapsulate_shared_secret(d, status, ss) matches Ok(out) ==> out.len()
            == d.length_shared_secret,
        spec_finish_decapsulate(d, status, ss) matches Ok(out) ==> out.len()
            == d.length_shared_secret,
{
}

/// Every output buffer is pre-sized to exactly the declared length for its
/// kind, and zero-filled, before the native computation runs.
pub proof fn lemma_presized_outputs(d: Descriptor, pk: Seq<u8>, sk: Seq<u8>, ct: Seq<u8>, es: Seq<u8>)
    ensures
        spec_begin_keypair(d).0.len() == d.length_public_key,
        spec_begin_keypair(d).1.len() == d.length_secret_key,
        spec_begin_encapsulate(d, pk) matches Ok(bufs) ==> bufs.0.len() == d.length_ciphertext
            && bufs.1.len() == d.length_shared_secret,
        spec_begin_encapsulate_ciphertext(d, pk) matches Ok(bufs) ==> bufs.0.len()
            == d.length_ciphertext && bufs.1.len() == d.length_ephemeral_secret,
        spec_begin_encapsulate_shared_secret(d, ct, es, pk) matches Ok(buf) ==> buf.len()
            == d.length_shared_secret,
        spec_begin_decapsulate(d, sk, ct) matches Ok(buf) ==> buf.len() == d.length_shared_secret,
{
}

/// A buffer of any length other than the declared one is rejected with
/// `InvalidLength` before the native computation could run, and no output is
/// produced.
pub proof fn lemma_wrong_length_rejected(d: Descriptor, pk: Seq<u8>, sk: Seq<u8>, ct: Seq<u8>, es: Seq<u8>)
    ensures
        pk.len() != d.length_public_key ==> spec_begin_encapsulate(d, pk) == Err::<
            (Seq<u8>, Seq<u8>),
            Error,
        >(Error::InvalidLength),
        pk.len() != d.length_public_key ==> spec_begin_encapsulate_ciphertext(d, pk) == Err::<
            (Seq<u8>, Seq<u8>),
            Error,
        >(Error::InvalidLength),
        pk.len() != d.length_public_key || ct.len() != d.length_ciphertext || es.len()
            != d.length_ephemeral_secret ==> spec_begin_encapsulate_shared_secret(d, ct, es, pk)
            == Err::<Seq<u8>, Error>(Error::InvalidLength),
        sk.len() != d.length_secret_key || ct.len() != d.length_ciphertext
            ==> spec_begin_decapsulate(d, sk, ct) == Err::<Seq<u8>, Error>(Error::InvalidLength),
{
}

/// The finishing phase upholds the same discipline: a filled buffer handed
/// back with other than its declared length is refused, whatever the native
/// status said.
pub proof fn lemma_finish_rejects_wrong_length(
    d: Descriptor,
    status: i32,
    pk: Seq<u8>,
    sk: Seq<u8>,
    ct: Seq<u8>,
    ss: Seq<u8>,
    es: Seq<u8>,
)
    ensures
        pk.len() != d.length_public_key || sk.len() != d.length_secret_key ==> spec_finish_keypair(
            d,
            status,
            pk,
            sk,
        ) == Err::<(Seq<u8>, Seq<u8>), Error>(Error::InvalidLength),
        ct.len() != d.length_ciphertext || ss.len() != d.length_shared_secret
            ==> spec_finish_encapsulate(d, status, ct, ss) == Err::<(Seq<u8>, Seq<u8>), Error>(
            Error::InvalidLength,
        ),
        ct.len() != d.length_ciphertext || es.len() != d.length_ephemeral_secret
            ==> spec_finish_encapsulate_ciphertext(d, status, ct, es) == Err::<
            (Seq<u8>, Seq<u8>),
            Error,
        >(Error::InvalidLength),
        ss.len() != d.length_shared_secret ==> spec_finish_encapsulate_shared_secret(
            d,
            status,
            ss,
        ) == Err::<Seq<u8>, Error>(Error::InvalidLength),
        ss.len() != d.length_shared_secret ==> spec_finish_decapsulate(d, status, ss) == Err::<
            Seq<u8>,
            Error,
        >(Error::InvalidLength),
{
}

/// A non-success native status on correctly sized buffers surfaces as
/// `OperationFailed`, and no output is produced.
pub proof fn lemma_native_failure_surfaces(
    d: Descriptor,
    status: i32,
    pk: Seq<u8>,
    sk: Seq<u8>,
    ct: Seq<u8>,
    ss: Seq<u8>,
    es: Seq<u8>,
)
    requires
        status != 0,
        pk.len() == d.length_public_key,
        sk.len() == d.length_secret_key,
        ct.len() == d.length_ciphertext,
        ss.len() == d.length_shared_secret,
        es.len() == d.length_ephemeral_secret,
    ensures
        spec_finish_keypair(d, status, pk, sk) == Err::<(Seq<u8>, Seq<u8>), Error>(
            Error::OperationFailed,
        ),
        spec_finish_encapsulate(d, status, ct, ss) == Err::<(Seq<u8>, Seq<u8>), Error>(
            Error::OperationFailed,
        ),
        spec_finish_encapsulate_ciphertext(d, status, ct, es) == Err::<(Seq<u8>, Seq<u8>), Error>(
            Error::OperationFailed,
        ),
        spec_finish_encapsulate_shared_secret(d, status, ss) == Err::<Seq<u8>, Error>(
            Error::OperationFailed,
        ),
        spec_finish_decapsulate(d, status, ss) == Err::<Seq<u8>, Error>(Error::OperationFailed),
{
}

} // verus!
