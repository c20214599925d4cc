use oqs::Error;
use oqs::algorithm::Algorithm;
use oqs::kem::{Descriptor, Kem};
use oqs::status_to_result;

/// The fixed-scenario descriptor: a public key of 800 bytes and a shared
/// secret of 32 bytes.
fn scenario_descriptor() -> Descriptor {
    Descriptor {
        version: String::from("sim-1"),
        claimed_nist_level: 1,
        ind_cca: true,
        length_public_key: 800,
        length_secret_key: 1632,
        length_ciphertext: 768,
        length_shared_secret: 32,
        length_ephemeral_secret: 24,
    }
}

fn scenario_kem() -> Kem {
    Kem::new(Algorithm::Kyber512, Some(scenario_descriptor())).unwrap()
}

/// Stands in for a native computation: fills a pre-sized output buffer with
/// a recognizable pattern.
fn fill(buf: &mut [u8], seed: u8) {
    for (i, b) in buf.iter_mut().enumerate() {
        *b = seed.wrapping_add(i as u8);
    }
}

#[test]
fn status_translation() {
    assert!(status_to_result(0).is_ok());
    assert!(matches!(status_to_result(1), Err(Error::OperationFailed)));
    assert!(matches!(status_to_result(-1), Err(Error::OperationFailed)));
}

#[test]
fn keypair_buffers_are_presized_and_zeroed() {
    let kem = scenario_kem();
    let (pk_buf, sk_buf) = kem.begin_keypair();
    assert_eq!(pk_buf.len(), 800);
    assert_eq!(sk_buf.len(), 1632);
    assert!(pk_buf.iter().all(|b| *b == 0));
    assert!(sk_buf.iter().all(|b| *b == 0));
}

#[test]
fn keypair_finalizes_native_bytes_unchanged() {
    let kem = scenario_kem();
    let (mut pk_buf, mut sk_buf) = kem.begin_keypair();
    fill(&mut pk_buf, 10);
    fill(&mut sk_buf, 20);
    let expected_pk = pk_buf.clone();
    let expected_sk = sk_buf.clone();
    let (pk, sk) = kem.finish_keypair(0, pk_buf, sk_buf).unwrap();
    assert_eq!(pk.as_slice(), expected_pk.as_slice());
    assert_eq!(sk.as_slice(), expected_sk.as_slice());
    assert_eq!(pk.len(), 800);
    assert_eq!(sk.len(), 1632);
}

#[test]
fn keypair_surfaces_native_failure() {
    let kem = scenario_kem();
    let (pk_buf, sk_buf) = kem.begin_keypair();
    let r = kem.finish_keypair(-1, pk_buf, sk_buf);
    assert!(matches!(r, Err(Error::OperationFailed)));
}

#[test]
fn finish_refuses_resized_buffers() {
    let kem = scenario_kem();
    let (mut pk_buf, sk_buf) = kem.begin_keypair();
    pk_buf.pop();
    assert!(matches!(kem.finish_keypair(0, pk_buf, sk_buf), Err(Error::InvalidLength)));
    let r = kem.finish_decapsulate(0, vec![0u8; 33]);
    assert!(matches!(r, Err(Error::InvalidLength)));
    let r = kem.finish_encapsulate(0, vec![0u8; 768], vec![0u8; 31]);
    assert!(matches!(r, Err(Error::InvalidLength)));
    let r = kem.finish_encapsulate_ciphertext(0, vec![0u8; 767], vec![0u8; 24]);
    assert!(matches!(r, Err(Error::InvalidLength)));
    let r = kem.finish_encapsulate_shared_secret(0, vec![0u8; 0]);
    assert!(matches!(r, Err(Error::InvalidLength)));
}

/// The fixed scenario: generate a key pair, check the declared lengths,
/// encapsulate, decapsulate, and compare the shared secrets byte for byte.
#[test]
fn round_trip_scenario() {
    let kem = scenario_kem();

    let (mut pk_buf, mut sk_buf) = kem.begin_keypair();
    fill(&mut pk_buf, 1);
    fill(&mut sk_buf, 2);
    let (pk, sk) = kem.finish_keypair(0, pk_buf, sk_buf).unwrap();
    assert_eq!(pk.len(), 800);

    let (mut ct_buf, mut ss_buf) = kem.begin_encapsulate(pk.as_ref()).unwrap();
    assert_eq!(ct_buf.len(), 768);
    assert_eq!(ss_buf.len(), 32);
    fill(&mut ct_buf, 3);
    fill(&mut ss_buf, 4);
    let (ct, ss_b) = kem.finish_encapsulate(0, ct_buf, ss_buf).unwrap();
    assert_eq!(ct.len(), 768);
    assert_eq!(ss_b.len(), 32);

    // A correct KEM recovers the same shared-secret bytes during
    // decapsulation; replay them through the decapsulation path.
    let mut ss_buf2 = kem.begin_decapsulate(sk.as_ref(), ct.as_ref()).unwrap();
    assert_eq!(ss_buf2.len(), 32);
    fill(&mut ss_buf2, 4);
    let ss_a = kem.finish_decapsulate(0, ss_buf2).unwrap();

    assert_eq!(ss_a, ss_b);
    assert_eq!(ss_a.as_slice(), ss_b.as_slice());
}

/// The split path: commit to a ciphertext first, then finalize the shared
/// secret; the result must equal what direct decapsulation yields.
#[test]
fn split_path_matches_decapsulation() {
    let kem = scenario_kem();

    let (mut pk_buf, mut sk_buf) = kem.begin_keypair();
    fill(&mut pk_buf, 5);
    fill(&mut sk_buf, 6);
    let (pk, sk) = kem.finish_keypair(0, pk_buf, sk_buf).unwrap();

    let (mut ct_buf, mut es_buf) = kem.begin_encapsulate_ciphertext(pk.as_ref()).unwrap();
    assert_eq!(ct_buf.len(), 768);
    assert_eq!(es_buf.len(), 24);
    fill(&mut ct_buf, 7);
    fill(&mut es_buf, 8);
    let (ct, es) = kem.finish_encapsulate_ciphertext(0, ct_buf, es_buf).unwrap();
    assert_eq!(es.len(), 24);

    let mut ss_buf = kem
        .begin_encapsulate_shared_secret(ct.as_ref(), es.as_ref(), pk.as_ref())
        .unwrap();
    assert_eq!(ss_buf.len(), 32);
    fill(&mut ss_buf, 9);
    let ss_split = kem.finish_encapsulate_shared_secret(0, ss_buf).unwrap();

    let mut ss_buf2 = kem.begin_decapsulate(sk.as_ref(), ct.as_ref()).unwrap();
    fill(&mut ss_buf2, 9);
    let ss_direct = kem.finish_decapsulate(0, ss_buf2).unwrap();

    assert_eq!(ss_split, ss_direct);
}

/// The negative scenario: a public key one byte shorter than declared is
/// rejected with `InvalidLength` and no buffers are produced.
#[test]
fn short_public_key_is_rejected() {
    let kem = scenario_kem();
    // A 799-byte key can only be framed as a public key by a handle that
    // declares that length; this handle then rejects it.
    let other = Kem::new(
        Algorithm::Kyber512,
        Some(Descriptor { length_public_key: 799, ..scenario_descriptor() }),
    )
    .unwrap();
    let short = vec![1u8; 799];
    let pk = other.public_key_from_bytes(&short).unwrap();
    let r = kem.begin_encapsulate(pk);
    assert!(matches!(r, Err(Error::InvalidLength)));
    let r = kem.begin_encapsulate_ciphertext(pk);
    assert!(matches!(r, Err(Error::InvalidLength)));
}

#[test]
fn decapsulation_inputs_are_validated() {
    let kem = scenario_kem();
    let sk_bytes = vec![1u8; 1632];
    let ct_bytes = vec![2u8; 768];
    let sk = kem.secret_key_from_bytes(&sk_bytes).unwrap();
    let ct = kem.ciphertext_from_bytes(&ct_bytes).unwrap();
    assert!(kem.begin_decapsulate(sk, ct).is_ok());

    let other = Kem::new(
        Algorithm::Kyber512,
        Some(Descriptor { length_secret_key: 16, length_ciphertext: 8, ..scenario_descriptor() }),
    )
    .unwrap();
    let short_sk_bytes = vec![1u8; 16];
    let short_ct_bytes = vec![2u8; 8];
    let short_sk = other.secret_key_from_bytes(&short_sk_bytes).unwrap();
    let short_ct = other.ciphertext_from_bytes(&short_ct_bytes).unwrap();
    assert!(matches!(kem.begin_decapsulate(short_sk, ct), Err(Error::InvalidLength)));
    assert!(matches!(kem.begin_decapsulate(sk, short_ct), Err(Error::InvalidLength)));
}

#[test]
fn shared_secret_finalization_validates_each_input() {
    let kem = scenario_kem();
    let ct_bytes = vec![1u8; 768];
    let es_bytes = vec![2u8; 24];
    let pk_bytes = vec![3u8; 800];
    let ct = kem.ciphertext_from_bytes(&ct_bytes).unwrap();
    let es = kem.ephemeral_secret_from_bytes(&es_bytes).unwrap();
    let pk = kem.public_key_from_bytes(&pk_bytes).unwrap();
    assert!(kem.begin_encapsulate_shared_secret(ct, es, pk).is_ok());

    let other = Kem::new(
        Algorithm::Kyber512,
        Some(Descriptor {
            length_ciphertext: 4,
            length_ephemeral_secret: 4,
            length_public_key: 4,
            ..scenario_descriptor()
        }),
    )
    .unwrap();
    let small = vec![9u8; 4];
    let bad_ct = other.ciphertext_from_bytes(&small).unwrap();
    let bad_es = other.ephemeral_secret_from_bytes(&small).unwrap();
    let bad_pk = other.public_key_from_bytes(&small).unwrap();
    assert!(matches!(
        kem.begin_encapsulate_shared_secret(bad_ct, es, pk),
        Err(Error::InvalidLength)
    ));
    assert!(matches!(
        kem.begin_encapsulate_shared_secret(ct, bad_es, pk),
        Err(Error::InvalidLength)
    ));
    assert!(matches!(
        kem.begin_encapsulate_shared_secret(ct, es, bad_pk),
        Err(Error::InvalidLength)
    ));
}

#[test]
fn encapsulation_surfaces_native_failure_without_output() {
    let kem = scenario_kem();
    let pk_bytes = vec![3u8; 800];
    let pk = kem.public_key_from_bytes(&pk_bytes).unwrap();
    let (ct_buf, ss_buf) = kem.begin_encapsulate(pk).unwrap();
    let r = kem.finish_encapsulate(-1, ct_buf, ss_buf);
    assert!(matches!(r, Err(Error::OperationFailed)));
}

#[test]
fn differing_native_bytes_give_unequal_secrets() {
    let kem = scenario_kem();
    let a = kem.finish_decapsulate(0, vec![1u8; 32]).unwrap();
    let b = kem.finish_decapsulate(0, vec![2u8; 32]).unwrap();
    assert_ne!(a, b);
    let c = kem.finish_decapsulate(0, vec![1u8; 32]).unwrap();
    assert_eq!(a, c);
}

#[test]
fn owned_buffers_expose_their_bytes() {
    let kem = scenario_kem();
    let ss = kem.finish_decapsulate(0, vec![7u8; 32]).unwrap();
    assert_eq!(ss.len(), 32);
    assert!(!ss.as_slice().is_empty());
    let bytes = ss.into_vec();
    assert_eq!(bytes, vec![7u8; 32]);
}
