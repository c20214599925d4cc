use oqs::algorithm::Algorithm;

#[test]
fn identifiers_match_native_spelling() {
    assert_eq!(Algorithm::BikeL1.to_id(), "BIKE-L1");
    assert_eq!(Algorithm::ClassicMcEliece348864.to_id(), "Classic-McEliece-348864");
    assert_eq!(Algorithm::ClassicMcEliece8192128f.to_id(), "Classic-McEliece-8192128f");
    assert_eq!(Algorithm::Hqc256.to_id(), "HQC-256");
    assert_eq!(Algorithm::Kyber512.to_id(), "Kyber512");
    assert_eq!(Algorithm::Kyber1024_90s.to_id(), "Kyber1024-90s");
    assert_eq!(Algorithm::NtruHps2048509.to_id(), "NTRU-HPS-2048-509");
    assert_eq!(Algorithm::NtruHrss1373.to_id(), "NTRU-HRSS-1373");
    assert_eq!(Algorithm::NtruPrimeNtrulpr653.to_id(), "ntrulpr653");
    assert_eq!(Algorithm::NtruPrimeSntrup1277.to_id(), "sntrup1277");
    assert_eq!(Algorithm::Lightsaber.to_id(), "LightSaber-KEM");
    assert_eq!(Algorithm::Firesaber.to_id(), "FireSaber-KEM");
    assert_eq!(Algorithm::FrodoKem640Aes.to_id(), "FrodoKEM-640-AES");
    assert_eq!(Algorithm::FrodoKem1344Shake.to_id(), "FrodoKEM-1344-SHAKE");
    assert_eq!(Algorithm::SidhP434.to_id(), "SIDH-p434");
    assert_eq!(Algorithm::SidhP751Compressed.to_id(), "SIDH-p751-compressed");
    assert_eq!(Algorithm::SikeP434.to_id(), "SIKE-p434");
    assert_eq!(Algorithm::SikeP610Compressed.to_id(), "SIKE-p610-compressed");
    assert_eq!(Algorithm::SikeP751Compressed1CCA.to_id(), "SIKE-p751-1CCA-compressed");
    assert_eq!(Algorithm::CsidhP512.to_id(), "csidh-p512");
}

#[test]
fn display_name_equals_identifier() {
    let algorithms = [
        Algorithm::BikeL1,
        Algorithm::ClassicMcEliece6960119,
        Algorithm::Hqc128,
        Algorithm::Kyber768,
        Algorithm::NtruHps4096821,
        Algorithm::NtruPrimeSntrup761,
        Algorithm::Saber,
        Algorithm::FrodoKem976Shake,
        Algorithm::SidhP503,
        Algorithm::SikeP751,
        Algorithm::SikeP434Compressed1CCA,
        Algorithm::CsidhP512,
    ];
    for algorithm in algorithms {
        assert_eq!(algorithm.name(), algorithm.to_id());
    }
}

#[test]
fn every_sampled_name_is_nonempty() {
    let algorithms = [
        Algorithm::BikeL1,
        Algorithm::BikeL3,
        Algorithm::ClassicMcEliece348864,
        Algorithm::ClassicMcEliece348864f,
        Algorithm::ClassicMcEliece460896,
        Algorithm::ClassicMcEliece460896f,
        Algorithm::ClassicMcEliece6688128,
        Algorithm::ClassicMcEliece6688128f,
        Algorithm::ClassicMcEliece6960119,
        Algorithm::ClassicMcEliece6960119f,
        Algorithm::ClassicMcEliece8192128,
        Algorithm::ClassicMcEliece8192128f,
        Algorithm::Hqc128,
        Algorithm::Hqc192,
        Algorithm::Hqc256,
        Algorithm::Kyber512,
        Algorithm::Kyber768,
        Algorithm::Kyber1024,
        Algorithm::Kyber512_90s,
        Algorithm::Kyber768_90s,
        Algorithm::Kyber1024_90s,
        Algorithm::NtruHps2048509,
        Algorithm::NtruHps2048677,
        Algorithm::NtruHps4096821,
        Algorithm::NtruHps40961229,
        Algorithm::NtruHrss701,
        Algorithm::NtruHrss1373,
        Algorithm::NtruPrimeNtrulpr653,
        Algorithm::NtruPrimeNtrulpr761,
        Algorithm::NtruPrimeNtrulpr857,
        Algorithm::NtruPrimeNtrulpr1277,
        Algorithm::NtruPrimeSntrup653,
        Algorithm::NtruPrimeSntrup761,
        Algorithm::NtruPrimeSntrup857,
        Algorithm::NtruPrimeSntrup1277,
        Algorithm::Lightsaber,
        Algorithm::Saber,
        Algorithm::Firesaber,
        Algorithm::FrodoKem640Aes,
        Algorithm::FrodoKem640Shake,
        Algorithm::FrodoKem976Aes,
        Algorithm::FrodoKem976Shake,
        Algorithm::FrodoKem1344Aes,
        Algorithm::FrodoKem1344Shake,
        Algorithm::SidhP434,
        Algorithm::SidhP503,
        Algorithm::SidhP610,
        Algorithm::SidhP751,
        Algorithm::SidhP434Compressed,
        Algorithm::SidhP503Compressed,
        Algorithm::SidhP610Compressed,
        Algorithm::SidhP751Compressed,
        Algorithm::SikeP434,
        Algorithm::SikeP503,
        Algorithm::SikeP610,
        Algorithm::SikeP751,
        Algorithm::SikeP434Compressed,
        Algorithm::SikeP503Compressed,
        Algorithm::SikeP610Compressed,
        Algorithm::SikeP751Compressed,
        Algorithm::SikeP434Compressed1CCA,
        Algorithm::SikeP503Compressed1CCA,
        Algorithm::SikeP610Compressed1CCA,
        Algorithm::SikeP751Compressed1CCA,
        Algorithm::CsidhP512,
    ];
    for algorithm in algorithms {
        assert!(!algorithm.name().is_empty());
    }
}

#[test]
fn algorithm_is_a_value_type() {
    let a = Algorithm::Kyber768;
    let b = a;
    assert_eq!(a, b);
    assert_ne!(Algorithm::Kyber512, Algorithm::Kyber768);
}
