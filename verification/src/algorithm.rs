//! The algorithm catalog: a closed, fixed enumeration of every known KEM
//! variant, with the mapping from each tag to the native library's textual
//! identifier.
//!
//! The catalog is deliberately a sum type rather than data, so that
//! exhaustiveness is checked at compile time. Whether an algorithm is
//! actually enabled depends on how the native library was built and can only
//! be learned by probing it at run time; the catalog itself is total.

use vstd::prelude::*;

verus! {

/// The KEM algorithms the native library knows about.
///
/// Listing an algorithm here does not mean it is available: the native
/// library may have been built without it, in which case acquiring a handle
/// for it fails with [`crate::Error::AlgorithmDisabled`].
#[derive(Clone, Copy, Debug, Eq, PartialEq, Hash, Structural)]
#[allow(missing_docs)]
pub enum Algorithm {
    BikeL1,
    BikeL3,
    ClassicMcEliece348864,
    ClassicMcEliece348864f,
    ClassicMcEliece460896,
    ClassicMcEliece460896f,
    ClassicMcEliece6688128,
    ClassicMcEliece6688128f,
    ClassicMcEliece6960119,
    ClassicMcEliece6960119f,
    ClassicMcEliece8192128,
    ClassicMcEliece8192128f,
    Hqc128,
    Hqc192,
    Hqc256,
    Kyber512,
    Kyber768,
    Kyber1024,
    Kyber512_90s,
    Kyber768_90s,
    Kyber1024_90s,
    NtruHps2048509,
    NtruHps2048677,
    NtruHps4096821,
    NtruHps40961229,
    NtruHrss701,
    NtruHrss1373,
    NtruPrimeNtrulpr653,
    NtruPrimeNtrulpr761,
    NtruPrimeNtrulpr857,
    NtruPrimeNtrulpr1277,
    NtruPrimeSntrup653,
    NtruPrimeSntrup761,
    NtruPrimeSntrup857,
    NtruPrimeSntrup1277,
    Lightsaber,
    Saber,
    Firesaber,
    FrodoKem640Aes,
    FrodoKem640Shake,
    FrodoKem976Aes,
    FrodoKem976Shake,
    FrodoKem1344Aes,
    FrodoKem1344Shake,
    SidhP434,
    SidhP503,
    SidhP610,
    SidhP751,
    SidhP434Compressed,
    SidhP503Compressed,
    SidhP610Compressed,
    SidhP751Compressed,
    SikeP434,
    SikeP503,
    SikeP610,
    SikeP751,
    SikeP434Compressed,
    SikeP503Compressed,
    SikeP610Compressed,
    SikeP751Compressed,
    SikeP434Compressed1CCA,
    SikeP503Compressed1CCA,
    SikeP610Compressed1CCA,
    SikeP751Compressed1CCA,
    CsidhP512,
}

/// The textual identifier the native library uses for each algorithm.
pub open spec fn spec_id(algorithm: Algorithm) -> Seq<char> {
    match algorithm {
        Algorithm::BikeL1 => "BIKE-L1"@,
        Algorithm::BikeL3 => "BIKE-L3"@,
        Algorithm::ClassicMcEliece348864 => "Classic-McEliece-348864"@,
        Algorithm::ClassicMcEliece348864f => "Classic-McEliece-348864f"@,
        Algorithm::ClassicMcEliece460896 => "Classic-McEliece-460896"@,
        Algorithm::ClassicMcEliece460896f => "Classic-McEliece-460896f"@,
        Algorithm::ClassicMcEliece6688128 => "Classic-McEliece-6688128"@,
        Algorithm::ClassicMcEliece6688128f => "Classic-McEliece-6688128f"@,
        Algorithm::ClassicMcEliece6960119 => "Classic-McEliece-6960119"@,
        Algorithm::ClassicMcEliece6960119f => "Classic-McEliece-6960119f"@,
        Algorithm::ClassicMcEliece8192128 => "Classic-McEliece-8192128"@,
        Algorithm::ClassicMcEliece8192128f => "Classic-McEliece-8192128f"@,
        Algorithm::Hqc128 => "HQC-128"@,
        Algorithm::Hqc192 => "HQC-192"@,
        Algorithm::Hqc256 => "HQC-256"@,
        Algorithm::Kyber512 => "Kyber512"@,
        Algorithm::Kyber768 => "Kyber768"@,
        Algorithm::Kyber1024 => "Kyber1024"@,
        Algorithm::Kyber512_90s => "Kyber512-90s"@,
        Algorithm::Kyber768_90s => "Kyber768-90s"@,
        Algorithm::Kyber1024_90s => "Kyber1024-90s"@,
        Algorithm::NtruHps2048509 => "NTRU-HPS-2048-509"@,
        Algorithm::NtruHps2048677 => "NTRU-HPS-2048-677"@,
        Algorithm::NtruHps4096821 => "NTRU-HPS-4096-821"@,
        Algorithm::NtruHps40961229 => "NTRU-HPS-4096-1229"@,
        Algorithm::NtruHrss701 => "NTRU-HRSS-701"@,
        Algorithm::NtruHrss1373 => "NTRU-HRSS-1373"@,
        Algorithm::NtruPrimeNtrulpr653 => "ntrulpr653"@,
        Algorithm::NtruPrimeNtrulpr761 => "ntrulpr761"@,
        Algorithm::NtruPrimeNtrulpr857 => "ntrulpr857"@,
        Algorithm::NtruPrimeNtrulpr1277 => "ntrulpr1277"@,
        Algorithm::NtruPrimeSntrup653 => "sntrup653"@,
        Algorithm::NtruPrimeSntrup761 => "sntrup761"@,
        Algorithm::NtruPrimeSntrup857 => "sntrup857"@,
        Algorithm::NtruPrimeSntrup1277 => "sntrup1277"@,
        Algorithm::Lightsaber => "LightSaber-KEM"@,
        Algorithm::Saber => "Saber-KEM"@,
        Algorithm::Firesaber => "FireSaber-KEM"@,
        Algorithm::FrodoKem640Aes => "FrodoKEM-640-AES"@,
        Algorithm::FrodoKem640Shake => "FrodoKEM-640-SHAKE"@,
        Algorithm::FrodoKem976Aes => "FrodoKEM-976-AES"@,
        Algorithm::FrodoKem976Shake => "FrodoKEM-976-SHAKE"@,
        Algorithm::FrodoKem1344Aes => "FrodoKEM-1344-AES"@,
        Algorithm::FrodoKem1344Shake => "FrodoKEM-1344-SHAKE"@,
        Algorithm::SidhP434 => "SIDH-p434"@,
        Algorithm::SidhP503 => "SIDH-p503"@,
        Algorithm::SidhP610 => "SIDH-p610"@,
        Algorithm::SidhP751 => "SIDH-p751"@,
        Algorithm::SidhP434Compressed => "SIDH-p434-compressed"@,
        Algorithm::SidhP503Compressed => "SIDH-p503-compressed"@,
        Algorithm::SidhP610Compressed => "SIDH-p610-compressed"@,
        Algorithm::SidhP751Compressed => "SIDH-p751-compressed"@,
        Algorithm::SikeP434 => "SIKE-p434"@,
        Algorithm::SikeP503 => "SIKE-p503"@,
        Algorithm::SikeP610 => "SIKE-p610"@,
        Algorithm::SikeP751 => "SIKE-p751"@,
        Algorithm::SikeP434Compressed => "SIKE-p434-compressed"@,
        Algorithm::SikeP503Compressed => "SIKE-p503-compressed"@,
        Algorithm::SikeP610Compressed => "SIKE-p610-compressed"@,
        Algorithm::SikeP751Compressed => "SIKE-p751-compressed"@,
        Algorithm::SikeP434Compressed1CCA => "SIKE-p434-1CCA-compressed"@,
        Algorithm::SikeP503Compressed1CCA => "SIKE-p503-1CCA-compressed"@,
        Algorithm::SikeP610Compressed1CCA => "SIKE-p610-1CCA-compressed"@,
        Algorithm::SikeP751Compressed1CCA => "SIKE-p751-1CCA-compressed"@,
        Algorithm::CsidhP512 => "csidh-p512"@,
    }
}

impl Algorithm {
    /// The identifier of the algorithm, as the native library spells it.
    ///
    /// This is the exact text handed to the native acquisition and
    /// enablement-probe entry points.
    pub fn to_id(self) -> (r: &'static str)
        ensures
            r@ == spec_id(self),
    {
        match self {
            Algorithm::BikeL1 => "BIKE-L1",
            Algorithm::BikeL3 => "BIKE-L3",
            Algorithm::ClassicMcEliece348864 => "Classic-McEliece-348864",
            Algorithm::ClassicMcEliece348864f => "Classic-McEliece-348864f",
            Algorithm::ClassicMcEliece460896 => "Classic-McEliece-460896",
            Algorithm::ClassicMcEliece460896f => "Classic-McEliece-460896f",
            Algorithm::ClassicMcEliece6688128 => "Classic-McEliece-6688128",
            Algorithm::ClassicMcEliece6688128f => "Classic-McEliece-6688128f",
            Algorithm::ClassicMcEliece6960119 => "Classic-McEliece-6960119",
            Algorithm::ClassicMcEliece6960119f => "Classic-McEliece-6960119f",
            Algorithm::ClassicMcEliece8192128 => "Classic-McEliece-8192128",
            Algorithm::ClassicMcEliece8192128f => "Classic-McEliece-8192128f",
            Algorithm::Hqc128 => "HQC-128",
            Algorithm::Hqc192 => "HQC-192",
            Algorithm::Hqc256 => "HQC-256",
            Algorithm::Kyber512 => "Kyber512",
            Algorithm::Kyber768 => "Kyber768",
            Algorithm::Kyber1024 => "Kyber1024",
            Algorithm::Kyber512_90s => "Kyber512-90s",
            Algorithm::Kyber768_90s => "Kyber768-90s",
            Algorithm::Kyber1024_90s => "Kyber1024-90s",
            Algorithm::NtruHps2048509 => "NTRU-HPS-2048-509",
            Algorithm::NtruHps2048677 => "NTRU-HPS-2048-677",
            Algorithm::NtruHps4096821 => "NTRU-HPS-4096-821",
            Algorithm::NtruHps40961229 => "NTRU-HPS-4096-1229",
            Algorithm::NtruHrss701 => "NTRU-HRSS-701",
            Algorithm::NtruHrss1373 => "NTRU-HRSS-1373",
            Algorithm::NtruPrimeNtrulpr653 => "ntrulpr653",
            Algorithm::NtruPrimeNtrulpr761 => "ntrulpr761",
            Algorithm::NtruPrimeNtrulpr857 => "ntrulpr857",
            Algorithm::NtruPrimeNtrulpr1277 => "ntrulpr1277",
            Algorithm::NtruPrimeSntrup653 => "sntrup653",
            Algorithm::NtruPrimeSntrup761 => "sntrup761",
            Algorithm::NtruPrimeSntrup857 => "sntrup857",
            Algorithm::NtruPrimeSntrup1277 => "sntrup1277",
            Algorithm::Lightsaber => "LightSaber-KEM",
            Algorithm::Saber => "Saber-KEM",
            Algorithm::Firesaber => "FireSaber-KEM",
            Algorithm::FrodoKem640Aes => "FrodoKEM-640-AES",
            Algorithm::FrodoKem640Shake => "FrodoKEM-640-SHAKE",
            Algorithm::FrodoKem976Aes => "FrodoKEM-976-AES",
            Algorithm::FrodoKem976Shake => "FrodoKEM-976-SHAKE",
            Algorithm::FrodoKem1344Aes => "FrodoKEM-1344-AES",
            Algorithm::FrodoKem1344Shake => "FrodoKEM-1344-SHAKE",
            Algorithm::SidhP434 => "SIDH-p434",
            Algorithm::SidhP503 => "SIDH-p503",
            Algorithm::SidhP610 => "SIDH-p610",
            Algorithm::SidhP751 => "SIDH-p751",
            Algorithm::SidhP434Compressed => "SIDH-p434-compressed",
            Algorithm::SidhP503Compressed => "SIDH-p503-compressed",
            Algorithm::SidhP610Compressed => "SIDH-p610-compressed",
            Algorithm::SidhP751Compressed => "SIDH-p751-compressed",
            Algorithm::SikeP434 => "SIKE-p434",
            Algorithm::SikeP503 => "SIKE-p503",
            Algorithm::SikeP610 => "SIKE-p610",
            Algorithm::SikeP751 => "SIKE-p751",
            Algorithm::SikeP434Compressed => "SIKE-p434-compressed",
            Algorithm::SikeP503Compressed => "SIKE-p503-compressed",
            Algorithm::SikeP610Compressed => "SIKE-p610-compressed",
            Algorithm::SikeP751Compressed => "SIKE-p751-compressed",
            Algorithm::SikeP434Compressed1CCA => "SIKE-p434-1CCA-compressed",
            Algorithm::SikeP503Compressed1CCA => "SIKE-p503-1CCA-compressed",
            Algorithm::SikeP610Compressed1CCA => "SIKE-p610-1CCA-compressed",
            Algorithm::SikeP751Compressed1CCA => "SIKE-p751-1CCA-compressed",
            Algorithm::CsidhP512 => "csidh-p512",
        }
    }

    /// The algorithm's display name: the native identifier read as text.
    pub fn name(&self) -> (r: &'static str)
        ensures
            r@ == spec_id(*self),
    {
        (*self).to_id()
    }
}

/// Every catalog entry's display name is non-empty.
pub proof fn lemma_name_nonempty(algorithm: Algorithm)
    ensures
        spec_id(algorithm).len() > 0,
{
    match algorithm {
        Algorithm::BikeL1 => reveal_strlit("BIKE-L1"),
        Algorithm::BikeL3 => reveal_strlit("BIKE-L3"),
        Algorithm::ClassicMcEliece348864 => reveal_strlit("Classic-McEliece-348864"),
        Algorithm::ClassicMcEliece348864f => reveal_strlit("Classic-McEliece-348864f"),
        Algorithm::ClassicMcEliece460896 => reveal_strlit("Classic-McEliece-460896"),
        Algorithm::ClassicMcEliece460896f => reveal_strlit("Classic-McEliece-460896f"),
        Algorithm::ClassicMcEliece6688128 => reveal_strlit("Classic-McEliece-6688128"),
        Algorithm::ClassicMcEliece6688128f => reveal_strlit("Classic-McEliece-6688128f"),
        Algorithm::ClassicMcEliece6960119 => reveal_strlit("Classic-McEliece-6960119"),
        Algorithm::ClassicMcEliece6960119f => reveal_strlit("Classic-McEliece-6960119f"),
        Algorithm::ClassicMcEliece8192128 => reveal_strlit("Classic-McEliece-8192128"),
        Algorithm::ClassicMcEliece8192128f => reveal_strlit("Classic-McEliece-8192128f"),
        Algorithm::Hqc128 => reveal_strlit("HQC-128"),
        Algorithm::Hqc192 => reveal_strlit("HQC-192"),
        Algorithm::Hqc256 => reveal_strlit("HQC-256"),
        Algorithm::Kyber512 => reveal_strlit("Kyber512"),
        Algorithm::Kyber768 => reveal_strlit("Kyber768"),
        Algorithm::Kyber1024 => reveal_strlit("Kyber1024"),
        Algorithm::Kyber512_90s => reveal_strlit("Kyber512-90s"),
        Algorithm::Kyber768_90s => reveal_strlit("Kyber768-90s"),
        Algorithm::Kyber1024_90s => reveal_strlit("Kyber1024-90s"),
        Algorithm::NtruHps2048509 => reveal_strlit("NTRU-HPS-2048-509"),
        Algorithm::NtruHps2048677 => reveal_strlit("NTRU-HPS-2048-677"),
        Algorithm::NtruHps4096821 => reveal_strlit("NTRU-HPS-4096-821"),
        Algorithm::NtruHps40961229 => reveal_strlit("NTRU-HPS-4096-1229"),
        Algorithm::NtruHrss701 => reveal_strlit("NTRU-HRSS-701"),
        Algorithm::NtruHrss1373 => reveal_strlit("NTRU-HRSS-1373"),
        Algorithm::NtruPrimeNtrulpr653 => reveal_strlit("ntrulpr653"),
        Algorithm::NtruPrimeNtrulpr761 => reveal_strlit("ntrulpr761"),
        Algorithm::NtruPrimeNtrulpr857 => reveal_strlit("ntrulpr857"),
        Algorithm::NtruPrimeNtrulpr1277 => reveal_strlit("ntrulpr1277"),
        Algorithm::NtruPrimeSntrup653 => reveal_strlit("sntrup653"),
        Algorithm::NtruPrimeSntrup761 => reveal_strlit("sntrup761"),
        Algorithm::NtruPrimeSntrup857 => reveal_strlit("sntrup857"),
        Algorithm::NtruPrimeSntrup1277 => reveal_strlit("sntrup1277"),
        Algorithm::Lightsaber => reveal_strlit("LightSaber-KEM"),
        Algorithm::Saber => reveal_strlit("Saber-KEM"),
        Algorithm::Firesaber => reveal_strlit("FireSaber-KEM"),
        Algorithm::FrodoKem640Aes => reveal_strlit("FrodoKEM-640-AES"),
        Algorithm::FrodoKem640Shake => reveal_strlit("FrodoKEM-640-SHAKE"),
        Algorithm::FrodoKem976Aes => reveal_strlit("FrodoKEM-976-AES"),
        Algorithm::FrodoKem976Shake => reveal_strlit("FrodoKEM-976-SHAKE"),
        Algorithm::FrodoKem1344Aes => reveal_strlit("FrodoKEM-1344-AES"),
        Algorithm::FrodoKem1344Shake => reveal_strlit("FrodoKEM-1344-SHAKE"),
        Algorithm::SidhP434 => reveal_strlit("SIDH-p434"),
        Algorithm::SidhP503 => reveal_strlit("SIDH-p503"),
        Algorithm::SidhP610 => reveal_strlit("SIDH-p610"),
        Algorithm::SidhP751 => reveal_strlit("SIDH-p751"),
        Algorithm::SidhP434Compressed => reveal_strlit("SIDH-p434-compressed"),
        Algorithm::SidhP503Compressed => reveal_strlit("SIDH-p503-compressed"),
        Algorithm::SidhP610Compressed => reveal_strlit("SIDH-p610-compressed"),
        Algorithm::SidhP751Compressed => reveal_strlit("SIDH-p751-compressed"),
        Algorithm::SikeP434 => reveal_strlit("SIKE-p434"),
        Algorithm::SikeP503 => reveal_strlit("SIKE-p503"),
        Algorithm::SikeP610 => reveal_strlit("SIKE-p610"),
        Algorithm::SikeP751 => reveal_strlit("SIKE-p751"),
        Algorithm::SikeP434Compressed => reveal_strlit("SIKE-p434-compressed"),
        Algorithm::SikeP503Compressed => reveal_strlit("SIKE-p503-compressed"),
        Algorithm::SikeP610Compressed => reveal_strlit("SIKE-p610-compressed"),
        Algorithm::SikeP751Compressed => reveal_strlit("SIKE-p751-compressed"),
        Algorithm::SikeP434Compressed1CCA => reveal_strlit("SIKE-p434-1CCA-compressed"),
        Algorithm::SikeP503Compressed1CCA => reveal_strlit("SIKE-p503-1CCA-compressed"),
        Algorithm::SikeP610Compressed1CCA => reveal_strlit("SIKE-p610-1CCA-compressed"),
        Algorithm::SikeP751Compressed1CCA => reveal_strlit("SIKE-p751-1CCA-compressed"),
        Algorithm::CsidhP512 => reveal_strlit("csidh-p512"),
    }
}

} // verus!
