use vstd::prelude::*;

verus! {

broadcast use vstd::string::group_string_axioms;

/// The views of a list of strings.
pub open spec fn string_views(v: Seq<String>) -> Seq<Seq<char>> {
    v.map_values(|s: String| s@)
}

/// KEMs an initiator can name, as printable identifiers.
#[derive(Clone, Copy, Debug, PartialEq, Eq, Structural)]
pub enum KEMtypeS {
    X25519HkdfSha256,
    DhP256HkdfSha256,
}

pub open spec fn kem_s_text(k: KEMtypeS) -> Seq<char> {
    match k {
        KEMtypeS::X25519HkdfSha256 => "0x0010"@,
        KEMtypeS::DhP256HkdfSha256 => "0x0020"@,
    }
}

impl KEMtypeS {
    /// The printable identifier.
    pub fn to_string(&self) -> (r: String)
        ensures
            r@ == kem_s_text(*self),
    {
        match self {
            KEMtypeS::X25519HkdfSha256 => "0x0010".to_string(),
            KEMtypeS::DhP256HkdfSha256 => "0x0020".to_string(),
        }
    }

    /// The identifiers of every variant, in declaration order.
    pub fn to_vect() -> (r: Vec<String>)
        ensures
            string_views(r@) == seq![
                kem_s_text(KEMtypeS::X25519HkdfSha256),
                kem_s_text(KEMtypeS::DhP256HkdfSha256),
            ],
    {
        let mut vect: Vec<String> = Vec::new();
        vect.push(KEMtypeS::X25519HkdfSha256.to_string());
        vect.push(KEMtypeS::DhP256HkdfSha256.to_string());
        assert(string_views(vect@) =~= seq![
            kem_s_text(KEMtypeS::X25519HkdfSha256),
            kem_s_text(KEMtypeS::DhP256HkdfSha256),
        ]);
        vect
    }
}

/// KDFs an initiator can name, as printable identifiers.
#[derive(Clone, Copy, Debug, PartialEq, Eq, Structural)]
pub enum KDFtypeS {
    HkdfSha256,
    HkdfSha384,
    HkdfSha512,
}

pub open spec fn kdf_s_text(k: KDFtypeS) -> Seq<char> {
    match k {
        KDFtypeS::HkdfSha256 => "0x0001"@,
        KDFtypeS::HkdfSha384 => "0x0002"@,
        KDFtypeS::HkdfSha512 => "0x0003"@,
    }
}

impl KDFtypeS {
    /// The printable identifier.
    pub fn to_string(&self) -> (r: String)
        ensures
            r@ == kdf_s_text(*self),
    {
        match self {
            KDFtypeS::HkdfSha256 => "0x0001".to_string(),
            KDFtypeS::HkdfSha384 => "0x0002".to_string(),
            KDFtypeS::HkdfSha512 => "0x0003".to_string(),
        }
    }

    /// The identifiers of every variant, in declaration order.
    pub fn to_vect() -> (r: Vec<String>)
        ensures
            string_views(r@) == seq![
                kdf_s_text(KDFtypeS::HkdfSha256),
                kdf_s_text(KDFtypeS::HkdfSha384),
                kdf_s_text(KDFtypeS::HkdfSha512),
            ],
    {
        let mut vect: Vec<String> = Vec::new();
        vect.push(KDFtypeS::HkdfSha256.to_string());
        vect.push(KDFtypeS::HkdfSha384.to_string());
        vect.push(KDFtypeS::HkdfSha512.to_string());
        assert(string_views(vect@) =~= seq![
            kdf_s_text(KDFtypeS::HkdfSha256),
            kdf_s_text(KDFtypeS::HkdfSha384),
            kdf_s_text(KDFtypeS::HkdfSha512),
        ]);
        vect
    }
}

/// AEADs an initiator can name, as printable identifiers.
#[derive(Clone, Copy, Debug, PartialEq, Eq, Structural)]
pub enum AEADtypeS {
    AesGcm128,
    AesGcm256,
    ChaCha20Poly1305,
    ExportOnlyAead,
}

pub open spec fn aead_s_text(a: AEADtypeS) -> Seq<char> {
    match a {
        AEADtypeS::AesGcm128 => "0x0001"@,
        AEADtypeS::AesGcm256 => "0x0002"@,
        AEADtypeS::ChaCha20Poly1305 => "0x0003"@,
        AEADtypeS::ExportOnlyAead => "0xFFFF"@,
    }
}

impl AEADtypeS {
    /// The printable identifier.
    pub fn to_string(&self) -> (r: String)
        ensures
            r@ == aead_s_text(*self),
    {
        match self {
            AEADtypeS::AesGcm128 => "0x0001".to_string(),
            AEADtypeS::AesGcm256 => "0x0002".to_string(),
            AEADtypeS::ChaCha20Poly1305 => "0x0003".to_string(),
            AEADtypeS::ExportOnlyAead => "0xFFFF".to_string(),
        }
    }

    /// The identifiers of every variant, in declaration order.
    pub fn to_vect() -> (r: Vec<String>)
        ensures
            string_views(r@) == seq![
                aead_s_text(AEADtypeS::AesGcm128),
                aead_s_text(AEADtypeS::AesGcm256),
                aead_s_text(AEADtypeS::ChaCha20Poly1305),
                aead_s_text(AEADtypeS::ExportOnlyAead),
            ],
    {
        let mut vect: Vec<String> = Vec::new();
        vect.push(AEADtypeS::AesGcm128.to_string());
        vect.push(AEADtypeS::AesGcm256.to_string());
        vect.push(AEADtypeS::ChaCha20Poly1305.to_string());
        vect.push(AEADtypeS::ExportOnlyAead.to_string());
        assert(string_views(vect@) =~= seq![
            aead_s_text(AEADtypeS::AesGcm128),
            aead_s_text(AEADtypeS::AesGcm256),
            aead_s_text(AEADtypeS::ChaCha20Poly1305),
            aead_s_text(AEADtypeS::ExportOnlyAead),
        ]);
        vect
    }
}

} // verus!
