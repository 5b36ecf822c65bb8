use vstd::prelude::*;
use crate::ciphersuite_client::string_views;

verus! {

broadcast use vstd::string::group_string_axioms;

/// KEMs a responder can name, as printable identifiers.
#[derive(Clone, Copy, Debug, PartialEq, Eq, Structural)]
pub enum KEMtypeR {
    X25519HkdfSha256,
}

impl KEMtypeR {
    /// The printable identifier.
    pub fn to_string(&self) -> (r: String)
        ensures
            r@ == "0x0010"@,
    {
        match self {
            KEMtypeR::X25519HkdfSha256 => "0x0010".to_string(),
        }
    }

    /// The identifiers of every variant, in declaration order.
    pub fn to_vect() -> (r: Vec<String>)
        ensures
            string_views(r@) == seq!["0x0010"@],
    {
        let mut vect: Vec<String> = Vec::new();
        vect.push(KEMtypeR::X25519HkdfSha256.to_string());
        assert(string_views(vect@) =~= seq!["0x0010"@]);
        vect
    }
}

/// KDFs a responder can name, as printable identifiers.
#[derive(Clone, Copy, Debug, PartialEq, Eq, Structural)]
pub enum KDFtypeR {
    HkdfSha256,
    HkdfSha512,
}

pub open spec fn kdf_r_text(k: KDFtypeR) -> Seq<char> {
    match k {
        KDFtypeR::HkdfSha256 => "0x0001"@,
        KDFtypeR::HkdfSha512 => "0x0003"@,
    }
}

impl KDFtypeR {
    /// The printable identifier.
    pub fn to_string(&self) -> (r: String)
        ensures
            r@ == kdf_r_text(*self),
    {
        match self {
            KDFtypeR::HkdfSha256 => "0x0001".to_string(),
            KDFtypeR::HkdfSha512 => "0x0003".to_string(),
        }
    }

    /// The identifiers of every variant, in declaration order.
    pub fn to_vect() -> (r: Vec<String>)
        ensures
            string_views(r@) == seq![kdf_r_text(KDFtypeR::HkdfSha256), kdf_r_text(KDFtypeR::HkdfSha512)],
    {
        let mut vect: Vec<String> = Vec::new();
        vect.push(KDFtypeR::HkdfSha256.to_string());
        vect.push(KDFtypeR::HkdfSha512.to_string());
        assert(string_views(vect@) =~= seq![
            kdf_r_text(KDFtypeR::HkdfSha256),
            kdf_r_text(KDFtypeR::HkdfSha512),
        ]);
        vect
    }
}

/// AEADs a responder can name, as printable identifiers.
#[derive(Clone, Copy, Debug, PartialEq, Eq, Structural)]
pub enum AEADtypeR {
    AesGcm128,
}

impl AEADtypeR {
    /// The printable identifier.
    pub fn to_string(&self) -> (r: String)
        ensures
            r@ == "0x0001"@,
    {
        match self {
            AEADtypeR::AesGcm128 => "0x0001".to_string(),
        }
    }

    /// The identifiers of every variant, in declaration order.
    pub fn to_vect() -> (r: Vec<String>)
        ensures
            string_views(r@) == seq!["0x0001"@],
    {
        let mut vect: Vec<String> = Vec::new();
        vect.push(AEADtypeR::AesGcm128.to_string());
        assert(string_views(vect@) =~= seq!["0x0001"@]);
        vect
    }
}

} // verus!
