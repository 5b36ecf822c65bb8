use vstd::prelude::*;
use crate::errors::ProtocolError;

verus! {

broadcast use vstd::string::group_string_axioms;

/// The kinds of data a responder exchanges, each identified by its first packet byte.
#[allow(non_camel_case_types)]
#[derive(Clone, Copy, Debug, PartialEq, Eq, Structural)]
pub enum DataType {
    PublicKey,
    EncappedKey,
    Ciphertext,
    AssociatedData,
    TagBytes,
    Enc_ctx_KEM,
    Enc_ctx_KDF,
    Enc_ctx_AEAD,
}

pub open spec fn datatype_code(d: DataType) -> u8 {
    match d {
        DataType::PublicKey => 0,
        DataType::EncappedKey => 1,
        DataType::Ciphertext => 2,
        DataType::AssociatedData => 3,
        DataType::TagBytes => 4,
        DataType::Enc_ctx_KEM => 5,
        DataType::Enc_ctx_KDF => 6,
        DataType::Enc_ctx_AEAD => 7,
    }
}

/// The kind a byte stands for, if any: bytes 0 to 7.
pub open spec fn datatype_of(i: u8) -> Option<DataType> {
    if i > 7 {
        None
    } else {
        Some(datatype_of_known(i))
    }
}

pub open spec fn datatype_of_known(i: u8) -> DataType {
    if i == 0 {
        DataType::PublicKey
    } else if i == 1 {
        DataType::EncappedKey
    } else if i == 2 {
        DataType::Ciphertext
    } else if i == 3 {
        DataType::AssociatedData
    } else if i == 4 {
        DataType::TagBytes
    } else if i == 5 {
        DataType::Enc_ctx_KEM
    } else if i == 6 {
        DataType::Enc_ctx_KDF
    } else {
        DataType::Enc_ctx_AEAD
    }
}

pub open spec fn datatype_text(i: u8) -> Seq<char> {
    if i == 0 {
        "PublicKey"@
    } else if i == 1 {
        "EncappedKey"@
    } else if i == 2 {
        "CipherText"@
    } else if i == 3 {
        "AssociatedData"@
    } else if i == 4 {
        "TagBytes"@
    } else if i == 5 {
        "Enc_ctx_KEM"@
    } else if i == 6 {
        "Enc_ctx_KDF"@
    } else if i == 7 {
        "Enc_ctx_AEAD"@
    } else {
        "Unknown"@
    }
}

/// A kind survives the trip to its byte and back.
pub proof fn lemma_datatype_round_trip(d: DataType)
    ensures
        datatype_of(datatype_code(d)) == Some(d),
{
}

pub fn datatype_to_int(data_ype: &DataType) -> (r: u8)
    ensures
        r == datatype_code(*data_ype),
{
    match data_ype {
        DataType::PublicKey => 0,
        DataType::EncappedKey => 1,
        DataType::Ciphertext => 2,
        DataType::AssociatedData => 3,
        DataType::TagBytes => 4,
        DataType::Enc_ctx_KEM => 5,
        DataType::Enc_ctx_KDF => 6,
        DataType::Enc_ctx_AEAD => 7,
    }
}

/// The kind a packet byte stands for; a byte that names no kind is a malformed packet.
pub fn int_to_datatype(i: u8) -> (r: Result<DataType, ProtocolError>)
    ensures
        match datatype_of(i) {
            Some(d) => r == Ok::<DataType, ProtocolError>(d),
            None => r == Err::<DataType, ProtocolError>(ProtocolError::MalformedPacket),
        },
{
    if i > 7 {
        return Err(ProtocolError::MalformedPacket);
    }
    Ok(if i == 0 {
        DataType::PublicKey
    } else if i == 1 {
        DataType::EncappedKey
    } else if i == 2 {
        DataType::Ciphertext
    } else if i == 3 {
        DataType::AssociatedData
    } else if i == 4 {
        DataType::TagBytes
    } else if i == 5 {
        DataType::Enc_ctx_KEM
    } else if i == 6 {
        DataType::Enc_ctx_KDF
    } else {
        DataType::Enc_ctx_AEAD
    })
}

/// The printable name of the kind a byte stands for.
pub fn int_to_datatype_display(i: u8) -> (r: String)
    ensures
        r@ == datatype_text(i),
{
    if i == 0 {
        "PublicKey".to_string()
    } else if i == 1 {
        "EncappedKey".to_string()
    } else if i == 2 {
        "CipherText".to_string()
    } else if i == 3 {
        "AssociatedData".to_string()
    } else if i == 4 {
        "TagBytes".to_string()
    } else if i == 5 {
        "Enc_ctx_KEM".to_string()
    } else if i == 6 {
        "Enc_ctx_KDF".to_string()
    } else if i == 7 {
        "Enc_ctx_AEAD".to_string()
    } else {
        "Unknown".to_string()
    }
}

/// A packet header: the kind of data and its length.
pub struct HeaderData {
    data_type: DataType,
    data_len: usize,
}

/// A packet: `[kind][length][payload...]`.
pub struct DataPacket {
    header: HeaderData,
    payload: Vec<u8>,
}

impl View for DataPacket {
    type V = (DataType, Seq<u8>);

    closed spec fn view(&self) -> (DataType, Seq<u8>) {
        (self.header.data_type, self.payload@)
    }
}

impl DataPacket {
    /// The header's length field agrees with the payload.
    pub closed spec fn wf(&self) -> bool {
        self.header.data_len == self.payload.len()
    }

    /// The packet's bytes: the kind's byte, the length, then the payload.
    pub fn group(&self) -> (r: Vec<u8>)
        requires
            self@.1.len() <= 255,
        ensures
            r@ == seq![datatype_code(self@.0), self@.1.len() as u8] + self@.1,
    {
        let mut out: Vec<u8> = Vec::new();
        out.push(datatype_to_int(&self.header.data_type));
        out.push(self.payload.len() as u8);
        let mut i: usize = 0;
        while i < self.payload.len()
            invariant
                i <= self.payload@.len(),
                self.payload@.len() <= 255,
                out@ =~= seq![datatype_code(self.header.data_type), self.payload@.len() as u8]
                    + self.payload@.take(i as int),
            decreases self.payload.len() - i,
        {
            out.push(self.payload[i]);
            i = i + 1;
        }
        assert(self.payload@.take(i as int) =~= self.payload@);
        out
    }
}

/// A packet of kind `dt` carrying `data`.
pub fn create_packet(dt: DataType, data: Vec<u8>) -> (r: DataPacket)
    ensures
        r.wf(),
        r@ == (dt, data@),
{
    let head = HeaderData { data_type: dt, data_len: data.len() };
    DataPacket { header: head, payload: data }
}

} // verus!
