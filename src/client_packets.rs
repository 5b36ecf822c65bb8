use vstd::prelude::*;

verus! {

/// The data an initiator sends, each kind with its bytes.
#[derive(Clone, Debug)]
pub enum DataType {
    EncappedKey(Vec<u8>),
    Ciphertext(Vec<u8>),
    AssociatedData(Vec<u8>),
    TagBytes(Vec<u8>),
}

/// The header byte of each kind of data.
pub open spec fn data_type_code(d: DataType) -> u8 {
    match d {
        DataType::EncappedKey(_) => 1,
        DataType::Ciphertext(_) => 2,
        DataType::AssociatedData(_) => 3,
        DataType::TagBytes(_) => 4,
    }
}

pub fn data_type_int(data_ype: DataType) -> (r: u8)
    ensures
        r == data_type_code(data_ype),
{
    match data_ype {
        DataType::EncappedKey(_) => 1,
        DataType::Ciphertext(_) => 2,
        DataType::AssociatedData(_) => 3,
        DataType::TagBytes(_) => 4,
    }
}

/// A one-byte header followed by its payload.
pub struct DataPacket {
    pub header: u8,
    pub payload: Vec<u8>,
}

impl DataPacket {
    /// The packet's bytes: the header, then the payload.
    pub fn group(&self) -> (r: Vec<u8>)
        ensures
            r@ == seq![self.header] + self.payload@,
    {
        let mut out: Vec<u8> = Vec::new();
        out.push(self.header);
        let mut i: usize = 0;
        while i < self.payload.len()
            invariant
                i <= self.payload@.len(),
                out@ =~= seq![self.header] + self.payload@.take(i as int),
            decreases self.payload.len() - i,
        {
            out.push(self.payload[i]);
            i = i + 1;
        }
        assert(self.payload@.take(i as int) =~= self.payload@);
        out
    }
}

} // verus!
