use vstd::prelude::*;
use crate::codes;
use crate::errors::ProtocolError;

verus! {

/// Offset of the packet identifier in the header.
pub const ID_POS_HEADER: usize = 0;
/// Offset of the payload encoding in the header.
pub const PROT_POS_HEADER: usize = 1;
/// Offset of the payload length in the header.
pub const DATALEN_POS_HEADER: usize = 2;
/// Offset of the first payload byte.
pub const DATA_START_POS: usize = 3;
/// Largest payload a single packet can carry.
pub const MAX_PAYLOAD: usize = 255;

/// The bytes of a packet: `[id][encoding][length][payload...]`.
pub open spec fn encode(id: u8, encoding: u8, payload: Seq<u8>) -> Seq<u8> {
    seq![id, encoding, payload.len() as u8] + payload
}

/// What a buffer holds, read from its fixed offsets: `None` when the header or the
/// announced payload does not fit. Bytes after the payload are not part of the packet.
pub open spec fn decode(buf: Seq<u8>) -> Option<(u8, u8, Seq<u8>)> {
    if buf.len() < 3 || buf.len() < 3 + buf[2] {
        None
    } else {
        Some((buf[0], buf[1], buf.subrange(3, 3 + buf[2] as int)))
    }
}

/// Big-endian bytes of a 16-bit value.
pub open spec fn be_bytes(x: u16) -> Seq<u8> {
    seq![(x / 256) as u8, (x % 256) as u8]
}

/// Big-endian bytes of a sequence of 16-bit values, one pair after another.
pub open spec fn be_bytes_of_all(xs: Seq<u16>) -> Seq<u8>
    decreases xs.len(),
{
    if xs.len() == 0 {
        Seq::empty()
    } else {
        be_bytes_of_all(xs.drop_last()) + be_bytes(xs.last())
    }
}

/// The 16-bit values of a byte sequence read as big-endian pairs.
pub open spec fn be_u16s(s: Seq<u8>) -> Seq<u16> {
    Seq::new(s.len() / 2, |i: int| (s[2 * i] * 256 + s[2 * i + 1]) as u16)
}

/// Decoding an encoded packet gives back its identifier, encoding and payload.
pub proof fn lemma_round_trip(id: u8, encoding: u8, payload: Seq<u8>)
    requires
        payload.len() <= 255,
    ensures
        decode(encode(id, encoding, payload)) == Some((id, encoding, payload)),
{
    let e = encode(id, encoding, payload);
    assert(e[2] == payload.len());
    assert(e.subrange(3, 3 + payload.len() as int) =~= payload);
}

/// Reading 16-bit values back from their big-endian bytes gives the same values.
pub proof fn lemma_be_round_trip(xs: Seq<u16>)
    ensures
        be_bytes_of_all(xs).len() == 2 * xs.len(),
        be_u16s(be_bytes_of_all(xs)) == xs,
    decreases xs.len(),
{
    if xs.len() > 0 {
        lemma_be_round_trip(xs.drop_last());
        let s = be_bytes_of_all(xs);
        let p = be_bytes_of_all(xs.drop_last());
        assert(s =~= p + be_bytes(xs.last()));
        assert forall|i: int| 0 <= i < xs.len() implies #[trigger] be_u16s(s)[i] == xs[i] by {
            if i < xs.len() - 1 {
                assert(be_u16s(p)[i] == xs.drop_last()[i]);
                assert(s[2 * i] == p[2 * i]);
                assert(s[2 * i + 1] == p[2 * i + 1]);
            } else {
                let x = xs.last();
                assert(s[2 * i] == (x / 256) as u8);
                assert(s[2 * i + 1] == (x % 256) as u8);
                assert((((x / 256) as u8) * 256 + ((x % 256) as u8)) as u16 == x);
            }
        }
        assert(be_u16s(s) =~= xs);
    } else {
        assert(be_u16s(be_bytes_of_all(xs)) =~= xs);
    }
}

/// A packet header as built by the sender.
pub struct Header {
    data_type: u8,
    protocol: u8,
    data_len: usize,
}

/// A packet: a header and its payload.
pub struct DataPack {
    header: Header,
    payload: Vec<u8>,
}

impl View for DataPack {
    /// Identifier, encoding and payload.
    type V = (u8, u8, Seq<u8>);

    closed spec fn view(&self) -> (u8, u8, Seq<u8>) {
        (self.header.data_type, self.header.protocol, self.payload@)
    }
}

impl DataPack {
    /// The header's length field agrees with the payload.
    pub closed spec fn wf(&self) -> bool {
        self.header.data_len == self.payload.len()
    }

    /// The packet's bytes, header first.
    pub fn group(&self) -> (r: Vec<u8>)
        requires
            self.wf(),
            self@.2.len() <= MAX_PAYLOAD,
        ensures
            r@ == encode(self@.0, self@.1, self@.2),
    {
        let mut output: Vec<u8> = Vec::new();
        output.push(self.header.data_type);
        output.push(self.header.protocol);
        output.push(self.header.data_len as u8);
        let mut i: usize = 0;
        while i < self.payload.len()
            invariant
                i <= self.payload.len(),
                output@ =~= seq![self.header.data_type, self.header.protocol, self.header.data_len as u8]
                    + self.payload@.subrange(0, i as int),
            decreases self.payload.len() - i,
        {
            output.push(self.payload[i]);
            i = i + 1;
        }
        assert(self.payload@.subrange(0, i as int) =~= self.payload@);
        output
    }
}

/// A packet with encoding `utf` and identifier `dtype` carrying `data`.
pub fn create_pack(utf: u8, dtype: u8, data: Vec<u8>) -> (r: DataPack)
    ensures
        r.wf(),
        r@ == (dtype, utf, data@),
{
    let h = Header { data_type: dtype, protocol: utf, data_len: data.len() };
    DataPack { header: h, payload: data }
}

/// The bytes of a packet with identifier `dtype` and encoding `utf` carrying `data`.
pub fn pack_as_vect(data: Vec<u8>, utf: u8, dtype: u8) -> (r: Vec<u8>)
    requires
        data@.len() <= MAX_PAYLOAD,
    ensures
        r@ == encode(dtype, utf, data@),
{
    let pack = create_pack(utf, dtype, data);
    pack.group()
}

/// A packet read from a buffer.
#[derive(Clone, Debug, PartialEq, Eq)]
pub struct WirePacket {
    pub id: u8,
    pub encoding: u8,
    pub payload: Vec<u8>,
}

/// Reads the packet at the start of `buf`.
pub fn decode_packet(buf: &[u8]) -> (r: Result<WirePacket, ProtocolError>)
    ensures
        match decode(buf@) {
            Some((id, encoding, payload)) => r matches Ok(p) && p.id == id && p.encoding
                == encoding && p.payload@ == payload,
            None => r == Err::<WirePacket, ProtocolError>(ProtocolError::MalformedPacket),
        },
{
    if buf.len() < DATA_START_POS {
        return Err(ProtocolError::MalformedPacket);
    }
    let len = buf[DATALEN_POS_HEADER] as usize;
    if buf.len() - DATA_START_POS < len {
        return Err(ProtocolError::MalformedPacket);
    }
    let mut payload: Vec<u8> = Vec::new();
    let mut i: usize = 0;
    while i < len
        invariant
            i <= len,
            len == buf@[2],
            3 + len <= buf@.len(),
            payload@ =~= buf@.subrange(3, 3 + i as int),
        decreases len - i,
    {
        payload.push(buf[DATA_START_POS + i]);
        i = i + 1;
    }
    Ok(WirePacket { id: buf[ID_POS_HEADER], encoding: buf[PROT_POS_HEADER], payload })
}

/// What a byte-payload reader returns for a buffer.
pub open spec fn bytes_payload(buf: Seq<u8>) -> Result<Seq<u8>, ProtocolError> {
    match decode(buf) {
        None => Err(ProtocolError::MalformedPacket),
        Some((_, encoding, payload)) => if payload.len() == 0 {
            Err(ProtocolError::EmptyPayload)
        } else if encoding != codes::UTF8 {
            Err(ProtocolError::WrongEncoding)
        } else {
            Ok(payload)
        },
    }
}

/// What a 16-bit-payload reader returns for a buffer.
pub open spec fn u16_payload(buf: Seq<u8>) -> Result<Seq<u16>, ProtocolError> {
    match decode(buf) {
        None => Err(ProtocolError::MalformedPacket),
        Some((_, encoding, payload)) => if payload.len() == 0 {
            Err(ProtocolError::EmptyPayload)
        } else if encoding != codes::UTF16 {
            Err(ProtocolError::WrongEncoding)
        } else if payload.len() % 2 != 0 {
            Err(ProtocolError::MalformedPacket)
        } else {
            Ok(be_u16s(payload))
        },
    }
}

/// The raw-byte payload of the packet in `buf`.
pub fn read_bytes_payload(buf: &[u8]) -> (r: Result<Vec<u8>, ProtocolError>)
    ensures
        match bytes_payload(buf@) {
            Ok(s) => r matches Ok(v) && v@ == s,
            Err(e) => r == Err::<Vec<u8>, ProtocolError>(e),
        },
{
    let p = decode_packet(buf)?;
    if p.payload.len() == 0 {
        Err(ProtocolError::EmptyPayload)
    } else if p.encoding != codes::UTF8 {
        Err(ProtocolError::WrongEncoding)
    } else {
        Ok(p.payload)
    }
}

/// The 16-bit payload of the packet in `buf`, regrouped from big-endian pairs.
pub fn read_u16_payload(buf: &[u8]) -> (r: Result<Vec<u16>, ProtocolError>)
    ensures
        match u16_payload(buf@) {
            Ok(s) => r matches Ok(v) && v@ == s,
            Err(e) => r == Err::<Vec<u16>, ProtocolError>(e),
        },
{
    let p = decode_packet(buf)?;
    let n = p.payload.len();
    if n == 0 {
        return Err(ProtocolError::EmptyPayload);
    } else if p.encoding != codes::UTF16 {
        return Err(ProtocolError::WrongEncoding);
    } else if n % 2 != 0 {
        return Err(ProtocolError::MalformedPacket);
    }
    let mut out: Vec<u16> = Vec::new();
    let mut i: usize = 0;
    while i < n / 2
        invariant
            n == p.payload@.len(),
            n % 2 == 0,
            i <= n / 2,
            out@ =~= be_u16s(p.payload@).subrange(0, i as int),
        decreases n / 2 - i,
    {
        let hi = p.payload[2 * i] as u16;
        let lo = p.payload[2 * i + 1] as u16;
        out.push(hi * 256 + lo);
        i = i + 1;
    }
    assert(be_u16s(p.payload@).subrange(0, i as int) =~= be_u16s(p.payload@));
    Ok(out)
}

/// Appends the payload of the packet in `buf` to `vec`; an empty payload appends nothing.
pub fn buf_to_vect(vec: &mut Vec<u8>, buf: &[u8])
    requires
        decode(buf@) is Some,
    ensures
        final(vec)@ == old(vec)@ + decode(buf@).unwrap().2,
{
    let len = buf[DATALEN_POS_HEADER] as usize;
    let mut i: usize = 0;
    while i < len
        invariant
            i <= len,
            len == buf@[2],
            3 + len <= buf@.len(),
            vec@ =~= old(vec)@ + buf@.subrange(3, 3 + i as int),
        decreases len - i,
    {
        vec.push(buf[DATA_START_POS + i]);
        i = i + 1;
    }
}

/// Big-endian bytes of a 16-bit value.
pub fn u16_to_vec_be(data: u16) -> (r: Vec<u8>)
    ensures
        r@ == be_bytes(data),
{
    let mut v: Vec<u8> = Vec::new();
    v.push((data / 256) as u8);
    v.push((data % 256) as u8);
    v
}

/// Big-endian bytes of every value of `data`, in order.
pub fn u16s_to_vec_be(data: &Vec<u16>) -> (r: Vec<u8>)
    ensures
        r@ == be_bytes_of_all(data@),
{
    let mut out: Vec<u8> = Vec::new();
    let mut i: usize = 0;
    while i < data.len()
        invariant
            i <= data@.len(),
            out@ == be_bytes_of_all(data@.subrange(0, i as int)),
        decreases data.len() - i,
    {
        let b = u16_to_vec_be(data[i]);
        out.push(b[0]);
        out.push(b[1]);
        assert(data@.subrange(0, i + 1).drop_last() =~= data@.subrange(0, i as int));
        assert(out@ =~= be_bytes_of_all(data@.subrange(0, i + 1)));
        i = i + 1;
    }
    assert(data@.subrange(0, i as int) =~= data@);
    out
}

/// Whether the reply to a sent packet is the acknowledgment: exactly one byte, `RECEIVED`.
pub open spec fn is_ack(reply: Seq<u8>) -> bool {
    reply.len() == 1 && reply[0] == codes::RECEIVED
}

/// Checks the reply to a sent packet: anything but the acknowledgment is a failure.
pub fn check_ack(reply: &[u8]) -> (r: Result<(), ProtocolError>)
    ensures
        is_ack(reply@) <==> r is Ok,
        r is Err ==> r == Err::<(), ProtocolError>(ProtocolError::NotAcknowledged),
{
    if reply.len() == 1 && reply[0] == codes::RECEIVED {
        Ok(())
    } else {
        Err(ProtocolError::NotAcknowledged)
    }
}

} // verus!
