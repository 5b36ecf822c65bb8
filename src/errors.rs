use vstd::prelude::*;

verus! {

/// Every way a connection can fail; each one ends only the connection it occurred on.
#[derive(Clone, Copy, Debug, PartialEq, Eq, Structural)]
pub enum ProtocolError {
    /// No algorithm in common for some family.
    NegotiationFailure,
    /// A header or length that does not fit the buffer, or an odd 16-bit payload.
    MalformedPacket,
    /// A packet whose payload was required but has length zero.
    EmptyPayload,
    /// A packet whose encoding byte is not the one the reader expects.
    WrongEncoding,
    /// An algorithm code that is not in the catalog.
    UnknownAlgorithm,
    /// Key material of the wrong length or encoding.
    KeyDeserialization,
    /// Two pieces of key material tagged with different KEMs.
    AlgorithmMismatch,
    /// A pre-shared key whose length is not the KDF's output length.
    PskLength,
    /// A pre-shared key identifier that names no stored key.
    UnknownPsk,
    /// The key derivation function refused its input.
    KeyDerivation,
    /// Key encapsulation or decapsulation failed, or the KEM refused key bytes of the right
    /// length (a point that is not on the curve).
    KeyExchange,
    /// The peer answered a packet with something other than the acknowledgment.
    NotAcknowledged,
    /// A complete message was handed over while a part of it is missing.
    IncompleteMessage,
}

} // verus!
