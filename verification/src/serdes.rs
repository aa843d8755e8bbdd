//! Byte encoding of values: what a value writes, and what reading it back gives.
use vstd::prelude::*;

verus! {

/// Failure to read a value back from bytes.
#[derive(Debug, Clone, Copy, PartialEq, Eq)]
pub enum DecodeError {
    /// The bytes ended before the value did.
    UnexpectedEof,
}

/// A value that can be written as bytes.
pub trait Encode {
    /// The bytes that `encode` appends for this value.
    spec fn encoding(&self) -> Seq<u8>;

    /// Appends the encoding of `self` to `writer`.
    fn encode(&self, writer: &mut Vec<u8>)
        ensures
            final(writer)@ == old(writer)@ + self.encoding(),
    ;

    /// The number of bytes that `encode` appends.
    fn size(&self) -> (n: usize)
        requires
            self.encoding().len() <= usize::MAX,
        ensures
            n as int == self.encoding().len(),
    ;
}

/// A value that can be read back from bytes.
pub trait Decode: Sized {
    /// The inputs on which reading a value is defined (elsewhere it is a logic error).
    spec fn decodable(bytes: Seq<u8>) -> bool;

    /// The value read from the front of `bytes` and the number of bytes it takes,
    /// or `None` where the bytes end too early.
    spec fn parse(bytes: Seq<u8>) -> Option<(Self, int)>;

    /// Reads a value from the front of `bytes`, returning it with the number of
    /// bytes it took.
    fn decode(bytes: &[u8]) -> (r: Result<(Self, usize), DecodeError>)
        requires
            Self::decodable(bytes@),
        ensures
            match r {
                Ok((v, n)) => n <= bytes@.len() && Self::parse(bytes@) == Some((v, n as int)),
                Err(e) => e == DecodeError::UnexpectedEof && Self::parse(bytes@) is None,
            },
    ;
}

impl Encode for u8 {
    open spec fn encoding(&self) -> Seq<u8> {
        seq![*self]
    }

    fn encode(&self, writer: &mut Vec<u8>) {
        writer.push(*self);
    }

    fn size(&self) -> (n: usize) {
        1
    }
}

impl Decode for u8 {
    open spec fn decodable(bytes: Seq<u8>) -> bool {
        true
    }

    open spec fn parse(bytes: Seq<u8>) -> Option<(u8, int)> {
        if bytes.len() == 0 {
            None
        } else {
            Some((bytes[0], 1))
        }
    }

    fn decode(bytes: &[u8]) -> (r: Result<(u8, usize), DecodeError>) {
        if bytes.len() == 0 {
            Err(DecodeError::UnexpectedEof)
        } else {
            Ok((bytes[0], 1))
        }
    }
}

/// A byte reads back as itself from the front of its encoding, whatever follows it.
pub proof fn lemma_u8_roundtrip(v: u8, rest: Seq<u8>)
    ensures
        <u8 as Decode>::parse(v.encoding() + rest) == Some((v, v.encoding().len() as int)),
{
    assert((v.encoding() + rest)[0] == v);
}

} // verus!
