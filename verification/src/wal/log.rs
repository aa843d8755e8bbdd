//! A write-ahead-log entry: its kind and the record it carries.
use crate::serdes::{Decode, DecodeError, Encode};
use vstd::prelude::*;

verus! {

/// Where an entry stands in a record that may span several entries.
#[derive(Debug, Clone, Copy)]
pub enum LogType {
    Full,
    First,
    Middle,
    Last,
}

impl LogType {
    /// The byte that stands for this kind on disk.
    pub open spec fn byte(self) -> u8 {
        match self {
            LogType::Full => 0,
            LogType::First => 1,
            LogType::Middle => 2,
            LogType::Last => 3,
        }
    }

    /// The kind that a byte below 4 stands for.
    pub open spec fn from_byte(value: u8) -> LogType
        recommends
            value < 4,
    {
        if value == 0 {
            LogType::Full
        } else if value == 1 {
            LogType::First
        } else if value == 2 {
            LogType::Middle
        } else {
            LogType::Last
        }
    }

    /// The kind that `value` stands for; only bytes 0 to 3 stand for a kind.
    pub fn from(value: u8) -> (r: LogType)
        requires
            value < 4,
        ensures
            r == Self::from_byte(value),
            r.byte() == value,
    {
        match value {
            0 => LogType::Full,
            1 => LogType::First,
            2 => LogType::Middle,
            _ => LogType::Last,
        }
    }

    /// The byte that stands for this kind.
    pub fn as_byte(self) -> (b: u8)
        ensures
            b == self.byte(),
    {
        match self {
            LogType::Full => 0,
            LogType::First => 1,
            LogType::Middle => 2,
            LogType::Last => 3,
        }
    }
}

/// Every kind's byte is below 4, and reading it back gives the kind again.
pub proof fn lemma_log_type_byte_roundtrip(t: LogType)
    ensures
        t.byte() < 4,
        LogType::from_byte(t.byte()) == t,
{
}

/// Every byte below 4 is the byte of the kind it stands for.
pub proof fn lemma_log_type_from_byte_roundtrip(value: u8)
    requires
        value < 4,
    ensures
        LogType::from_byte(value).byte() == value,
{
}

/// One entry of the write-ahead log.
#[derive(Debug)]
pub struct Log<Re> {
    pub log_type: LogType,
    pub record: Re,
}

impl<Re> Log<Re> {
    pub fn new(log_type: LogType, record: Re) -> (r: Self)
        ensures
            r.log_type == log_type,
            r.record == record,
    {
        Self { log_type, record }
    }
}

impl<Re: Encode> Encode for Log<Re> {
    /// The kind's byte, then the record's encoding.
    open spec fn encoding(&self) -> Seq<u8> {
        seq![self.log_type.byte()] + self.record.encoding()
    }

    fn encode(&self, writer: &mut Vec<u8>) {
        let tag = self.log_type.as_byte();
        tag.encode(writer);
        self.record.encode(writer);
        assert(writer@ == old(writer)@ + self.encoding());
    }

    fn size(&self) -> (n: usize) {
        1 + self.record.size()
    }
}

impl<Re: Decode> Decode for Log<Re> {
    /// A first byte that stands for no kind is never read (a logic error); after
    /// it the record must be readable.
    open spec fn decodable(bytes: Seq<u8>) -> bool {
        bytes.len() > 0 ==> bytes[0] < 4 && Re::decodable(bytes.subrange(1, bytes.len() as int))
    }

    open spec fn parse(bytes: Seq<u8>) -> Option<(Log<Re>, int)> {
        if bytes.len() == 0 {
            None
        } else {
            match Re::parse(bytes.subrange(1, bytes.len() as int)) {
                Some((record, n)) => Some((Log { log_type: LogType::from_byte(bytes[0]), record }, n + 1)),
                None => None,
            }
        }
    }

    fn decode(bytes: &[u8]) -> (r: Result<(Log<Re>, usize), DecodeError>) {
        let (tag, n) = match <u8 as Decode>::decode(bytes) {
            Ok(v) => v,
            Err(e) => return Err(e),
        };
        let log_type = LogType::from(tag);
        let rest = vstd::slice::slice_subrange(bytes, n, bytes.len());
        match Re::decode(rest) {
            Ok((record, m)) => Ok((Log { log_type, record }, n + m)),
            Err(e) => Err(e),
        }
    }
}

/// An entry reads back as itself from the front of its encoding, whatever follows
/// it, as long as its record does; and it is then readable where its record is.
pub proof fn lemma_log_roundtrip<Re: Encode + Decode>(log: Log<Re>, rest: Seq<u8>)
    requires
        Re::parse(log.record.encoding() + rest) == Some((log.record, log.record.encoding().len() as int)),
    ensures
        Log::<Re>::parse(log.encoding() + rest) == Some((log, log.encoding().len() as int)),
        Re::decodable(log.record.encoding() + rest) ==> Log::<Re>::decodable(log.encoding() + rest),
{
    let bytes = log.encoding() + rest;
    assert(bytes.subrange(1, bytes.len() as int) == log.record.encoding() + rest);
    assert(bytes[0] == log.log_type.byte());
    lemma_log_type_byte_roundtrip(log.log_type);
}

} // verus!
