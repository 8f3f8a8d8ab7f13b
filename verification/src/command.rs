use vstd::prelude::*;
use crate::json::encode_text;
use crate::json::json_text;
use crate::wire::decimal;
use crate::wire::push_decimal;

verus! {

/// One member of a document: a JSON-encoded name and a JSON-encoded value.
#[derive(Debug, Clone, PartialEq, Eq)]
pub struct Field {
    pub key: Vec<u8>,
    pub value: Vec<u8>,
}

/// The payload of an insert: an ordered list of members.
#[derive(Debug, Clone, PartialEq, Eq)]
pub struct Document {
    pub fields: Vec<Field>,
}

/// One mutation to apply to the index.
#[derive(Debug, Clone, PartialEq, Eq)]
pub enum BulkRequestCommand {
    Insert { ctid: u64, cmin: u32, cmax: u32, xmin: u64, xmax: u64, document: Document },
    Update { ctid: u64, cmax: u32, xmax: u64 },
    DeleteByXmin { ctid: u64, xmin: u64 },
    DeleteByXmax { ctid: u64, xmax: u64 },
    Interrupt,
    Done,
}

/// What can end a bulk operation.
#[derive(Debug, Clone, PartialEq, Eq)]
pub enum BulkRequestError {
    /// The engine answered and reported that items failed, or its answer could not be read.
    IndexingError(String),
    /// The refresh call after the drain failed.
    RefreshError(String),
    /// Nothing has been reported.
    NoError,
    /// The connection failed or the engine answered with a failure status.
    TransportError(String),
    /// Termination was requested.
    Interrupted,
    /// The queue's other side is gone.
    QueueClosed,
    /// The encoder met a command it has no encoding for.
    UnsupportedCommand,
    /// A name or a text could not be written as JSON.
    EncodingError,
    /// A worker's thread panicked; this is what it said.
    WorkerPanicked(String),
}

impl Document {
    /// A document without members.
    pub fn new() -> (out: Self)
        ensures
            out.fields@.len() == 0,
    {
        Document { fields: Vec::new() }
    }

    /// Whether `after` is `before` with one more member at its end, of the given name and value.
    pub open spec fn extended(before: Document, after: Document, key: Seq<u8>, value: Seq<u8>) -> bool {
        &&& after.fields@.len() == before.fields@.len() + 1
        &&& after.fields@.drop_last() == before.fields@
        &&& after.fields@.last().key@ == key
        &&& after.fields@.last().value@ == value
    }

    /// Adds a member whose name and value are JSON already.
    pub fn add_encoded(&mut self, key: Vec<u8>, value: Vec<u8>)
        ensures
            Self::extended(*old(self), *final(self), key@, value@),
    {
        self.fields.push(Field { key, value });
        assert(self.fields@.drop_last() =~= old(self).fields@);
    }

    /// Adds a member of the given name whose value is JSON already. The
    /// name is written as a JSON string; where that fails, so does the call,
    /// and the document stays as it was.
    pub fn add_json(&mut self, name: &str, value: Vec<u8>) -> (out: Result<(), BulkRequestError>)
        ensures
            match json_text(name@) {
                Some(key) => out is Ok && Self::extended(*old(self), *final(self), key, value@),
                None => out == Err::<(), BulkRequestError>(BulkRequestError::EncodingError)
                    && *final(self) == *old(self),
            },
    {
        match encode_text(name) {
            Ok(key) => {
                self.add_encoded(key, value);
                Ok(())
            },
            Err(_) => Err(BulkRequestError::EncodingError),
        }
    }

    /// Adds a number.
    pub fn add_u64(&mut self, name: &str, value: u64) -> (out: Result<(), BulkRequestError>)
        ensures
            match json_text(name@) {
                Some(key) => out is Ok && Self::extended(
                    *old(self),
                    *final(self),
                    key,
                    decimal(value as nat),
                ),
                None => out == Err::<(), BulkRequestError>(BulkRequestError::EncodingError)
                    && *final(self) == *old(self),
            },
    {
        let mut digits: Vec<u8> = Vec::new();
        push_decimal(&mut digits, value);
        assert(digits@ =~= decimal(value as nat));
        self.add_json(name, digits)
    }

    /// Adds a 32-bit number.
    pub fn add_u32(&mut self, name: &str, value: u32) -> (out: Result<(), BulkRequestError>)
        ensures
            match json_text(name@) {
                Some(key) => out is Ok && Self::extended(
                    *old(self),
                    *final(self),
                    key,
                    decimal(value as nat),
                ),
                None => out == Err::<(), BulkRequestError>(BulkRequestError::EncodingError)
                    && *final(self) == *old(self),
            },
    {
        self.add_u64(name, value as u64)
    }

    /// Adds a text, written as a JSON string.
    pub fn add_string(&mut self, name: &str, text: &str) -> (out: Result<(), BulkRequestError>)
        ensures
            match (json_text(name@), json_text(text@)) {
                (Some(key), Some(value)) => out is Ok && Self::extended(
                    *old(self),
                    *final(self),
                    key,
                    value,
                ),
                _ => out == Err::<(), BulkRequestError>(BulkRequestError::EncodingError)
                    && *final(self) == *old(self),
            },
    {
        match encode_text(text) {
            Ok(value) => self.add_json(name, value),
            Err(_) => Err(BulkRequestError::EncodingError),
        }
    }
}

/// The document identifier of the row at `offset` in block `block`: the
/// block number in the upper half, the offset in the lower.
pub open spec fn row_id_of(block: u32, offset: u16) -> u64 {
    (block as u64 * 0x1_0000_0000 + offset as u64) as u64
}

/// The document identifier of a row.
pub fn row_id(block: u32, offset: u16) -> (out: u64)
    ensures
        out == row_id_of(block, offset),
{
    block as u64 * 0x1_0000_0000 + offset as u64
}

/// Different rows have different identifiers.
pub proof fn law_row_ids_are_distinct(block: u32, offset: u16, other_block: u32, other_offset: u16)
    requires
        row_id_of(block, offset) == row_id_of(other_block, other_offset),
    ensures
        block == other_block,
        offset == other_offset,
{
}

} // verus!
