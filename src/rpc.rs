//! The parts of the node's JSON-RPC answers that the account queries read.
use vstd::prelude::*;

verus! {

/// The answer to a `view_state` query.
#[derive(Clone, Debug, PartialEq, Eq)]
pub struct Response {
    pub id: String,
    pub jsonrpc: String,
    pub result: ResponseResult,
}

/// The answer to a `block` query.
#[derive(Clone, Debug, PartialEq, Eq)]
pub struct ResponseBlock {
    pub id: String,
    pub jsonrpc: String,
    pub result: Block,
}

/// A block, of which only the header is read.
#[derive(Clone, Debug, PartialEq, Eq)]
pub struct Block {
    pub header: BlockHeader,
}

/// The state of an account at a block.
#[derive(Clone, Debug, PartialEq, Eq)]
pub struct ResponseResult {
    pub block_hash: String,
    pub block_height: u64,
    pub proof: Vec<String>,
    pub values: Vec<ResponseValue>,
}

/// One stored key and its value, both base64 text.
#[derive(Clone, Debug, PartialEq, Eq)]
pub struct ResponseValue {
    pub key: String,
    pub proof: Vec<String>,
    pub value: String,
}

/// The height and timestamp (in nanoseconds) of a block.
#[derive(Clone, Copy, Debug, PartialEq, Eq, Structural)]
pub struct BlockHeader {
    pub height: u64,
    pub timestamp: u64,
}

/// Why a stored value could not be read.
#[derive(Clone, Copy, Debug, PartialEq, Eq, Structural)]
pub enum ValueError {
    /// The value is not valid base64 text.
    InvalidBase64,
}

#[verifier::external_type_specification]
#[verifier::external_body]
pub struct ExDecodeError(base64::DecodeError);

/// The bytes that base64 text (standard alphabet, with padding) encodes, or
/// `None` where the text is not valid base64.
pub uninterp spec fn base64_decoding(text: Seq<char>) -> Option<Seq<u8>>;

/// Relies on `base64::decode` (standard configuration): it returns the bytes
/// that the text encodes, or a `DecodeError` where the text is not valid
/// base64, and the outcome depends on the text alone.
#[verifier::external_body]
fn decode_base64(text: &String) -> (r: Result<Vec<u8>, base64::DecodeError>)
    ensures
        r is Ok <==> base64_decoding(text@) is Some,
        r is Ok ==> r->Ok_0@ == base64_decoding(text@)->Some_0,
{
    base64::decode(text)
}

impl ResponseResult {
    /// The first stored value, where there is one; the lockup state is
    /// stored under a single key.
    pub fn first_value(&self) -> (r: Option<&ResponseValue>)
        ensures
            self.values@.len() == 0 ==> r is None,
            self.values@.len() > 0 ==> r == Some(&self.values@[0]),
    {
        if self.values.len() > 0 {
            Some(&self.values[0])
        } else {
            None
        }
    }
}

impl ResponseValue {
    /// The raw bytes of the stored value.
    pub fn decoded_value(&self) -> (r: Result<Vec<u8>, ValueError>)
        ensures
            r is Ok <==> base64_decoding(self.value@) is Some,
            r is Ok ==> r->Ok_0@ == base64_decoding(self.value@)->Some_0,
            r is Err ==> r->Err_0 == ValueError::InvalidBase64,
    {
        match decode_base64(&self.value) {
            Ok(bytes) => Ok(bytes),
            Err(_) => Err(ValueError::InvalidBase64),
        }
    }
}

} // verus!
