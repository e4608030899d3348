//! Query responses and the chain-submittable envelope built from them.
//!
//! A response's height travels as text; building the envelope parses it and
//! fails with a malformed-height error instead of trusting the text, so the
//! pipeline never aborts on a bad height.

use vstd::prelude::*;
use vstd::utf8::encode_utf8;
use crate::dec::parse_dec;
use crate::events::{CodecError, SpecCodecError};

verus! {

/// The outcome of one cross-chain query. `result` is 1 for success and 2 for
/// failure; no other value is ever produced by this library.
#[derive(Clone, Debug)]
pub struct CrossChainQueryResponse {
    pub id: String,
    pub sender: String,
    pub result: i32,
    pub data: String,
    pub height: String,
}

/// The numeric result code of a successful query.
pub const RESULT_SUCCESS: i32 = 1;

/// The numeric result code of a failed query.
pub const RESULT_FAILURE: i32 = 2;

impl CrossChainQueryResponse {
    /// A well-formed response answers with exactly success or failure.
    pub open spec fn wf(&self) -> bool {
        self.result == RESULT_SUCCESS || self.result == RESULT_FAILURE
    }

    pub fn new(id: String, sender: String, result: i32, data: String, height: String) -> (r: Self)
        requires
            result == RESULT_SUCCESS || result == RESULT_FAILURE,
        ensures
            r.id@ == id@,
            r.sender@ == sender@,
            r.result == result,
            r.data@ == data@,
            r.height@ == height@,
            r.wf(),
    {
        Self { id, sender, result, data, height }
    }

    /// Build the submittable envelope for this response, tagged with the
    /// given message-type identifier. Fails exactly when the height text is
    /// not a decimal numeral that fits in a `u64`.
    pub fn to_any(&self, type_url: &str) -> (r: Result<Envelope, CodecError>)
        ensures
            parse_dec(self.height@) is Some ==> (r is Ok && envelope_matches(
                r->Ok_0,
                *self,
                type_url@,
            )),
            parse_dec(self.height@) is None ==> (r is Err && r->Err_0@
                == SpecCodecError::MalformedHeight),
    {
        let query_height = match crate::dec::parse_u64(self.height.as_str()) {
            Some(h) => h,
            None => {
                return Err(CodecError::MalformedHeight);
            },
        };
        let data = self.data.as_str().as_bytes_vec();
        Ok(
            Envelope {
                type_url: type_url.to_owned(),
                id: self.id.clone(),
                query_height,
                result: self.result,
                data,
                sender: self.sender.clone(),
                proof_specs: Vec::new(),
            },
        )
    }

    /// The response's one-line text form.
    pub fn display_string(&self) -> (r: String)
        ensures
            r@ == "id: "@ + self.id@ + ", data: "@ + self.data@ + ", height: "@ + self.height@,
    {
        let mut s = String::from_str("id: ");
        s.append(self.id.as_str());
        s.append(", data: ");
        s.append(self.data.as_str());
        s.append(", height: ");
        s.append(self.height.as_str());
        s
    }
}

/// The submit-query-result message as the destination chain's router sees it:
/// the parsed height, the result code, the raw payload bytes, and an empty
/// proof-specification list (verification rides on the update-client message
/// submitted alongside, not on per-response proofs).
#[derive(Clone, Debug)]
pub struct Envelope {
    pub type_url: String,
    pub id: String,
    pub query_height: u64,
    pub result: i32,
    pub data: Vec<u8>,
    pub sender: String,
    pub proof_specs: Vec<Vec<u8>>,
}

/// The envelope that a response yields under a message-type identifier.
pub open spec fn envelope_matches(
    e: Envelope,
    resp: CrossChainQueryResponse,
    url: Seq<char>,
) -> bool {
    &&& e.type_url@ == url
    &&& e.id@ == resp.id@
    &&& parse_dec(resp.height@) == Some(e.query_height)
    &&& e.result == resp.result
    &&& e.data@ == encode_utf8(resp.data@)
    &&& e.sender@ == resp.sender@
    &&& e.proof_specs@.len() == 0
}

} // verus!
