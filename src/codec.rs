//! Requests and responses, their wire form, and the work done for one
//! request: decode it, search for its nonce, encode the answer.

use crate::digest::{handle_request, solves};
use vstd::prelude::*;

verus! {

/// A puzzle to solve: the data to hash and the number of leading zero bits
/// the digest must have.
pub struct Request {
    pub data: Vec<u8>,
    pub difficulty: u8,
}

/// The answer to a request: its data and difficulty, echoed, and the
/// smallest nonce that solves it.
pub struct Response {
    pub data: Vec<u8>,
    pub difficulty: u8,
    pub nonce: u32,
}

/// Why a request produced no response.
#[derive(PartialEq, Eq, Structural, Clone, Copy, Debug)]
pub enum TaskError {
    /// The payload is not a well-formed request.
    Malformed,
    /// No 32-bit nonce solves the request.
    Unsolvable,
    /// The response could not be encoded.
    Encoding,
}

#[verifier::external_type_specification]
#[verifier::external_body]
pub struct ExPostcardError(postcard::Error);

/// What postcard makes of a payload read as a request, a pair of a byte
/// string and a `u8`; `None` where it refuses the payload.
pub uninterp spec fn request_decoding(payload: Seq<u8>) -> Option<(Seq<u8>, u8)>;

/// The postcard encoding of a response, a byte string, a `u8` and a `u32`;
/// `None` where postcard fails to encode it.
pub uninterp spec fn response_encoding(data: Seq<u8>, difficulty: u8, nonce: u32) -> Option<Seq<u8>>;

/// Relies on `postcard::from_bytes` for a `(&[u8], u8)` pair: the request's
/// fields in the order they are written.
#[verifier::external_body]
fn postcard_decode_request(payload: &[u8]) -> (r: Result<(Vec<u8>, u8), postcard::Error>)
    ensures
        match r {
            Ok((data, difficulty)) => request_decoding(payload@) == Some((data@, difficulty)),
            Err(_) => request_decoding(payload@) is None,
        },
{
    match postcard::from_bytes::<(&[u8], u8)>(payload) {
        Ok((data, difficulty)) => Ok((data.to_vec(), difficulty)),
        Err(e) => Err(e),
    }
}

/// Relies on `postcard::to_allocvec` for a `(&[u8], u8, u32)` triple: the
/// response's fields in the order they are written.
#[verifier::external_body]
fn postcard_encode_response(data: &[u8], difficulty: u8, nonce: u32) -> (r: Result<Vec<u8>, postcard::Error>)
    ensures
        match r {
            Ok(bytes) => response_encoding(data@, difficulty, nonce) == Some(bytes@),
            Err(_) => response_encoding(data@, difficulty, nonce) is None,
        },
{
    postcard::to_allocvec(&(data, difficulty, nonce))
}

/// Decodes a request from its wire form.
pub fn decode_request(payload: &[u8]) -> (r: Result<Request, TaskError>)
    ensures
        match r {
            Ok(req) => request_decoding(payload@) == Some((req.data@, req.difficulty)),
            Err(e) => e == TaskError::Malformed && request_decoding(payload@) is None,
        },
{
    match postcard_decode_request(payload) {
        Ok((data, difficulty)) => Ok(Request { data, difficulty }),
        Err(_) => Err(TaskError::Malformed),
    }
}

/// Encodes a response to its wire form.
pub fn encode_response(response: &Response) -> (r: Result<Vec<u8>, TaskError>)
    ensures
        match r {
            Ok(bytes) => response_encoding(response.data@, response.difficulty, response.nonce) == Some(bytes@),
            Err(e) => e == TaskError::Encoding
                && response_encoding(response.data@, response.difficulty, response.nonce) is None,
        },
{
    match postcard_encode_response(response.data.as_slice(), response.difficulty, response.nonce) {
        Ok(bytes) => Ok(bytes),
        Err(_) => Err(TaskError::Encoding),
    }
}

/// `n` is the smallest nonce that solves `data` at `difficulty`.
pub open spec fn least_solution(data: Seq<u8>, difficulty: u8, n: u32) -> bool {
    solves(data, difficulty, n) && forall|m: u32| m < n ==> !solves(data, difficulty, m)
}

/// Solves a request: the response echoes it and carries the smallest nonce
/// that solves it; a request that no 32-bit nonce solves is unsolvable.
pub fn solve(request: Request) -> (r: Result<Response, TaskError>)
    ensures
        match r {
            Ok(resp) => resp.data@ == request.data@ && resp.difficulty == request.difficulty
                && least_solution(request.data@, request.difficulty, resp.nonce),
            Err(e) => e == TaskError::Unsolvable
                && forall|m: u32| !solves(request.data@, request.difficulty, m),
        },
        request.difficulty == 0 ==> (r matches Ok(resp) && resp.nonce == 0),
{
    match handle_request(request.data.as_slice(), request.difficulty) {
        Some(nonce) => Ok(Response { data: request.data, difficulty: request.difficulty, nonce }),
        None => Err(TaskError::Unsolvable),
    }
}

/// All the work for one payload: decode the request, solve it, and encode the
/// response. A malformed payload, an unsolvable request or an encoding
/// failure is reported as such.
pub fn process_payload(payload: &[u8]) -> (r: Result<Vec<u8>, TaskError>)
    ensures
        request_decoding(payload@) is None <==> r matches Err(TaskError::Malformed),
        request_decoding(payload@) matches Some((data, difficulty))
            ==> (r matches Err(TaskError::Unsolvable) <==> forall|m: u32| !solves(data, difficulty, m)),
        request_decoding(payload@) matches Some((data, difficulty)) ==> (r matches Ok(bytes)
            ==> exists|n: u32| #[trigger] least_solution(data, difficulty, n)
                && response_encoding(data, difficulty, n) == Some(bytes@)),
        request_decoding(payload@) matches Some((data, difficulty)) ==> (r matches Err(TaskError::Encoding)
            ==> exists|n: u32| #[trigger] least_solution(data, difficulty, n)
                && response_encoding(data, difficulty, n) is None),
{
    let request = match decode_request(payload) {
        Ok(req) => req,
        Err(e) => return Err(e),
    };
    let ghost data = request.data@;
    let ghost difficulty = request.difficulty;
    let response = match solve(request) {
        Ok(resp) => resp,
        Err(e) => return Err(e),
    };
    let r = encode_response(&response);
    proof {
        assert(solves(data, difficulty, response.nonce));
        assert(request_decoding(payload@) matches Some((d, k)) ==> d == data && k == difficulty);
    }
    r
}

} // verus!
