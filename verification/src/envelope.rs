//! The envelope in which every answer of the front travels.
//!
//! A success carries its payload as base64 text with code `0` and no message;
//! a failure carries no data, the text of the failure and the code `-1`.

use crate::codec::{base64_standard, decode_standard, decodes_to, encode_standard, encoded_len};
use crate::error::Error;
use vstd::prelude::*;

verus! {

/// The code of every failure envelope.
pub const FAILURE_CODE: i32 = -1;

/// The answer to one call: `data`, a message and a code, `0` for success.
#[derive(Debug, PartialEq, Eq)]
pub struct XResponse<T> {
    pub data: T,
    pub msg: String,
    pub code: i32,
}

impl XResponse<String> {
    /// This envelope is the success envelope of `payload`.
    pub open spec fn carries(&self, payload: Seq<u8>) -> bool {
        &&& self.code == 0
        &&& self.msg@.len() == 0
        &&& self.data@ == base64_standard(payload)
    }

    /// This envelope reports a failure with the given text.
    pub open spec fn reports(&self, text: Seq<char>) -> bool {
        &&& self.code == FAILURE_CODE
        &&& self.msg@ == text
        &&& self.data@.len() == 0
    }

    /// Whether a payload of `len` bytes has a base64 form that memory can hold.
    pub fn fits(len: usize) -> (r: bool)
        ensures
            r == (encoded_len(len as nat) <= isize::MAX),
    {
        let groups: usize = len / 3 + (if len % 3 == 0 {
            0
        } else {
            1
        });
        groups <= (isize::MAX as usize) / 4
    }

    /// The success envelope around a text that is encoded already: the text
    /// as `data`, code `0`, no message.
    pub fn success(data: String) -> (r: Self)
        ensures
            r.data == data,
            r.msg@.len() == 0,
            r.code == 0,
    {
        XResponse { code: 0, msg: String::new(), data }
    }

    /// Wraps a payload for the caller: its standard base64 form, code `0`, no
    /// message.
    pub fn new(v: &Vec<u8>) -> (r: Self)
        requires
            encoded_len(v@.len()) <= isize::MAX,
        ensures
            r.carries(v@),
            r.data@.len() == encoded_len(v@.len()),
    {
        XResponse::<String>::success(encode_standard(v))
    }

    /// The envelope that tells the caller of a failure.
    pub fn failure(err: &Error) -> (r: Self)
        ensures
            r.code == FAILURE_CODE,
            r.data@.len() == 0,
            err matches Error::BaseErr(e) ==> r.reports(e.text()),
            err matches Error::SimpleErr(text) ==> r.reports(text@),
            err matches Error::Base64DocodeErr(e) ==> vstd::string::to_string_from_display_ensures::<
                base64::DecodeError,
            >(e, r.msg),
    {
        XResponse { data: String::new(), msg: err.message(), code: FAILURE_CODE }
    }

    /// Reads the payload back out of `data`, as a client does.
    ///
    /// The payload comes back exactly when `data` is the standard base64 form
    /// of some bytes, and then it is those bytes; any other text is refused
    /// with `Error::Base64DocodeErr`. The code and the message are not looked
    /// at.
    pub fn payload(&self) -> (r: Result<Vec<u8>, Error>)
        ensures
            decodes_to(
                self.data@,
                match r {
                    Ok(bytes) => Some(bytes@),
                    Err(_) => None,
                },
            ),
            r matches Err(e) ==> e is Base64DocodeErr,
    {
        match decode_standard(self.data.as_str()) {
            Ok(bytes) => Ok(bytes),
            Err(e) => Err(Error::Base64DocodeErr(e)),
        }
    }
}

/// Encoding a payload into an envelope and reading the envelope's payload
/// gives the payload back, byte for byte: whatever `payload` returns on an
/// envelope that `new` made of some bytes, it is `Ok` of those bytes.
pub proof fn lemma_payload_round_trip(
    bytes: Seq<u8>,
    envelope: XResponse<String>,
    outcome: Option<Seq<u8>>,
)
    requires
        envelope.carries(bytes),
        decodes_to(envelope.data@, outcome),
    ensures
        outcome == Some(bytes),
{
}

} // verus!
