use vstd::prelude::*;
use vstd::utf8::{valid_utf8, encode_utf8, decode_utf8};

verus! {

/// The bytes the standard-alphabet base64 text `text` decodes to, or absent
/// when `text` is not valid base64. Named, not written out: the codec is the
/// outside crate's.
pub uninterp spec fn base64_decoded(text: Seq<char>) -> Option<Seq<u8>>;

/// The standard-alphabet base64 text that encodes `bytes`.
pub uninterp spec fn base64_encoded(bytes: Seq<u8>) -> Seq<char>;

/// Relies on aws_smithy_types::base64::decode: decoding with the standard
/// base64 alphabet, a function of the input text alone, which fails exactly
/// when the text is not valid base64.
#[verifier::external_body]
fn decode_base64(text: &str) -> (r: Option<Vec<u8>>)
    ensures
        match r {
            Some(v) => base64_decoded(text@) == Some(v@),
            None => base64_decoded(text@) is None,
        },
{
    aws_smithy_types::base64::decode(text).ok()
}

/// Relies on aws_smithy_types::base64::encode: encoding with the standard
/// base64 alphabet, a function of the input bytes alone, whose result always
/// decodes back to exactly those bytes.
#[verifier::external_body]
fn encode_base64(bytes: &[u8]) -> (r: String)
    ensures
        r@ == base64_encoded(bytes@),
        base64_decoded(r@) == Some(bytes@),
{
    aws_smithy_types::base64::encode(bytes)
}

/// Relies on String::from_utf8: it succeeds exactly on valid UTF-8, and the
/// returned string then holds exactly the given bytes.
#[verifier::external_body]
fn utf8_to_string(bytes: &[u8]) -> (r: Option<String>)
    ensures
        match r {
            Some(s) => valid_utf8(bytes@) && encode_utf8(s@) == bytes@,
            None => !valid_utf8(bytes@),
        },
{
    String::from_utf8(bytes.to_vec()).ok()
}

/// What a synchronous function invocation returned: the execution log as
/// base64-encoded text, and the raw response payload bytes. Decoding happens
/// lazily, on access.
pub struct LambdaResult {
    base64_logs: String,
    payload: Vec<u8>,
}

impl LambdaResult {
    /// The stored base64 log text.
    pub closed spec fn spec_base64_logs(self) -> Seq<char> {
        self.base64_logs@
    }

    /// The stored raw payload bytes.
    pub closed spec fn spec_payload(self) -> Seq<u8> {
        self.payload@
    }

    /// An invocation result holding exactly the given log text and payload
    /// bytes.
    pub fn new(base64_logs: String, payload: Vec<u8>) -> (r: LambdaResult)
        ensures
            r.spec_base64_logs() == base64_logs@,
            r.spec_payload() == payload@,
    {
        LambdaResult { base64_logs, payload }
    }

    /// An invocation result as the service reports it: the payload bytes, and
    /// the base64 log text of the response, an absent log defaulting to the
    /// empty text.
    pub fn from_response(log_result: Option<String>, payload: Vec<u8>) -> (r: LambdaResult)
        ensures
            r.spec_payload() == payload@,
            match log_result {
                Some(logs) => r.spec_base64_logs() == logs@,
                None => r.spec_base64_logs() == Seq::<char>::empty(),
            },
    {
        let base64_logs = match log_result {
            Some(logs) => logs,
            None => String::new(),
        };
        LambdaResult { base64_logs, payload }
    }

    /// The execution log as text: the stored base64 text decoded to bytes,
    /// read as UTF-8.
    ///
    /// Callable only when the stored text is valid base64 of valid UTF-8;
    /// on anything else the decode is a fault, not a recoverable error —
    /// `try_get_logs` is the total variant.
    pub fn get_logs(&self) -> (r: String)
        requires
            base64_decoded(self.spec_base64_logs()) matches Some(b) && valid_utf8(b),
        ensures
            r@ == decode_utf8(base64_decoded(self.spec_base64_logs()).unwrap()),
    {
        let decoded = match decode_base64(self.base64_logs.as_str()) {
            Some(v) => v,
            None => vstd::pervasive::unreached(),
        };
        let text = match utf8_to_string(decoded.as_slice()) {
            Some(s) => s,
            None => vstd::pervasive::unreached(),
        };
        proof {
            vstd::utf8::encode_utf8_decode_utf8(text@);
        }
        text
    }

    /// The execution log as text, or nothing when the stored text is not
    /// valid base64 or its bytes are not valid UTF-8.
    pub fn try_get_logs(&self) -> (r: Option<String>)
        ensures
            match r {
                Some(s) => base64_decoded(self.spec_base64_logs()) matches Some(b) && valid_utf8(b)
                    && s@ == decode_utf8(b),
                None => !(base64_decoded(self.spec_base64_logs()) matches Some(b)
                    && valid_utf8(b)),
            },
    {
        match decode_base64(self.base64_logs.as_str()) {
            None => None,
            Some(decoded) => match utf8_to_string(decoded.as_slice()) {
                None => None,
                Some(_text) => Some(self.get_logs()),
            },
        }
    }

    /// The raw response payload read as UTF-8 text.
    ///
    /// Callable only when the payload bytes are valid UTF-8; on anything else
    /// the read is a fault, not a recoverable error — `try_get_payload` is
    /// the total variant.
    pub fn get_payload(&self) -> (r: String)
        requires
            valid_utf8(self.spec_payload()),
        ensures
            r@ == decode_utf8(self.spec_payload()),
    {
        let text = match utf8_to_string(self.payload.as_slice()) {
            Some(s) => s,
            None => vstd::pervasive::unreached(),
        };
        proof {
            vstd::utf8::encode_utf8_decode_utf8(text@);
        }
        text
    }

    /// The raw response payload as text, or nothing when its bytes are not
    /// valid UTF-8.
    pub fn try_get_payload(&self) -> (r: Option<String>)
        ensures
            match r {
                Some(s) => valid_utf8(self.spec_payload()) && s@ == decode_utf8(
                    self.spec_payload(),
                ),
                None => !valid_utf8(self.spec_payload()),
            },
    {
        match utf8_to_string(self.payload.as_slice()) {
            None => None,
            Some(_text) => Some(self.get_payload()),
        }
    }
}

/// Encodes log text the way the invocation service reports it: the text's
/// UTF-8 bytes, as standard-alphabet base64.
///
/// The result always decodes back: stored in a `LambdaResult`, it satisfies
/// exactly what `get_logs` asks, and `get_logs` then returns `text` itself.
pub fn encode_logs(text: &str) -> (r: String)
    ensures
        r@ == base64_encoded(encode_utf8(text@)),
        base64_decoded(r@) == Some(encode_utf8(text@)),
        valid_utf8(encode_utf8(text@)),
        decode_utf8(encode_utf8(text@)) == text@,
{
    let bytes = text.as_bytes();
    proof {
        vstd::utf8::encode_utf8_valid_utf8(text@);
        vstd::utf8::encode_utf8_decode_utf8(text@);
    }
    encode_base64(bytes)
}

} // verus!
