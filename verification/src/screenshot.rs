//! Screenshots handed over as base64 text, and the files they are saved to.
use vstd::prelude::*;
use vstd::utf8::encode_utf8;
use base64::Engine;
use crate::control_server::after_char;
use crate::text::{chars_of, concat, decimal, decimal_string, owned, string_from_chars};

verus! {

#[verifier::external_type_specification]
#[verifier::external_body]
pub struct ExDecodeError(base64::DecodeError);

/// What base64 decoding with the standard alphabet and padding
/// (`base64::engine::general_purpose::STANDARD`) gives for the bytes `input`: the decoded
/// bytes, or nothing when the input is not valid padded base64.
pub uninterp spec fn base64_standard_decoded(input: Seq<u8>) -> Option<Seq<u8>>;

/// Decodes base64 text with the standard engine (`Engine::decode` on
/// `general_purpose::STANDARD`), handing back the crate's error when the text is not valid.
/// The result is named: it is what the crate computes from the text's bytes.
#[verifier::external_body]
fn base64_decode(input: &str) -> (r: Result<Vec<u8>, base64::DecodeError>)
    ensures
        match r {
            Ok(v) => base64_standard_decoded(encode_utf8(input@)) == Some(v@),
            Err(_) => base64_standard_decoded(encode_utf8(input@)) is None,
        },
{
    base64::engine::general_purpose::STANDARD.decode(input)
}

/// The crate's description of a decoding error (its `Display`). Nothing is claimed of the
/// text.
#[verifier::external_body]
fn decode_error_message(e: &base64::DecodeError) -> String {
    format!("{}", e)
}

/// Why screenshot data could not be turned into image bytes.
#[derive(Debug, Clone, PartialEq, Eq)]
pub struct ScreenshotDataError {
    /// The base64 decoder's description of the problem.
    pub message: String,
}

/// The base64 part of screenshot data: what follows the first comma (the end of a
/// `data:` url prefix), or all of it.
pub open spec fn base64_part(data: Seq<char>) -> Seq<char> {
    match after_char(data, ',') {
        Some(rest) => rest,
        None => data,
    }
}

/// The base64 part of screenshot data (see `base64_part`).
pub fn base64_payload(data: &str) -> (r: String)
    ensures
        r@ == base64_part(data@),
{
    let v = chars_of(data);
    let mut i: usize = 0;
    while i < v.len()
        invariant
            i <= v.len(),
            v@ == data@,
            forall|j: int| 0 <= j < i ==> v@[j] != ',',
        decreases v.len() - i,
    {
        if v[i] == ',' {
            proof {
                crate::seqs::lemma_first_index_found(v@, ',', i as int);
            }
            let mut rest: Vec<char> = Vec::new();
            let mut k: usize = i + 1;
            while k < v.len()
                invariant
                    i + 1 <= k <= v.len(),
                    rest@ == v@.subrange(i + 1, k as int),
                decreases v.len() - k,
            {
                rest.push(v[k]);
                k = k + 1;
                assert(rest@ =~= v@.subrange(i + 1, k as int));
            }
            return string_from_chars(&rest);
        }
        i = i + 1;
    }
    proof {
        crate::seqs::lemma_first_index_absent(v@, ',');
    }
    owned(data)
}

/// The image bytes of screenshot data: its base64 part, decoded.
pub fn decode_screenshot_data(data: &str) -> (r: Result<Vec<u8>, ScreenshotDataError>)
    ensures
        match base64_standard_decoded(encode_utf8(base64_part(data@))) {
            Some(bytes) => r matches Ok(v) && v@ == bytes,
            None => r is Err,
        },
{
    let payload = base64_payload(data);
    decode_base64_text(payload.as_str())
}

/// Base64 text decoded with the standard engine.
pub fn decode_base64_text(text: &str) -> (r: Result<Vec<u8>, ScreenshotDataError>)
    ensures
        match base64_standard_decoded(encode_utf8(text@)) {
            Some(bytes) => r matches Ok(v) && v@ == bytes,
            None => r is Err,
        },
{
    match base64_decode(text) {
        Ok(bytes) => Ok(bytes),
        Err(e) => Err(ScreenshotDataError { message: decode_error_message(&e) }),
    }
}

/// The name a screenshot taken at `secs` seconds after the epoch is saved under.
pub fn screenshot_file_name(secs: u64) -> (r: String)
    ensures
        r@ == "screenshot_"@ + decimal(secs as nat) + ".png"@,
{
    let n = decimal_string(secs);
    let a = concat("screenshot_", &n);
    concat(&a, ".png")
}

} // verus!
