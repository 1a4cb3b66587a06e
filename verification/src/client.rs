//! What the client computes around one round trip: where the request goes,
//! the credential header that goes with it, and what the caller is handed
//! once the transport has reported.

use vstd::prelude::*;
use vstd::string::StringSliceAdditionalSpecFns;
use vstd::utf8::encode_utf8;

use crate::errors::ApiError;
use crate::schema::response::ChatCompletionsResponse;
use crate::text::joined;

verus! {

/// The value of an HTTP header; the library fills it and hands it on.
#[verifier::external_type_specification]
#[verifier::external_body]
pub struct ExHeaderValue(reqwest::header::HeaderValue);

/// The refusal of a text as the value of an HTTP header.
#[verifier::external_type_specification]
#[verifier::external_body]
pub struct ExInvalidHeaderValue(reqwest::header::InvalidHeaderValue);

/// The bytes that a header value holds.
pub uninterp spec fn header_bytes(value: reqwest::header::HeaderValue) -> Seq<u8>;

/// A byte that a header value may hold: none of the control bytes but the tab.
pub open spec fn is_header_byte(byte: u8) -> bool {
    byte >= 32 && byte != 127 || byte == 9
}

/// A character that a credential may hold: visible ASCII, the space or the tab.
pub open spec fn is_credential_char(c: char) -> bool {
    (' ' <= c && c <= '~') || c == '\t'
}

/// A usable credential: every character is one that a credential may hold.
pub open spec fn is_credential(api_key: Seq<char>) -> bool {
    forall|i: int| 0 <= i < api_key.len() ==> is_credential_char(#[trigger] api_key[i])
}

/// The text of the authorization header for `api_key`.
pub open spec fn bearer(api_key: Seq<char>) -> Seq<char> {
    "Bearer "@ + api_key
}

/// The address of the service.
pub open spec fn base_url() -> Seq<char> {
    "https://api.deepseek.com"@
}

/// Calls `HeaderValue::from_str` of the `http` crate, by the name under which
/// `reqwest` hands it on. It accepts a text exactly when each byte of its
/// UTF-8 form is at least 32 and not 127, or is the tab; the value then holds
/// those bytes.
#[verifier::external_body]
fn header_value(text: &str) -> (outcome: Result<
    reqwest::header::HeaderValue,
    reqwest::header::InvalidHeaderValue,
>)
    ensures
        outcome is Ok <==> forall|i: int|
            0 <= i < encode_utf8(text@).len() ==> is_header_byte(#[trigger] encode_utf8(text@)[i]),
        outcome is Ok ==> header_bytes(outcome->Ok_0) == encode_utf8(text@),
{
    reqwest::header::HeaderValue::from_str(text)
}

/// The address of the chat-completions operation.
pub fn chat_endpoint() -> (url: String)
    ensures
        url@ == base_url() + "/chat/completions"@,
{
    joined("https://api.deepseek.com", "/chat/completions")
}

/// The authorization header that carries `api_key` as a bearer credential.
/// A key is refused when it holds a character outside ASCII, or a control
/// character other than the tab.
pub fn authorization(api_key: &str) -> (header: Option<reqwest::header::HeaderValue>)
    ensures
        header is Some <==> is_credential(api_key@),
        header is Some ==> header_bytes(header->Some_0) == encode_utf8(bearer(api_key@)),
{
    if !api_key.is_ascii() {
        proof {
            if is_credential(api_key@) {
                assert forall|i: int| 0 <= i < api_key@.len() implies api_key@[i] as nat
                    <= 127 by {
                    assert(is_credential_char(api_key@[i]));
                }
            }
        }
        return None;
    }
    let text = joined("Bearer ", api_key);
    let line = text.as_str();
    proof {
        reveal_strlit("Bearer ");
        let chars = line@;
        assert forall|i: int| 0 <= i < chars.len() implies chars[i] as nat <= 127 by {
            if i >= 7 {
                assert(chars[i] == api_key@[i - 7]);
            }
        }
        vstd::string::is_ascii_spec_bytes(line);
        let bytes = line.spec_bytes();
        if is_credential(api_key@) {
            assert forall|i: int| 0 <= i < bytes.len() implies is_header_byte(
                #[trigger] bytes[i],
            ) by {
                if i >= 7 {
                    assert(chars[i] == api_key@[i - 7]);
                    assert(is_credential_char(api_key@[i - 7]));
                }
            }
        }
        if forall|i: int| 0 <= i < bytes.len() ==> is_header_byte(#[trigger] bytes[i]) {
            assert forall|i: int| 0 <= i < api_key@.len() implies is_credential_char(
                #[trigger] api_key@[i],
            ) by {
                assert(chars[i + 7] == api_key@[i]);
                assert(is_header_byte(bytes[i + 7]));
            }
        }
    }
    match header_value(line) {
        Ok(value) => Some(value),
        Err(_) => None,
    }
}

/// What one round trip hands to the caller: the failure of the transport if
/// the reply did not arrive, else the failure of the codec if the body could
/// not be read, else the reply itself.
pub fn outcome(
    reply: Result<Result<ChatCompletionsResponse, serde_json::Error>, reqwest::Error>,
) -> (handed: Result<ChatCompletionsResponse, ApiError>)
    ensures
        handed == match reply {
            Err(cause) => Err::<ChatCompletionsResponse, ApiError>(ApiError::RequestError(cause)),
            Ok(Err(cause)) => Err(ApiError::SerdeJsonError(cause)),
            Ok(Ok(response)) => Ok(response),
        },
{
    match reply {
        Err(cause) => Err(ApiError::from(cause)),
        Ok(Err(cause)) => Err(ApiError::from(cause)),
        Ok(Ok(response)) => Ok(response),
    }
}

} // verus!
