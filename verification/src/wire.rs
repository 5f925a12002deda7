//! How results and errors are written on the bus: as JSON text, with the
//! variant's name as the tag.
//!
//! | value                          | text                              |
//! |--------------------------------|-----------------------------------|
//! | `Ack`                          | `"Ok"`                            |
//! | `Request(r)`                   | `{"Request":r}`                   |
//! | `Sub { id, result }`           | `{"Sub":{"id":id,"result":result}}` |
//! | `ProviderError(d)`             | `{"ProviderError":"d"}`           |
//! | `SubscriptionNotFound`         | `"SubscriptionNotFound"`          |
//! | `SubscriptionClosed`           | `"SubscriptionClosed"`            |

use crate::eth::{EthError, EthErrorView, EthResponse, EthResponseView, Json, Outcome, OutcomeView};
use crate::eth::outcome_view;
use vstd::prelude::*;
use vstd::string::StringSliceAdditionalSpecFns;

verus! {

/// The character that stands for one decimal digit.
pub open spec fn digit_char(digit: nat) -> char {
    if digit == 0 {
        '0'
    } else if digit == 1 {
        '1'
    } else if digit == 2 {
        '2'
    } else if digit == 3 {
        '3'
    } else if digit == 4 {
        '4'
    } else if digit == 5 {
        '5'
    } else if digit == 6 {
        '6'
    } else if digit == 7 {
        '7'
    } else if digit == 8 {
        '8'
    } else {
        '9'
    }
}

/// A number in decimal, without sign and without leading zeros.
pub open spec fn decimal_text(n: nat) -> Seq<char>
    decreases n,
{
    if n < 10 {
        seq![digit_char(n)]
    } else {
        decimal_text(n / 10).push(digit_char(n % 10))
    }
}

fn digit_str(digit: u64) -> (text: &'static str)
    requires
        digit < 10,
    ensures
        text@ == seq![digit_char(digit as nat)],
{
    proof {
        reveal_strlit("0");
        reveal_strlit("1");
        reveal_strlit("2");
        reveal_strlit("3");
        reveal_strlit("4");
        reveal_strlit("5");
        reveal_strlit("6");
        reveal_strlit("7");
        reveal_strlit("8");
        reveal_strlit("9");
    }
    let text = if digit == 0 {
        "0"
    } else if digit == 1 {
        "1"
    } else if digit == 2 {
        "2"
    } else if digit == 3 {
        "3"
    } else if digit == 4 {
        "4"
    } else if digit == 5 {
        "5"
    } else if digit == 6 {
        "6"
    } else if digit == 7 {
        "7"
    } else if digit == 8 {
        "8"
    } else {
        "9"
    };
    assert(text@ =~= seq![digit_char(digit as nat)]);
    text
}

/// Writes a number in decimal.
pub fn decimal(n: u64) -> (text: String)
    ensures
        text@ == decimal_text(n as nat),
    decreases n,
{
    if n < 10 {
        String::from_str(digit_str(n))
    } else {
        let mut text = decimal(n / 10);
        text.append(digit_str(n % 10));
        assert(text@ =~= decimal_text(n as nat));
        text
    }
}

/// The JSON string literal that stands for a text: the text between double
/// quotes, with the characters that JSON does not allow there escaped.
pub uninterp spec fn json_string(text: Seq<char>) -> Seq<char>;

/// `serde_json::to_string` on a string slice: the JSON string literal for it.
/// It writes into memory and a string has no part that cannot be written, so
/// it does not fail.
#[verifier::external_body]
fn quote(text: &str) -> (quoted: String)
    ensures
        quoted@ == json_string(text@),
{
    serde_json::to_string(text).unwrap_or_default()
}

/// The text of a result.
pub open spec fn response_text(response: EthResponseView) -> Seq<char> {
    match response {
        EthResponseView::Ack => "\"Ok\""@,
        EthResponseView::Request(result) => "{\"Request\":"@ + result + "}"@,
        EthResponseView::Sub { id, result } => "{\"Sub\":{\"id\":"@ + decimal_text(id as nat)
            + ",\"result\":"@ + result + "}}"@,
    }
}

/// The text of a provider error whose detail has been made a JSON string
/// literal already.
pub open spec fn provider_error_text(quoted: Seq<char>) -> Seq<char> {
    "{\"ProviderError\":"@ + quoted + "}"@
}

/// The text of an error.
pub open spec fn error_text(error: EthErrorView) -> Seq<char> {
    match error {
        EthErrorView::ProviderError(detail) => provider_error_text(json_string(detail)),
        EthErrorView::SubscriptionNotFound => "\"SubscriptionNotFound\""@,
        EthErrorView::SubscriptionClosed => "\"SubscriptionClosed\""@,
    }
}

/// The text of what an operation ended in.
pub open spec fn outcome_text(outcome: OutcomeView) -> Seq<char> {
    match outcome {
        Ok(response) => response_text(response),
        Err(error) => error_text(error),
    }
}

/// Writes a result as JSON text.
pub fn write_response(response: &EthResponse) -> (json: Json)
    ensures
        json@ == response_text(response@),
{
    match response {
        EthResponse::Ack => Json::new("\"Ok\""),
        EthResponse::Request(result) => {
            let text = String::from_str("{\"Request\":").concat(result.as_str()).concat("}");
            Json { text }
        },
        EthResponse::Sub { id, result } => {
            let number = decimal(*id);
            let text = String::from_str("{\"Sub\":{\"id\":").concat(number.as_str()).concat(
                ",\"result\":",
            ).concat(result.as_str()).concat("}}");
            Json { text }
        },
    }
}

/// Writes a provider error around a detail that is a JSON string literal
/// already.
pub fn write_provider_error(quoted: &str) -> (json: Json)
    ensures
        json@ == provider_error_text(quoted@),
{
    let text = String::from_str("{\"ProviderError\":").concat(quoted).concat("}");
    Json { text }
}

/// Writes an error as JSON text.
pub fn write_error(error: &EthError) -> (json: Json)
    ensures
        json@ == error_text(error@),
{
    match error {
        EthError::ProviderError(detail) => {
            let quoted = quote(detail.as_str());
            write_provider_error(quoted.as_str())
        },
        EthError::SubscriptionNotFound => Json::new("\"SubscriptionNotFound\""),
        EthError::SubscriptionClosed => Json::new("\"SubscriptionClosed\""),
    }
}

/// Writes what an operation ended in as JSON text.
pub fn write_outcome(outcome: &Outcome) -> (json: Json)
    ensures
        json@ == outcome_text(outcome_view(*outcome)),
{
    match outcome {
        Ok(response) => write_response(response),
        Err(error) => write_error(error),
    }
}

/// The bytes of a text: its UTF-8 encoding.
pub open spec fn text_bytes(text: Seq<char>) -> Seq<u8> {
    vstd::utf8::encode_utf8(text)
}

/// The bytes of a JSON document, as they are put into the body of a message.
pub fn into_body(json: &Json) -> (body: Vec<u8>)
    ensures
        body@ == text_bytes(json@),
{
    let bytes = json.as_str().as_bytes();
    let mut body: Vec<u8> = Vec::new();
    body.extend_from_slice(bytes);
    assert(body@ =~= bytes@);
    body
}

} // verus!
