//! The payload of the event that shows a client one state of the game.

use crate::game_state::GameState;
use vstd::prelude::*;
use vstd::string::StringExecFns;

verus! {

/// `serde_json::Error`, which the encoder returns when it gives up. Only its
/// presence is used.
#[verifier::external_type_specification]
#[verifier::external_body]
pub struct ExJsonError(serde_json::Error);

/// The JSON text that `serde_json::to_string` writes for a list of strings: an
/// array of string literals, without spaces, each string escaped as JSON asks.
pub uninterp spec fn json_of_phrases(phrases: Seq<Seq<char>>) -> Seq<char>;

/// `serde_json::to_string`, on a list of strings. The contract claims that it
/// returns a text, and that the text is fixed by the strings and their order.
///
/// It returns a text because nothing on its way can fail here. It gives up
/// where a value refuses to be written, where a map has a key that is no
/// string, and where the writer reports an error. A list writes its brackets
/// and its elements, a string writes itself between quotes, and the writer is
/// a buffer in memory, which takes every byte.
#[verifier::external_body]
fn phrases_to_json(phrases: &Vec<String>) -> (encoded: Result<String, serde_json::Error>)
    ensures
        encoded is Ok,
        encoded matches Ok(text) ==> text@ == json_of_phrases(phrases.deep_view()),
{
    serde_json::to_string(phrases)
}

/// Why a state could not be made into a payload.
#[derive(Debug, Clone, Copy, PartialEq, Eq, Structural)]
pub enum PayloadError {
    /// The encoder did not return a text for the phrases.
    Encoding,
}

/// The payload around the JSON array `array` of the phrases: an object whose
/// one member, `hat`, is that array.
pub open spec fn payload_text(array: Seq<char>) -> Seq<char> {
    seq!['{', '"', 'h', 'a', 't', '"', ':'] + array + seq!['}']
}

/// Makes the payload from what the encoder returned for the phrases: its text
/// is put into the object as it is; where it gave up, so does this.
pub fn frame_payload(encoded: Result<String, serde_json::Error>) -> (payload: Result<
    String,
    PayloadError,
>)
    ensures
        match encoded {
            Ok(array) => payload matches Ok(text) && text@ == payload_text(array@),
            Err(_) => payload == Err::<String, PayloadError>(PayloadError::Encoding),
        },
{
    match encoded {
        Ok(array) => {
            proof {
                reveal_strlit("{\"hat\":");
                reveal_strlit("}");
            }
            let mut text = String::from_str("{\"hat\":");
            text.append(array.as_str());
            text.append("}");
            Ok(text)
        },
        Err(_) => Err(PayloadError::Encoding),
    }
}

/// The payload of the event for `state`: the state as a JSON object, with the
/// phrases of the hat, in their order, as its member `hat`. Every state has a
/// payload, whatever its phrases are.
pub fn event_payload(state: &GameState) -> (payload: Result<String, PayloadError>)
    ensures
        payload matches Ok(text) && text@ == payload_text(json_of_phrases(state@)),
{
    frame_payload(phrases_to_json(&state.hat))
}

} // verus!
