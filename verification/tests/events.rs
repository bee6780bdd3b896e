use rust_playground::events::{event_payload, frame_payload, PayloadError};
use rust_playground::game_state::GameState;

fn state_of(words: &[&str]) -> GameState {
    GameState { hat: words.iter().map(|w| w.to_string()).collect() }
}

fn hat_in(payload: &str) -> Vec<String> {
    let value: serde_json::Value = serde_json::from_str(payload).unwrap();
    let object = value.as_object().unwrap();
    assert_eq!(object.len(), 1);
    object["hat"]
        .as_array()
        .unwrap()
        .iter()
        .map(|phrase| phrase.as_str().unwrap().to_string())
        .collect()
}

#[test]
fn payload_of_an_empty_hat() {
    assert_eq!(event_payload(&GameState::new()).unwrap(), "{\"hat\":[]}");
}

#[test]
fn payload_lists_the_phrases_in_order() {
    assert_eq!(
        event_payload(&state_of(&["Cat", "Hike"])).unwrap(),
        "{\"hat\":[\"Cat\",\"Hike\"]}"
    );
}

#[test]
fn payload_escapes_what_json_asks_to_escape() {
    let state = state_of(&["say \"hi\"", "back\\slash", "line\nbreak", "tab\there", ""]);
    let payload = event_payload(&state).unwrap();
    assert_eq!(
        payload,
        "{\"hat\":[\"say \\\"hi\\\"\",\"back\\\\slash\",\"line\\nbreak\",\"tab\\there\",\"\"]}"
    );
    assert_eq!(hat_in(&payload), state.hat);
}

#[test]
fn payload_reads_back_as_the_same_hat() {
    let state = state_of(&["Table Top", "na\u{ef}ve", "\u{1F3A9}", "{\"hat\":[]}", "a,b"]);
    let payload = event_payload(&state).unwrap();
    assert_eq!(hat_in(&payload), state.hat);
}

#[test]
fn frame_puts_the_array_into_the_object() {
    assert_eq!(
        frame_payload(Ok("[\"Cat\"]".to_string())),
        Ok("{\"hat\":[\"Cat\"]}".to_string())
    );
    assert_eq!(frame_payload(Ok("[]".to_string())), Ok("{\"hat\":[]}".to_string()));
}

#[test]
fn frame_passes_on_that_the_encoder_gave_up() {
    let error = serde_json::from_str::<serde_json::Value>("not json").unwrap_err();
    assert_eq!(frame_payload(Err(error)), Err(PayloadError::Encoding));
}
