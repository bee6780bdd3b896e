use rust_playground::channels::{
    broadcast_game_state, create_user_connection, UserChannel, UserChannels,
};
use rust_playground::game_state::GameState;
use tokio::sync::mpsc::error::{SendError, TryRecvError};

fn state_of(words: &[&str]) -> GameState {
    GameState { hat: words.iter().map(|w| w.to_string()).collect() }
}

fn hat_of(words: &[&str]) -> Vec<String> {
    words.iter().map(|w| w.to_string()).collect()
}

#[test]
fn new_registry_is_empty() {
    let channels = UserChannels::new();
    assert_eq!(channels.len(), 0);
    assert!(channels.is_empty());
}

#[test]
fn registering_adds_one_channel_each_time() {
    let mut channels = UserChannels::new();
    let _first = create_user_connection(&mut channels);
    assert_eq!(channels.len(), 1);
    assert!(!channels.is_empty());
    let _second = create_user_connection(&mut channels);
    assert_eq!(channels.len(), 2);
}

#[test]
fn broadcast_to_nobody_reaches_nobody() {
    let mut channels = UserChannels::new();
    let reached = broadcast_game_state(&state_of(&["Cat"]), &mut channels);
    assert!(reached.is_empty());
    assert_eq!(channels.len(), 0);
}

#[test]
fn broadcast_hands_every_client_the_state() {
    let mut channels = UserChannels::new();
    let mut first = create_user_connection(&mut channels);
    let mut second = create_user_connection(&mut channels);
    let reached = broadcast_game_state(&state_of(&["Cat", "Hike"]), &mut channels);
    assert_eq!(reached, vec![true, true]);
    assert_eq!(channels.len(), 2);
    assert_eq!(first.try_recv().unwrap().hat, hat_of(&["Cat", "Hike"]));
    assert_eq!(second.try_recv().unwrap().hat, hat_of(&["Cat", "Hike"]));
    assert_eq!(first.try_recv().unwrap_err(), TryRecvError::Empty);
    assert_eq!(second.try_recv().unwrap_err(), TryRecvError::Empty);
}

#[test]
fn client_registered_before_the_broadcasts_gets_all_in_order() {
    let mut channels = UserChannels::new();
    let mut early = create_user_connection(&mut channels);
    let mut state = GameState::new();
    let n = 5;
    for i in 0..n {
        state.append(vec![format!("phrase {}", i)]);
        let reached = broadcast_game_state(&state, &mut channels);
        assert_eq!(reached, vec![true]);
    }
    for i in 0..n {
        let seen = early.try_recv().unwrap();
        let expected: Vec<String> = (0..=i).map(|j| format!("phrase {}", j)).collect();
        assert_eq!(seen.hat, expected);
    }
    assert_eq!(early.try_recv().unwrap_err(), TryRecvError::Empty);
}

#[test]
fn client_registered_after_the_broadcasts_gets_only_later_ones() {
    let mut channels = UserChannels::new();
    let mut early = create_user_connection(&mut channels);
    broadcast_game_state(&state_of(&["one"]), &mut channels);
    broadcast_game_state(&state_of(&["one", "two"]), &mut channels);

    let mut late = create_user_connection(&mut channels);
    assert_eq!(late.try_recv().unwrap_err(), TryRecvError::Empty);

    let reached = broadcast_game_state(&state_of(&["one", "two", "three"]), &mut channels);
    assert_eq!(reached, vec![true, true]);
    assert_eq!(late.try_recv().unwrap().hat, hat_of(&["one", "two", "three"]));
    assert_eq!(late.try_recv().unwrap_err(), TryRecvError::Empty);

    assert_eq!(early.try_recv().unwrap().hat, hat_of(&["one"]));
    assert_eq!(early.try_recv().unwrap().hat, hat_of(&["one", "two"]));
    assert_eq!(early.try_recv().unwrap().hat, hat_of(&["one", "two", "three"]));
}

#[test]
fn closed_client_is_dropped_by_the_next_broadcast() {
    let mut channels = UserChannels::new();
    let mut stays = create_user_connection(&mut channels);
    let leaves = create_user_connection(&mut channels);
    drop(leaves);
    // Nothing notices the client that went away until something is sent.
    assert_eq!(channels.len(), 2);
    let reached = broadcast_game_state(&state_of(&["Cat"]), &mut channels);
    assert_eq!(reached, vec![true, false]);
    assert_eq!(channels.len(), 1);
    assert_eq!(stays.try_recv().unwrap().hat, hat_of(&["Cat"]));
    // The next broadcast finds nothing more to drop.
    let reached = broadcast_game_state(&state_of(&["Cat", "Hike"]), &mut channels);
    assert_eq!(reached, vec![true]);
    assert_eq!(channels.len(), 1);
}

#[test]
fn client_that_closed_its_end_is_dropped_too() {
    let mut channels = UserChannels::new();
    let mut closing = create_user_connection(&mut channels);
    closing.close();
    let reached = broadcast_game_state(&state_of(&["Cat"]), &mut channels);
    assert_eq!(reached, vec![false]);
    assert_eq!(channels.len(), 0);
}

#[test]
fn the_remaining_clients_keep_their_order() {
    let mut channels = UserChannels::new();
    let mut first = create_user_connection(&mut channels);
    let second = create_user_connection(&mut channels);
    let mut third = create_user_connection(&mut channels);
    drop(second);
    let reached = broadcast_game_state(&state_of(&["a"]), &mut channels);
    assert_eq!(reached, vec![true, false, true]);
    assert_eq!(channels.len(), 2);

    drop(first.try_recv().unwrap());
    drop(third.try_recv().unwrap());
    // Closing the first of the two that are left must drop the first place.
    first.close();
    let reached = broadcast_game_state(&state_of(&["a", "b"]), &mut channels);
    assert_eq!(reached, vec![false, true]);
    assert_eq!(third.try_recv().unwrap().hat, hat_of(&["a", "b"]));
}

#[test]
fn every_client_gone_empties_the_registry() {
    let mut channels = UserChannels::new();
    for _ in 0..4 {
        drop(create_user_connection(&mut channels));
    }
    assert_eq!(channels.len(), 4);
    let reached = broadcast_game_state(&GameState::new(), &mut channels);
    assert_eq!(reached, vec![false, false, false, false]);
    assert!(channels.is_empty());
}

#[test]
fn the_state_sent_is_a_copy() {
    let mut channels = UserChannels::new();
    let mut client = create_user_connection(&mut channels);
    let mut state = state_of(&["Cat"]);
    broadcast_game_state(&state, &mut channels);
    state.append(vec!["Hike".to_string()]);
    assert_eq!(client.try_recv().unwrap().hat, hat_of(&["Cat"]));
    assert_eq!(state.hat, hat_of(&["Cat", "Hike"]));
}

#[test]
fn a_slow_client_holds_nobody_up() {
    let mut channels = UserChannels::new();
    let mut slow = create_user_connection(&mut channels);
    let mut state = GameState::new();
    for i in 0..200 {
        state.append(vec![format!("{}", i)]);
        assert_eq!(broadcast_game_state(&state, &mut channels), vec![true]);
    }
    for i in 0..200 {
        assert_eq!(slow.try_recv().unwrap().hat.len(), i + 1);
    }
}

#[test]
fn settle_keeps_a_channel_that_took_the_snapshot() {
    let (channel, mut receiver) = UserChannel::open();
    let state = state_of(&["Cat"]);
    let kept = channel.settle(&state, Ok(()));
    let kept = kept.expect("a channel that took the snapshot is kept");
    assert!(kept.sender.send(state_of(&["Hike"])).is_ok());
    assert_eq!(receiver.try_recv().unwrap().hat, hat_of(&["Hike"]));
}

#[test]
fn settle_gives_up_a_channel_that_refused() {
    let (channel, _receiver) = UserChannel::open();
    let state = state_of(&["Cat"]);
    let kept = channel.settle(&state, Err(SendError(state.clone())));
    assert!(kept.is_none());
}

#[test]
fn an_opened_channel_is_connected_to_its_receiver() {
    let (channel, mut receiver) = UserChannel::open();
    assert_eq!(receiver.try_recv().unwrap_err(), TryRecvError::Empty);
    assert!(channel.sender.send(state_of(&["Cat"])).is_ok());
    assert_eq!(receiver.try_recv().unwrap().hat, hat_of(&["Cat"]));
    drop(channel);
    assert_eq!(receiver.try_recv().unwrap_err(), TryRecvError::Closed);
}
