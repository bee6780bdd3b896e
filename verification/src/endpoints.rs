//! What the server answers to its requests, once a request has been read.

use crate::channels::{after_broadcast, broadcast_game_state, UserChannels};
use crate::game_state::{appended, GameState, RecordPhrasesMessage};
use vstd::prelude::*;

verus! {

/// The largest body, in bytes, that a request to record phrases may have.
pub const MAX_BODY_BYTES: u64 = 1024 * 16;

/// Records a batch of phrases: puts them into the hat and broadcasts the new
/// state to every registered channel. The answer is the same whether the
/// broadcast reached many clients, few or none.
pub fn record_phrases(
    message: RecordPhrasesMessage,
    user_channels: &mut UserChannels,
    game_state: &mut GameState,
) -> (ack: &'static str)
    ensures
        final(game_state)@ == appended(old(game_state)@, message@),
        exists|reached: Seq<bool>|
            reached.len() == old(user_channels)@.len() && final(user_channels)@
                == #[trigger] after_broadcast(
                old(user_channels)@,
                final(game_state)@,
                reached,
            ),
        ack@ == "phrases recorded"@,
{
    game_state.append(message.phrases);
    broadcast_game_state(game_state, user_channels);
    "phrases recorded"
}

/// The greeting of the server.
pub fn hello_from_warp() -> (text: &'static str)
    ensures
        text@ == "Hello from warp!"@,
{
    "Hello from warp!"
}

} // verus!
