//! A shared "hat" of phrases and the fan-out that pushes every new state of it
//! to the clients that are listening.

pub mod arithmetic;
pub mod channels;
pub mod endpoints;
pub mod events;
pub mod game_state;
