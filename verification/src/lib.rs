//! The logic of a voice-chat client: the audio buffers between the sound card
//! and the server, the control frames of the server's protocol, the state of
//! the connection and of the conversation, and the settings.
use vstd::prelude::*;

pub mod audio;
pub mod utils;
pub mod window;

verus! {

/// Greets back: answers with the name it was given.
pub fn greet(name: String) -> (r: String)
    ensures
        r == name,
{
    name
}

} // verus!
