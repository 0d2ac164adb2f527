//! Logical playback channels.

use vstd::prelude::*;

verus! {

/// A logical grouping of playback instances that are controlled together
/// (for example one channel for music and one for sound effects).
///
/// A channel is an opaque token: two channels are the same exactly when their
/// ids are equal. Channels are never created or destroyed by the library; a
/// channel simply becomes active when the first command for it is processed.
#[derive(Clone, Copy, Debug, PartialEq, Eq, Structural)]
pub struct AudioChannel {
    /// The identity of the channel.
    pub id: u64,
}

impl AudioChannel {
    /// Builds the channel token with the given identity.
    pub fn new(id: u64) -> (r: AudioChannel)
        ensures
            r.id == id,
    {
        AudioChannel { id }
    }
}

} // verus!
