//! The producer-facing command queue.

use vstd::prelude::*;

use crate::channel::AudioChannel;

verus! {

/// A playback request: which asset to play and whether to loop it.
///
/// Structural equality over all fields makes the request a cache key: two
/// requests describe the same playable unit exactly when they are equal, and
/// requests that differ only in `looped` are distinct units.
#[derive(Clone, Copy, Debug, PartialEq, Eq, Structural)]
pub struct PlayAudioSettings {
    /// Token identifying the audio asset to play.
    pub source: u64,
    /// Whether playback should loop.
    pub looped: bool,
}

/// A playback command. Always paired with the channel it addresses.
///
/// Parameter values are carried as IEEE 754 bit patterns (see
/// [`crate::ChannelState`]).
#[derive(Clone, Copy, Debug, PartialEq, Eq, Structural)]
pub enum AudioCommands {
    /// Start a new playback of the requested asset.
    Play(PlayAudioSettings),
    /// Stop every active instance on the channel.
    Stop,
    /// Pause every active instance on the channel.
    Pause,
    /// Resume every active instance on the channel.
    Resume,
    /// Set the volume of the channel and of every active instance on it.
    SetVolume(u64),
    /// Set the panning of the channel and of every active instance on it.
    SetPanning(u64),
    /// Set the playback rate of the channel and of every active instance on it.
    SetPlaybackRate(u64),
}

/// The ordered command queue that producers append to and the reconciliation
/// pass drains once per tick.
///
/// Entries leave the queue only by being drained; a drained `Play` whose asset
/// is not yet loaded is appended again at the tail, as if newly enqueued.
///
/// Producers and the drain take the queue by `&mut`, so exclusive access is
/// the host's to arrange: where producers run concurrently the host keeps the
/// queue behind one lock, and enqueueing blocks no longer than the lock is
/// held.
pub struct Audio {
    pub(crate) commands: Vec<(AudioCommands, AudioChannel)>,
}

impl View for Audio {
    type V = Seq<(AudioCommands, AudioChannel)>;

    closed spec fn view(&self) -> Seq<(AudioCommands, AudioChannel)> {
        self.commands@
    }
}

impl Audio {
    /// Builds an empty queue.
    pub fn new() -> (r: Audio)
        ensures
            r@ == Seq::<(AudioCommands, AudioChannel)>::empty(),
    {
        Audio { commands: Vec::new() }
    }

    /// How many commands are waiting to be drained.
    pub fn len(&self) -> (r: usize)
        ensures
            r == self@.len(),
    {
        self.commands.len()
    }

    /// Whether no command is waiting.
    pub fn is_empty(&self) -> (r: bool)
        ensures
            r == (self@.len() == 0),
    {
        self.commands.len() == 0
    }

    /// The command and channel at queue position `i`, front first.
    pub fn entry_at(&self, i: usize) -> (r: (AudioCommands, AudioChannel))
        requires
            i < self@.len(),
        ensures
            r == self@[i as int],
    {
        self.commands[i]
    }

    /// Removes and returns the front entry; the drain takes entries from
    /// here.
    pub(crate) fn pop_front(&mut self) -> (r: (AudioCommands, AudioChannel))
        requires
            old(self)@.len() > 0,
        ensures
            r == old(self)@[0],
            final(self)@ == old(self)@.drop_first(),
    {
        let r = self.commands.remove(0);
        proof {
            assert(old(self)@.remove(0) =~= old(self)@.drop_first());
        }
        r
    }

    /// Appends an entry at the tail; deferred entries come back through here.
    pub(crate) fn push_back(&mut self, entry: (AudioCommands, AudioChannel))
        ensures
            final(self)@ == old(self)@.push(entry),
    {
        self.commands.push(entry);
    }

    /// Appends a request to play `source` once on `channel`.
    pub fn enqueue_play(&mut self, source: u64, channel: AudioChannel)
        ensures
            final(self)@ == old(self)@.push(
                (AudioCommands::Play((PlayAudioSettings { source, looped: false })), channel),
            ),
    {
        self.commands.push((AudioCommands::Play(PlayAudioSettings { source, looped: false }), channel));
    }

    /// Appends a request to play `source` in a loop on `channel`.
    pub fn enqueue_play_looped(&mut self, source: u64, channel: AudioChannel)
        ensures
            final(self)@ == old(self)@.push(
                (AudioCommands::Play((PlayAudioSettings { source, looped: true })), channel),
            ),
    {
        self.commands.push((AudioCommands::Play(PlayAudioSettings { source, looped: true }), channel));
    }

    /// Appends a stop command for `channel`.
    pub fn enqueue_stop(&mut self, channel: AudioChannel)
        ensures
            final(self)@ == old(self)@.push((AudioCommands::Stop, channel)),
    {
        self.commands.push((AudioCommands::Stop, channel));
    }

    /// Appends a pause command for `channel`.
    pub fn enqueue_pause(&mut self, channel: AudioChannel)
        ensures
            final(self)@ == old(self)@.push((AudioCommands::Pause, channel)),
    {
        self.commands.push((AudioCommands::Pause, channel));
    }

    /// Appends a resume command for `channel`.
    pub fn enqueue_resume(&mut self, channel: AudioChannel)
        ensures
            final(self)@ == old(self)@.push((AudioCommands::Resume, channel)),
    {
        self.commands.push((AudioCommands::Resume, channel));
    }

    /// Appends a volume change for `channel`; `volume` is an IEEE 754 bit
    /// pattern.
    pub fn enqueue_set_volume(&mut self, volume: u64, channel: AudioChannel)
        ensures
            final(self)@ == old(self)@.push((AudioCommands::SetVolume(volume), channel)),
    {
        self.commands.push((AudioCommands::SetVolume(volume), channel));
    }

    /// Appends a panning change for `channel`; `panning` is an IEEE 754 bit
    /// pattern.
    pub fn enqueue_set_panning(&mut self, panning: u64, channel: AudioChannel)
        ensures
            final(self)@ == old(self)@.push((AudioCommands::SetPanning(panning), channel)),
    {
        self.commands.push((AudioCommands::SetPanning(panning), channel));
    }

    /// Appends a playback-rate change for `channel`; `playback_rate` is an
    /// IEEE 754 bit pattern.
    pub fn enqueue_set_playback_rate(&mut self, playback_rate: u64, channel: AudioChannel)
        ensures
            final(self)@ == old(self)@.push((AudioCommands::SetPlaybackRate(playback_rate), channel)),
    {
        self.commands.push((AudioCommands::SetPlaybackRate(playback_rate), channel));
    }
}

impl Default for Audio {
    /// An empty queue.
    fn default() -> (r: Audio)
        ensures
            r@ == Seq::<(AudioCommands, AudioChannel)>::empty(),
    {
        Audio::new()
    }
}

} // verus!
