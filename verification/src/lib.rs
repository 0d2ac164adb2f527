//! A deferred command layer for audio playback.
//!
//! Application code enqueues typed playback commands (play, stop, pause,
//! resume, parameter changes), each tagged with a logical channel. Once per
//! tick a reconciliation pass drains the queue, defers `Play` commands whose
//! asset is not yet loaded, deduplicates repeated play requests against
//! already-built playable units, and fans channel-level parameter changes out
//! to every active instance on the channel. The pass emits the engine calls it
//! decided on as a sequence of [`AudioAction`] values; a thin host layer
//! performs them against the real audio engine.

mod audio;
mod audio_output;
mod channel;
mod init;
mod laws;
mod model;
mod state;

pub use audio::Audio;
pub use audio::AudioCommands;
pub use audio::PlayAudioSettings;
pub use audio_output::AudioOutput;
pub use channel::AudioChannel;
pub use init::AudioInitialization;
pub use model::AudioAction;
pub use model::AudioModel;
pub use model::DrainOutcome;
pub use state::ChannelState;
pub use state::Instance;
pub use state::ParamKind;
pub use state::DEFAULT_PANNING_BITS;
pub use state::DEFAULT_PLAYBACK_RATE_BITS;
pub use state::DEFAULT_VOLUME_BITS;
