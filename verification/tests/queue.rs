use audio_queue::Audio;
use audio_queue::AudioChannel;
use audio_queue::AudioCommands;
use audio_queue::PlayAudioSettings;

#[test]
fn new_queue_is_empty() {
    let audio = Audio::new();
    assert!(audio.is_empty());
    assert_eq!(audio.len(), 0);
}

#[test]
fn enqueue_keeps_fifo_order() {
    let mut audio = Audio::new();
    let music = AudioChannel::new(1);
    let sfx = AudioChannel::new(2);
    audio.enqueue_play(10, music);
    audio.enqueue_stop(sfx);
    audio.enqueue_pause(music);
    audio.enqueue_resume(sfx);
    assert_eq!(audio.len(), 4);
    assert_eq!(
        audio.entry_at(0),
        (
            AudioCommands::Play(PlayAudioSettings { source: 10, looped: false }),
            music
        )
    );
    assert_eq!(audio.entry_at(1), (AudioCommands::Stop, sfx));
    assert_eq!(audio.entry_at(2), (AudioCommands::Pause, music));
    assert_eq!(audio.entry_at(3), (AudioCommands::Resume, sfx));
}

#[test]
fn enqueue_play_looped_carries_the_request() {
    let mut audio = Audio::new();
    let music = AudioChannel::new(7);
    audio.enqueue_play_looped(42, music);
    assert_eq!(
        audio.entry_at(0),
        (
            AudioCommands::Play(PlayAudioSettings { source: 42, looped: true }),
            music
        )
    );
}

#[test]
fn parameter_commands_carry_bit_patterns() {
    let mut audio = Audio::new();
    let c = AudioChannel::new(3);
    audio.enqueue_set_volume(0.3f64.to_bits(), c);
    audio.enqueue_set_panning(0.2f64.to_bits(), c);
    audio.enqueue_set_playback_rate(2.0f64.to_bits(), c);
    assert_eq!(
        audio.entry_at(0),
        (AudioCommands::SetVolume(0.3f64.to_bits()), c)
    );
    assert_eq!(
        audio.entry_at(1),
        (AudioCommands::SetPanning(0.2f64.to_bits()), c)
    );
    assert_eq!(
        audio.entry_at(2),
        (AudioCommands::SetPlaybackRate(2.0f64.to_bits()), c)
    );
}

#[test]
fn requests_differing_only_in_looped_are_distinct() {
    let one_shot = PlayAudioSettings { source: 5, looped: false };
    let looped = PlayAudioSettings { source: 5, looped: true };
    assert_ne!(one_shot, looped);
    assert_eq!(one_shot, PlayAudioSettings { source: 5, looped: false });
}

#[test]
fn default_queue_matches_new() {
    let audio = Audio::default();
    assert!(audio.is_empty());
}
