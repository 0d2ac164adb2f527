use audio_queue::Audio;
use audio_queue::AudioAction;
use audio_queue::AudioChannel;
use audio_queue::AudioCommands;
use audio_queue::AudioOutput;
use audio_queue::ChannelState;
use audio_queue::ParamKind;
use audio_queue::PlayAudioSettings;
use audio_queue::DEFAULT_PANNING_BITS;
use audio_queue::DEFAULT_PLAYBACK_RATE_BITS;
use audio_queue::DEFAULT_VOLUME_BITS;

fn default_params() -> ChannelState {
    ChannelState {
        volume: DEFAULT_VOLUME_BITS,
        playback_rate: DEFAULT_PLAYBACK_RATE_BITS,
        panning: DEFAULT_PANNING_BITS,
    }
}

#[test]
fn default_bits_are_the_documented_values() {
    assert_eq!(DEFAULT_VOLUME_BITS, 1.0f64.to_bits());
    assert_eq!(DEFAULT_PLAYBACK_RATE_BITS, 1.0f64.to_bits());
    assert_eq!(DEFAULT_PANNING_BITS, 0.5f64.to_bits());
}

#[test]
fn play_before_load_defers_then_starts_with_defaults() {
    let music = AudioChannel::new(1);
    let mut audio = Audio::new();
    let mut output = AudioOutput::new();
    audio.enqueue_play_looped(42, music);

    // First drain: the asset is not loaded, the command is deferred whole.
    let actions = output.run_queued_audio_commands(&vec![], &mut audio);
    assert_eq!(actions, vec![]);
    assert_eq!(audio.len(), 1);
    assert_eq!(
        audio.entry_at(0),
        (
            AudioCommands::Play(PlayAudioSettings { source: 42, looped: true }),
            music
        )
    );
    assert_eq!(output.instance_count(), 0);
    assert!(!output.sound_cached(42));

    // Second drain, after the asset loaded: sound, unit and one instance with
    // default volume 1.0, panning 0.5 and rate 1.0.
    let settings = PlayAudioSettings { source: 42, looped: true };
    let actions = output.run_queued_audio_commands(&vec![42], &mut audio);
    assert_eq!(
        actions,
        vec![
            AudioAction::RegisterSound { asset: 42 },
            AudioAction::CreateArrangement { settings },
            AudioAction::StartInstance {
                settings,
                instance: 0,
                channel: music,
                params: default_params(),
            },
        ]
    );
    assert!(audio.is_empty());
    assert_eq!(output.instance_count(), 1);
    let inst = output.instance_at(0);
    assert_eq!(inst.volume, 1.0f64.to_bits());
    assert_eq!(inst.panning, 0.5f64.to_bits());
    assert_eq!(inst.playback_rate, 1.0f64.to_bits());
    assert_eq!(inst.settings, settings);
    assert_eq!(inst.channel, music);
}

#[test]
fn set_panning_then_play_in_one_drain_inherits_the_panning() {
    let sfx = AudioChannel::new(2);
    let mut audio = Audio::new();
    let mut output = AudioOutput::new();
    audio.enqueue_set_panning(0.2f64.to_bits(), sfx);
    audio.enqueue_play(7, sfx);

    let settings = PlayAudioSettings { source: 7, looped: false };
    let actions = output.run_queued_audio_commands(&vec![7], &mut audio);
    assert_eq!(
        actions,
        vec![
            AudioAction::RegisterSound { asset: 7 },
            AudioAction::CreateArrangement { settings },
            AudioAction::StartInstance {
                settings,
                instance: 0,
                channel: sfx,
                params: ChannelState { panning: 0.2f64.to_bits(), ..default_params() },
            },
        ]
    );
    assert_eq!(output.instance_at(0).panning, 0.2f64.to_bits());
}

#[test]
fn identical_requests_share_sound_and_unit_but_not_instances() {
    let music = AudioChannel::new(1);
    let mut audio = Audio::new();
    let mut output = AudioOutput::new();
    audio.enqueue_play(5, music);
    audio.enqueue_play(5, music);

    let settings = PlayAudioSettings { source: 5, looped: false };
    let actions = output.run_queued_audio_commands(&vec![5], &mut audio);
    assert_eq!(
        actions,
        vec![
            AudioAction::RegisterSound { asset: 5 },
            AudioAction::CreateArrangement { settings },
            AudioAction::StartInstance {
                settings,
                instance: 0,
                channel: music,
                params: default_params(),
            },
            AudioAction::StartInstance {
                settings,
                instance: 1,
                channel: music,
                params: default_params(),
            },
        ]
    );
    assert_eq!(output.instance_count(), 2);
    let first = output.instance_at(0);
    let second = output.instance_at(1);
    assert_ne!(first.id, second.id);
    assert_eq!(first.settings, second.settings);
    assert!(output.sound_cached(5));
    assert!(output.arrangement_cached(&settings));
    // A request differing only in the looped flag is a distinct unit.
    assert!(!output.arrangement_cached(&PlayAudioSettings { source: 5, looped: true }));
}

#[test]
fn set_volume_reaches_prior_and_later_instances() {
    let c = AudioChannel::new(9);
    let mut audio = Audio::new();
    let mut output = AudioOutput::new();
    let loaded = vec![3];

    audio.enqueue_play(3, c);
    output.run_queued_audio_commands(&loaded, &mut audio);
    assert_eq!(output.instance_at(0).volume, DEFAULT_VOLUME_BITS);

    let v = 0.25f64.to_bits();
    audio.enqueue_set_volume(v, c);
    audio.enqueue_play(3, c);
    let settings = PlayAudioSettings { source: 3, looped: false };
    let actions = output.run_queued_audio_commands(&loaded, &mut audio);
    assert_eq!(
        actions,
        vec![
            AudioAction::SetParameter { instance: 0, kind: ParamKind::Volume, value: v },
            AudioAction::StartInstance {
                settings,
                instance: 1,
                channel: c,
                params: ChannelState { volume: v, ..default_params() },
            },
        ]
    );
    // The prior instance reflects the volume retroactively, the new one
    // inherits it.
    assert_eq!(output.instance_at(0).volume, v);
    assert_eq!(output.instance_at(1).volume, v);
    assert_eq!(output.channel_state(c).volume, v);
}

#[test]
fn set_commands_leave_other_channels_alone() {
    let c1 = AudioChannel::new(1);
    let c2 = AudioChannel::new(2);
    let mut audio = Audio::new();
    let mut output = AudioOutput::new();
    let loaded = vec![3, 4];
    audio.enqueue_play(3, c1);
    audio.enqueue_play(4, c2);
    output.run_queued_audio_commands(&loaded, &mut audio);

    audio.enqueue_set_playback_rate(2.0f64.to_bits(), c1);
    let actions = output.run_queued_audio_commands(&loaded, &mut audio);
    assert_eq!(
        actions,
        vec![AudioAction::SetParameter {
            instance: 0,
            kind: ParamKind::PlaybackRate,
            value: 2.0f64.to_bits(),
        }]
    );
    assert_eq!(output.instance_at(0).playback_rate, 2.0f64.to_bits());
    assert_eq!(output.instance_at(1).playback_rate, DEFAULT_PLAYBACK_RATE_BITS);
    assert_eq!(output.channel_state(c2).playback_rate, DEFAULT_PLAYBACK_RATE_BITS);
}

#[test]
fn stop_empties_the_channel_and_pause_resume_become_noops() {
    let c1 = AudioChannel::new(1);
    let c2 = AudioChannel::new(2);
    let mut audio = Audio::new();
    let mut output = AudioOutput::new();
    let loaded = vec![3, 4];
    audio.enqueue_play(3, c1);
    audio.enqueue_play(4, c2);
    output.run_queued_audio_commands(&loaded, &mut audio);
    assert_eq!(output.active_instances_on(c1), 1);
    assert_eq!(output.active_instances_on(c2), 1);

    audio.enqueue_stop(c1);
    let actions = output.run_queued_audio_commands(&loaded, &mut audio);
    assert_eq!(actions, vec![AudioAction::StopInstance { instance: 0 }]);
    assert_eq!(output.active_instances_on(c1), 0);
    assert_eq!(output.active_instances_on(c2), 1);

    // Pause and resume on the emptied channel decide on nothing and fail
    // nothing.
    audio.enqueue_pause(c1);
    audio.enqueue_resume(c1);
    let actions = output.run_queued_audio_commands(&loaded, &mut audio);
    assert_eq!(actions, vec![]);

    // The other channel still pauses and resumes.
    audio.enqueue_pause(c2);
    audio.enqueue_resume(c2);
    let actions = output.run_queued_audio_commands(&loaded, &mut audio);
    assert_eq!(
        actions,
        vec![
            AudioAction::PauseInstance { instance: 1 },
            AudioAction::ResumeInstance { instance: 1 },
        ]
    );
}

#[test]
fn unresolved_play_retries_every_tick_and_grows_nothing() {
    let c = AudioChannel::new(1);
    let mut audio = Audio::new();
    let mut output = AudioOutput::new();
    audio.enqueue_play(9, c);

    for _ in 0..3 {
        let actions = output.run_queued_audio_commands(&vec![], &mut audio);
        assert_eq!(actions, vec![]);
        assert_eq!(audio.len(), 1);
        assert_eq!(
            audio.entry_at(0),
            (
                AudioCommands::Play(PlayAudioSettings { source: 9, looped: false }),
                c
            )
        );
        assert_eq!(output.instance_count(), 0);
        assert!(!output.sound_cached(9));
        assert_eq!(output.next_instance_token(), 0);
    }

    // A command enqueued later can overtake the deferred play.
    audio.enqueue_stop(c);
    output.run_queued_audio_commands(&vec![], &mut audio);
    assert_eq!(audio.len(), 1);
    assert_eq!(
        audio.entry_at(0),
        (
            AudioCommands::Play(PlayAudioSettings { source: 9, looped: false }),
            c
        )
    );
}

#[test]
fn discard_failed_instance_isolates_the_failure() {
    let c = AudioChannel::new(1);
    let mut audio = Audio::new();
    let mut output = AudioOutput::new();
    audio.enqueue_play(3, c);
    audio.enqueue_play(4, c);
    output.run_queued_audio_commands(&vec![3, 4], &mut audio);
    assert_eq!(output.instance_count(), 2);

    // The host reports that starting the first instance failed.
    output.discard_failed_instance(0);
    assert_eq!(output.instance_count(), 1);
    assert_eq!(output.instance_at(0).id, 1);
    // The caches keep what was registered; only the instance is gone.
    assert!(output.sound_cached(3));
}

#[test]
fn channel_state_defaults_until_a_parameter_command() {
    let c = AudioChannel::new(6);
    let mut audio = Audio::new();
    let mut output = AudioOutput::new();
    assert_eq!(output.channel_state(c), default_params());

    audio.enqueue_set_volume(0.1f64.to_bits(), c);
    output.run_queued_audio_commands(&vec![], &mut audio);
    assert_eq!(
        output.channel_state(c),
        ChannelState { volume: 0.1f64.to_bits(), ..default_params() }
    );

    // A second parameter command keeps the first one's value.
    audio.enqueue_set_panning(0.9f64.to_bits(), c);
    output.run_queued_audio_commands(&vec![], &mut audio);
    assert_eq!(
        output.channel_state(c),
        ChannelState {
            volume: 0.1f64.to_bits(),
            panning: 0.9f64.to_bits(),
            ..default_params()
        }
    );
}
