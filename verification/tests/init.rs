use audio_queue::AudioInitialization;

#[test]
fn initialization_is_wanted_once() {
    let mut init = AudioInitialization::new(true);
    assert!(init.should_initialize());
    assert!(!init.is_done());
    init.mark_initialized();
    assert!(!init.should_initialize());
    assert!(init.is_done());
    assert!(!init.needed);
}

#[test]
fn initialization_can_be_declined() {
    let init = AudioInitialization::new(false);
    assert!(!init.should_initialize());
    assert!(!init.is_done());
}

#[test]
fn initialization_defaults_to_wanted() {
    let init = AudioInitialization::default();
    assert!(init.should_initialize());
}
