use jack_keyboard::channel::EventChannel;
use jack_keyboard::midi::{drain_to_midi, MidiMessage, DEFAULT_VELOCITY};
use jack_keyboard::note::Note;
use jack_keyboard::tracker::{KeyEvent, KeyTracker, UiReaction};

#[test]
fn repeated_down_signals_emit_a_single_press() {
    let mut tracker = KeyTracker::new();
    let first = tracker.on_raw_event(30, true);
    assert_eq!(first, Some(KeyEvent { note: Note::C4, pressed: true }));
    // Hardware auto-repeat fires more down signals for the held key.
    assert_eq!(tracker.on_raw_event(30, true), None);
    assert_eq!(tracker.on_raw_event(30, true), None);
    assert!(tracker.is_held(30));
}

#[test]
fn release_emits_even_without_prior_press() {
    let mut tracker = KeyTracker::new();
    let up = tracker.on_raw_event(31, false);
    assert_eq!(up, Some(KeyEvent { note: Note::D4, pressed: false }));
    assert!(!tracker.is_held(31));
}

#[test]
fn release_of_unmapped_code_is_silent() {
    let mut tracker = KeyTracker::new();
    assert_eq!(tracker.on_raw_event(99, false), None);
}

#[test]
fn press_hold_release_produces_the_expected_midi_bytes() {
    let mut tracker = KeyTracker::new();
    let mut channel = EventChannel::new();

    if let Some(e) = tracker.on_raw_event(30, true) {
        channel.send(e);
    }
    // Two repeat signals while the key is held: nothing reaches the channel.
    assert_eq!(tracker.on_raw_event(30, true), None);
    assert_eq!(tracker.on_raw_event(30, true), None);
    assert_eq!(channel.len(), 1);

    let first_batch = drain_to_midi(&mut channel, DEFAULT_VELOCITY);
    assert_eq!(
        first_batch,
        vec![MidiMessage { status: 0x91, note_number: 60, velocity: 0x70 }]
    );
    assert_eq!(first_batch[0].bytes(), [0x91, 60, 0x70]);

    if let Some(e) = tracker.on_raw_event(30, false) {
        channel.send(e);
    }
    let second_batch = drain_to_midi(&mut channel, DEFAULT_VELOCITY);
    assert_eq!(
        second_batch,
        vec![MidiMessage { status: 0x81, note_number: 60, velocity: 0x70 }]
    );
    assert_eq!(second_batch[0].bytes(), [0x81, 60, 0x70]);
}

#[test]
fn unmapped_press_produces_no_channel_activity() {
    let mut tracker = KeyTracker::new();
    let mut channel = EventChannel::new();
    if let Some(e) = tracker.on_raw_event(55, true) {
        channel.send(e);
    }
    assert_eq!(channel.len(), 0);
    assert_eq!(drain_to_midi(&mut channel, DEFAULT_VELOCITY), vec![]);
}

#[test]
fn two_presses_then_reverse_releases_keep_their_order() {
    let mut tracker = KeyTracker::new();
    let mut channel = EventChannel::new();

    for (code, down) in [(30u32, true), (31, true), (31, false), (30, false)] {
        if let Some(e) = tracker.on_raw_event(code, down) {
            channel.send(e);
        }
    }

    let mut drained: Vec<KeyEvent> = Vec::new();
    while let Some(e) = channel.try_take() {
        drained.push(e);
    }
    assert_eq!(
        drained,
        vec![
            KeyEvent { note: Note::C4, pressed: true },
            KeyEvent { note: Note::D4, pressed: true },
            KeyEvent { note: Note::D4, pressed: false },
            KeyEvent { note: Note::C4, pressed: false },
        ]
    );
}

#[test]
fn drain_preserves_interleaved_production_order() {
    let mut channel = EventChannel::new();
    let produced = vec![
        KeyEvent { note: Note::C4, pressed: true },
        KeyEvent { note: Note::E4, pressed: true },
        KeyEvent { note: Note::C4, pressed: false },
        KeyEvent { note: Note::G4, pressed: true },
        KeyEvent { note: Note::E4, pressed: false },
        KeyEvent { note: Note::G4, pressed: false },
    ];
    for e in &produced {
        channel.send(*e);
    }
    let messages = drain_to_midi(&mut channel, 0x7f);
    assert_eq!(messages.len(), produced.len());
    for (m, e) in messages.iter().zip(produced.iter()) {
        assert_eq!(m.status, if e.pressed { 0x91 } else { 0x81 });
        assert_eq!(m.note_number, e.note.to_midi_value());
        assert_eq!(m.velocity, 0x7f);
    }
    assert_eq!(channel.len(), 0);
}

#[test]
fn escape_shuts_down_without_a_note_event() {
    let mut tracker = KeyTracker::new();
    // Escape pressed first thing.
    assert_eq!(tracker.handle_input(1, true, true), UiReaction::Shutdown);
    // Escape observed while a note is held: still only shutdown.
    assert_eq!(
        tracker.handle_input(30, true, false),
        UiReaction::Emit(KeyEvent { note: Note::C4, pressed: true })
    );
    assert_eq!(tracker.handle_input(1, true, true), UiReaction::Shutdown);
    assert!(tracker.is_held(30));
}

#[test]
fn handle_input_forwards_transitions_and_suppresses_repeats() {
    let mut tracker = KeyTracker::new();
    assert_eq!(
        tracker.handle_input(37, true, false),
        UiReaction::Emit(KeyEvent { note: Note::C5, pressed: true })
    );
    assert_eq!(tracker.handle_input(37, true, false), UiReaction::Silent);
    assert_eq!(
        tracker.handle_input(37, false, false),
        UiReaction::Emit(KeyEvent { note: Note::C5, pressed: false })
    );
    assert_eq!(tracker.handle_input(42, true, false), UiReaction::Silent);
}
