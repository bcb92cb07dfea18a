use sawwave::event::{Event, NOTE_OFF, NOTE_ON};
use sawwave::voice::SawWave;

fn midi(status: u8, data1: u8, data2: u8) -> Event {
    Event::Midi { data: [status, data1, data2] }
}

#[test]
fn new_voice_is_silent() {
    let voice = SawWave::default();
    assert_eq!(voice.note(), None);
}

#[test]
fn status_bytes_are_the_midi_ones() {
    assert_eq!(NOTE_OFF, 0x80);
    assert_eq!(NOTE_ON, 0x90);
}

#[test]
fn note_on_then_matching_note_off_is_silent() {
    let mut voice = SawWave::default();
    voice.note_on(60);
    assert_eq!(voice.note(), Some(60));
    voice.note_off(60);
    assert_eq!(voice.note(), None);
}

#[test]
fn mismatched_note_off_is_a_no_op() {
    let mut voice = SawWave::default();
    voice.note_on(60);
    voice.note_off(61);
    assert_eq!(voice.note(), Some(60));
}

#[test]
fn note_off_on_a_silent_voice_is_a_no_op() {
    let mut voice = SawWave::default();
    voice.note_off(60);
    assert_eq!(voice.note(), None);
}

#[test]
fn last_note_on_wins() {
    let mut voice = SawWave::default();
    voice.note_on(60);
    voice.note_on(64);
    assert_eq!(voice.note(), Some(64));
}

#[test]
fn stale_note_off_after_a_newer_note_on_is_ignored() {
    let mut voice = SawWave::default();
    voice.note_on(60);
    voice.note_on(64);
    voice.note_off(60);
    assert_eq!(voice.note(), Some(64));
    voice.note_off(64);
    assert_eq!(voice.note(), None);
}

#[test]
fn every_byte_is_accepted_as_a_note() {
    let mut voice = SawWave::default();
    for note in [0u8, 1, 69, 127, 128, 200, 255] {
        voice.note_on(note);
        assert_eq!(voice.note(), Some(note));
        voice.note_off(note);
        assert_eq!(voice.note(), None);
    }
}

#[test]
fn midi_note_on_starts_the_note_and_reports_it() {
    let mut voice = SawWave::default();
    assert!(voice.process_midi_event([144, 69, 100]));
    assert_eq!(voice.note(), Some(69));
}

#[test]
fn second_midi_note_on_starts_over() {
    let mut voice = SawWave::default();
    assert!(voice.process_midi_event([144, 60, 100]));
    assert!(voice.process_midi_event([144, 64, 100]));
    assert_eq!(voice.note(), Some(64));
}

#[test]
fn midi_note_off_releases_only_the_sounding_note() {
    let mut voice = SawWave::default();
    voice.note_on(60);
    assert!(!voice.process_midi_event([128, 61, 0]));
    assert_eq!(voice.note(), Some(60));
    assert!(!voice.process_midi_event([128, 60, 0]));
    assert_eq!(voice.note(), None);
}

#[test]
fn velocity_is_ignored() {
    for velocity in [0u8, 1, 64, 127, 255] {
        let mut voice = SawWave::default();
        assert!(voice.process_midi_event([144, 72, velocity]));
        assert_eq!(voice.note(), Some(72));
        assert!(!voice.process_midi_event([128, 72, velocity]));
        assert_eq!(voice.note(), None);
    }
}

#[test]
fn other_status_bytes_change_nothing() {
    for status in 0u8..=255 {
        if status == 128 || status == 144 {
            continue;
        }
        let mut silent = SawWave::default();
        assert!(!silent.process_midi_event([status, 60, 100]));
        assert_eq!(silent.note(), None);

        let mut sounding = SawWave::default();
        sounding.note_on(60);
        assert!(!sounding.process_midi_event([status, 60, 100]));
        assert_eq!(sounding.note(), Some(60));
    }
}

#[test]
fn note_on_with_a_channel_nibble_is_not_decoded() {
    let mut voice = SawWave::default();
    assert!(!voice.process_midi_event([0x91, 60, 100]));
    assert_eq!(voice.note(), None);
    voice.note_on(60);
    assert!(!voice.process_midi_event([0x81, 60, 0]));
    assert_eq!(voice.note(), Some(60));
}

#[test]
fn empty_batch_changes_nothing() {
    let mut voice = SawWave::default();
    assert!(!voice.process_events(Vec::new()));
    assert_eq!(voice.note(), None);
    voice.note_on(33);
    assert!(!voice.process_events(vec![]));
    assert_eq!(voice.note(), Some(33));
}

#[test]
fn batch_is_applied_in_arrival_order() {
    let mut voice = SawWave::default();
    let started = voice.process_events(vec![midi(144, 60, 90), midi(128, 60, 0), midi(144, 64, 90)]);
    assert!(started);
    assert_eq!(voice.note(), Some(64));

    let mut voice = SawWave::default();
    let started = voice.process_events(vec![midi(144, 64, 90), midi(144, 60, 90), midi(128, 60, 0)]);
    assert!(started);
    assert_eq!(voice.note(), None);
}

#[test]
fn batch_with_mismatched_note_off_keeps_the_note() {
    let mut voice = SawWave::default();
    let started = voice.process_events(vec![midi(144, 60, 1), midi(128, 61, 0)]);
    assert!(started);
    assert_eq!(voice.note(), Some(60));
}

#[test]
fn batch_without_note_on_reports_no_start() {
    let mut voice = SawWave::default();
    voice.note_on(60);
    let started = voice.process_events(vec![midi(128, 60, 0), Event::Other, midi(176, 1, 2)]);
    assert!(!started);
    assert_eq!(voice.note(), None);
}

#[test]
fn note_on_that_is_released_in_the_same_batch_still_reports_a_start() {
    let mut voice = SawWave::default();
    let started = voice.process_events(vec![midi(144, 60, 1), midi(128, 60, 0)]);
    assert!(started);
    assert_eq!(voice.note(), None);
}

#[test]
fn events_that_are_not_midi_are_ignored() {
    let mut voice = SawWave::default();
    voice.note_on(48);
    assert!(!voice.process_events(vec![Event::Other, Event::Other]));
    assert_eq!(voice.note(), Some(48));
}

#[test]
fn two_batches_act_as_their_concatenation() {
    let first = vec![midi(144, 60, 1), midi(128, 61, 0), Event::Other];
    let second = vec![midi(128, 60, 0), midi(144, 67, 5), midi(128, 66, 0)];

    let mut split = SawWave::default();
    let started_first = split.process_events(first.clone());
    let started_second = split.process_events(second.clone());

    let mut joined = SawWave::default();
    let mut all = first;
    all.extend(second);
    let started = joined.process_events(all);

    assert_eq!(split.note(), Some(67));
    assert_eq!(joined.note(), Some(67));
    assert_eq!(started, started_first || started_second);
}
