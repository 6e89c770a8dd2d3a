use shepard_synth::config::Config;
use shepard_synth::note::{Note, NOTES_IN_SCALE};
use shepard_synth::sequencer::{
    build_schedule, note_sample_count, pass_transposition, sample_tick, schedule_total,
    total_samples, ClockPolicy, Voice,
};

// The melody the synthesizer ships with.
fn melody() -> Vec<Note> {
    vec![
        Note(7, 1),
        Note(3, 1),
        Note(0, 1),
        Note(7, 2),
        Note(2, 1),
        Note(11 - 12, 1),
        Note(7, 2),
        Note(2, 1),
        Note(10 - 12, 1),
        Note(7, 1),
        Note(5, 1),
        Note(0, 1),
        Note(9 - 12, 1),
        Note(5, 2),
        Note(0, 1),
        Note(8 - 12, 1),
        Note(5, 1),
        Note(3, 1),
        Note(0, 1),
        Note(7 - 12, 1),
        Note(3, 2),
        Note(0, 1),
        Note(8 - 12, 1),
        Note(3, 1),
        Note(5, 1),
        Note(2, 1),
        Note(8, 1),
    ]
}

#[test]
fn twelve_notes_to_the_scale() {
    assert_eq!(NOTES_IN_SCALE(), 12);
}

#[test]
fn note_algebra() {
    let n = Note(7, 1);
    assert_eq!(n.transpose(-2), Note(5, 1));
    assert_eq!(n.transpose(3).transpose(3), Note(13, 1));
    assert_eq!(n.scale_time(2), Note(7, 2));
    assert_eq!(Note(-5, 3).transpose(36), Note(31, 3));
}

#[test]
fn pass_transpositions_step_by_three_from_minus_two() {
    let cfg = Config::standard();
    assert_eq!(pass_transposition(&cfg, 0), -2);
    assert_eq!(pass_transposition(&cfg, 1), 1);
    assert_eq!(pass_transposition(&cfg, 12), 34);
}

#[test]
fn beat_presets_give_exact_sample_counts() {
    let cfg = Config::standard();
    // One beat at 0.25 s and 44100 Hz is 11025 samples, exactly.
    assert_eq!(note_sample_count(&cfg, 1), 11025);
    assert_eq!(note_sample_count(&cfg, 2), 22050);
    let half = Config::half_second_beat();
    assert_eq!(note_sample_count(&half, 1), 22050);
    assert_eq!(note_sample_count(&half, 3), 66150);
}

#[test]
fn first_event_of_the_run_lasts_twenty_two_thousand_fifty_samples() {
    // Melody note (7, 1) in pass 0: transposed by -2 to pitch 5, stretched
    // to 2 beats of 0.25 s at 44100 Hz; exactly
    // round(2 * 0.25 * 44100) = 22050 samples.
    let cfg = Config::standard();
    let events = build_schedule(&cfg, &vec![Note(7, 1)]).unwrap();
    assert_eq!(events.len(), 13);
    assert_eq!(events[0].note, Note(5, 2));
    assert_eq!(events[0].start, 0);
    assert_eq!(events[0].ticks, 22050);
    // The clock runs on without gaps.
    assert_eq!(events[1].start, 22050);
    assert_eq!(events[1].note, Note(8, 2));
    assert_eq!(events[12].note, Note(7 + 34, 2));
}

#[test]
fn schedule_walks_passes_in_order() {
    let cfg = Config::standard();
    let m = melody();
    let events = build_schedule(&cfg, &m).unwrap();
    assert_eq!(events.len(), 13 * 27);
    // Every event of pass p plays melody note j transposed by 3p - 2 with
    // its length doubled, and starts where its predecessor ended.
    let mut clock: u64 = 0;
    for (k, ev) in events.iter().enumerate() {
        let pass = (k / 27) as i16;
        let j = k % 27;
        assert_eq!(ev.note.0, m[j].0 + 3 * pass - 2);
        assert_eq!(ev.note.1, m[j].1 * 2);
        assert_eq!(ev.start, clock);
        assert_eq!(ev.ticks, ev.note.1 as u64 * 11025);
        clock += ev.ticks;
    }
}

#[test]
fn total_stream_length_is_the_sum_over_every_transformed_note() {
    // 31 beats of melody, doubled, at 11025 samples a beat, over 13
    // passes: 13 * 31 * 2 * 11025 = 8886150 bytes, with no drift.
    let cfg = Config::standard();
    let m = melody();
    let total = total_samples(&cfg, &m).unwrap();
    assert_eq!(total, 8_886_150);
    let events = build_schedule(&cfg, &m).unwrap();
    assert_eq!(schedule_total(&events).unwrap(), total);
    let by_hand: u64 = events.iter().map(|e| e.ticks).sum();
    assert_eq!(by_hand, total);
    let last = events.last().unwrap();
    assert_eq!(last.start + last.ticks, total);
}

#[test]
fn a_duration_that_leaves_machine_range_is_refused() {
    let cfg = Config::standard();
    // 40000 beats doubled no longer fit a 16-bit beat count.
    assert!(build_schedule(&cfg, &vec![Note(0, 40000)]).is_none());
    assert!(total_samples(&cfg, &vec![Note(0, 40000)]).is_none());
}

#[test]
fn a_pitch_that_leaves_machine_range_is_refused() {
    let cfg = Config::standard();
    // Pitch 32760 overflows a 16-bit pitch once later passes transpose it.
    assert!(build_schedule(&cfg, &vec![Note(32760, 1)]).is_none());
}

#[test]
fn an_empty_melody_is_an_empty_run() {
    let cfg = Config::standard();
    let events = build_schedule(&cfg, &Vec::new()).unwrap();
    assert!(events.is_empty());
    assert_eq!(total_samples(&cfg, &Vec::new()).unwrap(), 0);
}

#[test]
fn each_voice_listens_to_its_own_clock() {
    assert_eq!(Voice::PureTone.clock_policy(), ClockPolicy::PerNote);
    assert_eq!(Voice::ShepardSaw.clock_policy(), ClockPolicy::Continuous);
    assert_eq!(sample_tick(ClockPolicy::PerNote, 22050, 7), 7);
    assert_eq!(sample_tick(ClockPolicy::Continuous, 22050, 7), 22057);
}

#[test]
fn the_two_beat_presets_are_the_documented_configurations() {
    let cfg = Config::standard();
    assert_eq!(cfg.sample_rate, 44100);
    assert_eq!((cfg.beat_num, cfg.beat_den), (1, 4));
    assert_eq!(cfg.passes, 13);
    assert_eq!(cfg.transpose_step, 3);
    assert_eq!(cfg.transpose_offset, 2);
    assert_eq!(cfg.duration_scale, 2);
    let half = Config::half_second_beat();
    assert_eq!((half.beat_num, half.beat_den), (1, 2));
}
