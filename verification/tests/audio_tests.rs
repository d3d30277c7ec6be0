use interstellar_triangulum::audio::{AudioMixer, WavFormat};
use interstellar_triangulum::decimal::Decimal;

fn d(millis: i64) -> Decimal {
    Decimal::from_millis(millis)
}

#[test]
fn mix_of_no_tracks_has_the_full_length() {
    let mixer = AudioMixer::new(44100, 2);
    assert_eq!(mixer.track_count(), 0);
    assert_eq!(mixer.output_len(d(1_000)), Some(88_200));
    assert_eq!(mixer.output_len(d(1_500)), Some(132_300));
    assert_eq!(mixer.output_len(d(10)), Some(882));
    assert_eq!(mixer.output_len(d(1)), Some(88));
    assert_eq!(mixer.output_len(d(0)), Some(0));
    assert_eq!(mixer.output_len(d(-5_000)), Some(0));
    for position in 0..100 {
        assert_eq!(mixer.source_index(0, position), None);
    }
    assert!(mixer.track(0).is_none());
}

#[test]
fn output_length_that_does_not_fit() {
    let mixer = AudioMixer::new(u32::MAX, u32::MAX);
    assert_eq!(mixer.output_len(d(i64::MAX)), None);
    assert_eq!(AudioMixer::new(0, 2).output_len(d(1_000)), Some(0));
    assert_eq!(AudioMixer::new(48_000, 0).output_len(d(1_000)), Some(0));
}

#[test]
fn mono_track_goes_to_every_channel() {
    let mut mixer = AudioMixer::new(8_000, 2);
    mixer.add_track(5, 8_000, 1, d(0), d(1_000));
    assert_eq!(mixer.track_count(), 1);
    for frame in 0..5 {
        assert_eq!(mixer.source_index(0, 2 * frame), Some(frame));
        assert_eq!(mixer.source_index(0, 2 * frame + 1), Some(frame));
    }
    assert_eq!(mixer.source_index(0, 10), None);
    assert_eq!(mixer.source_index(0, 11), None);
    assert_eq!(mixer.source_index(1, 0), None);
    let track = mixer.track(0).unwrap();
    assert_eq!(track.sample_count, 5);
    assert_eq!(track.volume, d(1_000));
}

#[test]
fn stereo_track_keeps_its_channels() {
    let mut mixer = AudioMixer::new(8_000, 2);
    mixer.add_track(6, 8_000, 2, d(0), d(500));
    let got: Vec<Option<usize>> = (0..8).map(|p| mixer.source_index(0, p)).collect();
    assert_eq!(got, vec![Some(0), Some(1), Some(2), Some(3), Some(4), Some(5), None, None]);
}

#[test]
fn channels_wrap_around() {
    // three output channels, two input channels: channel 2 takes input channel 0
    let mut mixer = AudioMixer::new(100, 3);
    mixer.add_track(4, 100, 2, d(0), d(1_000));
    let got: Vec<Option<usize>> = (0..7).map(|p| mixer.source_index(0, p)).collect();
    assert_eq!(got, vec![Some(0), Some(1), Some(0), Some(2), Some(3), Some(2), None]);
}

#[test]
fn nearest_neighbour_resampling() {
    // input at half the output rate: every input frame is used twice
    let mut mixer = AudioMixer::new(200, 1);
    mixer.add_track(3, 100, 1, d(0), d(1_000));
    let got: Vec<Option<usize>> = (0..7).map(|p| mixer.source_index(0, p)).collect();
    assert_eq!(got, vec![Some(0), Some(0), Some(1), Some(1), Some(2), Some(2), None]);
    // input at three times the output rate: every third frame is used
    let mut fast = AudioMixer::new(100, 1);
    fast.add_track(7, 300, 1, d(0), d(1_000));
    let got: Vec<Option<usize>> = (0..4).map(|p| fast.source_index(0, p)).collect();
    assert_eq!(got, vec![Some(0), Some(3), Some(6), None]);
    // 44100 from 48000
    let mut usual = AudioMixer::new(44_100, 1);
    usual.add_track(48_000, 48_000, 1, d(0), d(1_000));
    assert_eq!(usual.source_index(0, 441), Some(480));
    assert_eq!(usual.source_index(0, 1), Some(1));
    assert_eq!(usual.source_index(0, 100), Some(108));
}

#[test]
fn start_offset_in_the_output() {
    let mut mixer = AudioMixer::new(1_000, 2);
    mixer.add_track(4, 1_000, 1, d(3), d(1_000));
    // the track starts at output frame 3, position 6
    let got: Vec<Option<usize>> = (4..16).map(|p| mixer.source_index(0, p)).collect();
    assert_eq!(
        got,
        vec![
            None,
            None,
            Some(0),
            Some(0),
            Some(1),
            Some(1),
            Some(2),
            Some(2),
            Some(3),
            Some(3),
            None,
            None
        ]
    );
    let mut early = AudioMixer::new(1_000, 1);
    early.add_track(2, 1_000, 1, d(-500), d(1_000));
    assert_eq!(early.source_index(0, 0), Some(0));
    let mut late = AudioMixer::new(u32::MAX, u32::MAX);
    late.add_track(2, 1, 1, d(i64::MAX), d(1_000));
    assert_eq!(late.source_index(0, usize::MAX), None);
}

#[test]
fn tracks_without_channels_or_rates_give_nothing() {
    let mut mixer = AudioMixer::new(100, 2);
    mixer.add_track(10, 100, 0, d(0), d(1_000));
    assert_eq!(mixer.source_index(0, 0), None);
    let mut silent = AudioMixer::new(0, 2);
    silent.add_track(10, 100, 1, d(0), d(1_000));
    assert_eq!(silent.source_index(0, 0), None);
    let mut flat = AudioMixer::new(100, 0);
    flat.add_track(10, 100, 1, d(0), d(1_000));
    assert_eq!(flat.source_index(0, 0), None);
    let mut still = AudioMixer::new(100, 1);
    still.add_track(10, 0, 1, d(0), d(1_000));
    assert_eq!(still.source_index(0, 5), Some(0));
}

#[test]
fn export_format_of_the_mixer() {
    assert_eq!(
        AudioMixer::new(44_100, 2).export_format(),
        WavFormat { channels: 2, sample_rate: 44_100, bits_per_sample: 32 }
    );
    assert_eq!(AudioMixer::new(8_000, 65_537).export_format().channels, 1);
}

#[test]
fn contributions_of_overlapping_tracks() {
    let mut mixer = AudioMixer::new(10, 1);
    assert_eq!(mixer.contributions(0), vec![]);
    mixer.add_track(3, 10, 1, d(0), d(1_000));
    mixer.add_track(2, 10, 1, d(200), d(500));
    mixer.add_track(0, 10, 1, d(0), d(1_000));
    assert_eq!(mixer.contributions(0), vec![(0, 0)]);
    assert_eq!(mixer.contributions(1), vec![(0, 1)]);
    assert_eq!(mixer.contributions(2), vec![(0, 2), (1, 0)]);
    assert_eq!(mixer.contributions(3), vec![(1, 1)]);
    assert_eq!(mixer.contributions(4), vec![]);
}
