use std::time::Duration;

use event_distributor::protocol::AudioDuration;
use event_distributor::protocol::AudioFormat;
use event_distributor::protocol::InputModality;
use event_distributor::protocol::OutputModality;
use event_distributor::protocol::NANOS_PER_SEC;

fn span(secs: u64, subsec_nanos: u32) -> AudioDuration {
    AudioDuration { secs, subsec_nanos }
}

#[test]
fn new_keeps_channels_and_sample_rate() {
    let format = AudioFormat::new(2, 44100);
    assert_eq!(format.channels, 2);
    assert_eq!(format.sample_rate, 44100);
    assert_eq!(format, AudioFormat { channels: 2, sample_rate: 44100 });
}

#[test]
fn audio_input_accepts_only_its_own_format() {
    let format = AudioFormat::new(1, 16000);
    let input = InputModality::Audio { format };
    assert!(input.can_receive_audio(AudioFormat::new(1, 16000)));
    assert!(!input.can_receive_audio(AudioFormat::new(2, 16000)));
    assert!(!input.can_receive_audio(AudioFormat::new(1, 8000)));
}

#[test]
fn text_input_accepts_no_audio() {
    assert!(!InputModality::Text.can_receive_audio(AudioFormat::new(1, 16000)));
    assert!(!InputModality::Text.can_receive_audio(AudioFormat::new(0, 0)));
}

#[test]
fn output_modalities_compare_by_format() {
    let audio = OutputModality::Audio { format: AudioFormat::new(1, 16000) };
    assert_eq!(audio.clone(), audio);
    assert_ne!(audio, OutputModality::Audio { format: AudioFormat::new(1, 8000) });
    assert_ne!(OutputModality::Text, OutputModality::InterimText);
}

#[test]
fn duration_of_whole_seconds() {
    assert_eq!(AudioFormat::new(1, 16000).duration(16000), span(1, 0));
    assert_eq!(AudioFormat::new(2, 48000).duration(96000), span(1, 0));
    assert_eq!(AudioFormat::new(1, 8000).duration(8000 * 90), span(90, 0));
    assert_eq!(AudioFormat::new(1, 16000).duration(0), span(0, 0));
}

#[test]
fn duration_of_parts_of_a_second() {
    assert_eq!(AudioFormat::new(1, 16000).duration(1), span(0, 62_500));
    assert_eq!(AudioFormat::new(1, 16000).duration(8000), span(0, 500_000_000));
    assert_eq!(AudioFormat::new(1, 16000).duration(24000), span(1, 500_000_000));
    assert_eq!(AudioFormat::new(2, 16000).duration(320), span(0, 10_000_000));
}

#[test]
fn duration_leaves_out_an_incomplete_frame() {
    let stereo = AudioFormat::new(2, 16000);
    assert_eq!(stereo.duration(3), stereo.duration(2));
    assert_eq!(stereo.duration(3), span(0, 62_500));
    assert_eq!(stereo.duration(1), span(0, 0));
}

#[test]
fn duration_rounds_to_the_nearest_nanosecond() {
    // 1 / 44100 s = 22675.73.. ns
    assert_eq!(AudioFormat::new(1, 44100).duration(1), span(0, 22_676));
    // 1 / 3 s and 2 / 3 s
    assert_eq!(AudioFormat::new(1, 3).duration(1), span(0, 333_333_333));
    assert_eq!(AudioFormat::new(1, 3).duration(2), span(0, 666_666_667));
    // 999_999_999.6 ns carries into the seconds
    assert_eq!(AudioFormat::new(1, 2_500_000_000).duration(2_499_999_999), span(1, 0));
}

#[test]
fn duration_rounds_a_tie_to_the_even_nanosecond() {
    let format = AudioFormat::new(1, 2_000_000_000);
    assert_eq!(format.duration(1), span(0, 0));
    assert_eq!(format.duration(3), span(0, 2));
    assert_eq!(format.duration(5), span(0, 2));
    assert_eq!(format.duration(7), span(0, 4));
}

#[test]
fn duration_of_the_longest_buffer() {
    let length = AudioFormat::new(1, 1).duration(usize::MAX);
    assert_eq!(length, span(usize::MAX as u64, 0));
    let length = AudioFormat::new(u16::MAX, u32::MAX).duration(usize::MAX);
    assert!(length.subsec_nanos < NANOS_PER_SEC);
}

#[test]
fn duration_agrees_with_floating_point_seconds() {
    let rates: [u32; 8] = [8000, 11025, 16000, 22050, 24000, 32000, 44100, 48000];
    for rate in rates {
        for channels in 1..=2u16 {
            let format = AudioFormat::new(channels, rate);
            for no_samples in 0..4000usize {
                let mono_sample_count = no_samples / channels as usize;
                let expected = Duration::from_secs_f64(mono_sample_count as f64 / rate as f64);
                let length = format.duration(no_samples);
                assert_eq!(Duration::new(length.secs, length.subsec_nanos), expected);
            }
        }
    }
}
