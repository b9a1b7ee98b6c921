use kissagotchi::wav::create_wav_header;
use kissagotchi::wav::encode_wav;
use kissagotchi::wav::generate_click_wav;
use kissagotchi::wav::generate_meow_wav;
use kissagotchi::wav::generate_purr_wav;
use kissagotchi::wav::CLICK_SAMPLE_COUNT;
use kissagotchi::wav::MEOW_SAMPLE_COUNT;
use kissagotchi::wav::PURR_SAMPLE_COUNT;
use kissagotchi::wav::SAMPLE_RATE;

fn header_by_hand(data_size: u32, sample_rate: u32) -> Vec<u8> {
    let mut header = Vec::new();
    header.extend_from_slice(b"RIFF");
    header.extend_from_slice(&(data_size + 36).to_le_bytes());
    header.extend_from_slice(b"WAVE");
    header.extend_from_slice(b"fmt ");
    header.extend_from_slice(&16u32.to_le_bytes());
    header.extend_from_slice(&1u16.to_le_bytes());
    header.extend_from_slice(&1u16.to_le_bytes());
    header.extend_from_slice(&sample_rate.to_le_bytes());
    header.extend_from_slice(&(sample_rate * 2).to_le_bytes());
    header.extend_from_slice(&2u16.to_le_bytes());
    header.extend_from_slice(&16u16.to_le_bytes());
    header.extend_from_slice(b"data");
    header.extend_from_slice(&data_size.to_le_bytes());
    header
}

fn file_by_hand(samples: &[i16], sample_rate: u32) -> Vec<u8> {
    let mut wav = header_by_hand((samples.len() * 2) as u32, sample_rate);
    for s in samples {
        wav.extend_from_slice(&s.to_le_bytes());
    }
    wav
}

fn click_samples() -> Vec<i16> {
    let sample_rate = 44100;
    let duration = 0.05;
    let num_samples = (sample_rate as f32 * duration) as usize;
    let mut samples = Vec::with_capacity(num_samples);
    let mut phase = 0.0f32;
    for i in 0..num_samples {
        let t = i as f32 / sample_rate as f32;
        let freq = 800.0 * (1.0 - t / duration);
        phase += freq * 2.0 * std::f32::consts::PI / sample_rate as f32;
        let sample = if phase.sin() > 0.0 { 0.3 } else { -0.3 };
        let amplitude = 1.0 - t / duration;
        samples.push((sample * amplitude * 16383.0) as i16);
    }
    samples
}

#[test]
fn header_matches_exact_bytes() {
    let h = create_wav_header(4410, 44100);
    assert_eq!(h.len(), 44);
    assert_eq!(&h[0..4], b"RIFF");
    assert_eq!(&h[4..8], &[0x5E, 0x11, 0, 0]);
    assert_eq!(&h[8..16], b"WAVEfmt ");
    assert_eq!(&h[24..28], &[0x44, 0xAC, 0, 0]);
    assert_eq!(&h[28..32], &[0x88, 0x58, 0x01, 0]);
    assert_eq!(&h[36..40], b"data");
    assert_eq!(&h[40..44], &[0x3A, 0x11, 0, 0]);
    assert_eq!(h, header_by_hand(4410, 44100));
}

#[test]
fn header_of_empty_and_large_sizes() {
    assert_eq!(create_wav_header(0, 0), header_by_hand(0, 0));
    assert_eq!(create_wav_header(u32::MAX - 36, u32::MAX / 2), header_by_hand(u32::MAX - 36, u32::MAX / 2));
    assert_eq!(create_wav_header(0x01020304, 0x0A0B0C0D), header_by_hand(0x01020304, 0x0A0B0C0D));
}

#[test]
fn sample_counts_match_durations() {
    assert_eq!(SAMPLE_RATE, 44100);
    assert_eq!(CLICK_SAMPLE_COUNT, (44100f32 * 0.05f32) as usize);
    assert_eq!(MEOW_SAMPLE_COUNT, (44100f32 * 0.4f32) as usize);
    assert_eq!(PURR_SAMPLE_COUNT, (44100f32 * 1.5f32) as usize);
}

#[test]
fn samples_are_little_endian_twos_complement() {
    let samples = [0i16, 1, -1, 256, -256, i16::MAX, i16::MIN, 12345];
    let wav = encode_wav(&samples, 8000);
    assert_eq!(wav.len(), 44 + 2 * samples.len());
    assert_eq!(&wav[44..48], &[0, 0, 1, 0]);
    assert_eq!(&wav[48..50], &[0xFF, 0xFF]);
    assert_eq!(&wav[50..52], &[0x00, 0x01]);
    assert_eq!(&wav[52..54], &[0x00, 0xFF]);
    assert_eq!(&wav[54..56], &[0xFF, 0x7F]);
    assert_eq!(&wav[56..58], &[0x00, 0x80]);
    assert_eq!(wav, file_by_hand(&samples, 8000));
}

#[test]
fn samples_read_back_unchanged() {
    let samples: Vec<i16> = (0..500).map(|i: i32| ((i * 977) % 65536 - 32768) as i16).collect();
    let wav = encode_wav(&samples, SAMPLE_RATE);
    for (i, s) in samples.iter().enumerate() {
        let read = i16::from_le_bytes([wav[44 + 2 * i], wav[45 + 2 * i]]);
        assert_eq!(read, *s);
    }
    let riff = u32::from_le_bytes([wav[4], wav[5], wav[6], wav[7]]);
    assert_eq!(riff as usize, wav.len() - 8);
    let data = u32::from_le_bytes([wav[40], wav[41], wav[42], wav[43]]);
    assert_eq!(data as usize, 2 * samples.len());
}

#[test]
fn empty_sound_is_just_the_header() {
    let wav = encode_wav(&[], SAMPLE_RATE);
    assert_eq!(wav, create_wav_header(0, SAMPLE_RATE));
}

#[test]
fn click_wav_holds_the_click() {
    let samples = click_samples();
    assert_eq!(samples.len(), CLICK_SAMPLE_COUNT);
    let wav = generate_click_wav(&samples);
    assert_eq!(wav.len(), 44 + 2 * CLICK_SAMPLE_COUNT);
    assert_eq!(wav, file_by_hand(&samples, 44100));
}

#[test]
fn meow_and_purr_wavs_have_their_lengths() {
    let meow: Vec<i16> = (0..MEOW_SAMPLE_COUNT).map(|i| (i % 7) as i16 - 3).collect();
    let wav = generate_meow_wav(&meow);
    assert_eq!(wav.len(), 44 + 2 * 17640);
    assert_eq!(wav, file_by_hand(&meow, 44100));
    let purr: Vec<i16> = (0..PURR_SAMPLE_COUNT).map(|i| (i % 11) as i16 * -100).collect();
    let wav = generate_purr_wav(&purr);
    assert_eq!(wav.len(), 44 + 2 * 66150);
    assert_eq!(wav, file_by_hand(&purr, 44100));
}
