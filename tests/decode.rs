use speech_essence::audio::{AudioError, SampleFormat};
use speech_essence::demux::{append_demuxed, demux, empty_buffers};
use speech_essence::mp3_stt::{self, Mp3Frame};
use speech_essence::naming::channel_file_names;
use speech_essence::opus_stt;
use speech_essence::wav_stt;

fn wav_header(channels: u16, rate: u32, bits: u16, data_len: u32) -> Vec<u8> {
    let block_align = channels * (bits / 8);
    let byte_rate = rate * block_align as u32;
    let mut b = Vec::new();
    b.extend_from_slice(b"RIFF");
    b.extend_from_slice(&(36 + data_len).to_le_bytes());
    b.extend_from_slice(b"WAVE");
    b.extend_from_slice(b"fmt ");
    b.extend_from_slice(&16u32.to_le_bytes());
    b.extend_from_slice(&1u16.to_le_bytes());
    b.extend_from_slice(&channels.to_le_bytes());
    b.extend_from_slice(&rate.to_le_bytes());
    b.extend_from_slice(&byte_rate.to_le_bytes());
    b.extend_from_slice(&block_align.to_le_bytes());
    b.extend_from_slice(&bits.to_le_bytes());
    b.extend_from_slice(b"data");
    b.extend_from_slice(&data_len.to_le_bytes());
    b
}

fn wav_i16(channels: u16, rate: u32, samples: &[i16]) -> Vec<u8> {
    let mut b = wav_header(channels, rate, 16, (samples.len() * 2) as u32);
    for s in samples {
        b.extend_from_slice(&s.to_le_bytes());
    }
    b
}

fn interleaved(n: usize) -> Vec<i16> {
    (0..n).map(|i| (i as i16) * 3 - 7).collect()
}

fn expected_channel(s: &[i16], k: usize, c: usize) -> Vec<i16> {
    (0..s.len() / k).map(|j| s[j * k + c]).collect()
}

#[test]
fn demux_selects_stride_and_offset() {
    for &k in &[1usize, 2, 6] {
        for n in 0..20usize {
            let s = interleaved(n);
            let r = demux(&s, k);
            assert_eq!(r.len(), k);
            for c in 0..k {
                assert_eq!(r[c], expected_channel(&s, k, c));
            }
        }
    }
}

#[test]
fn demux_stereo_exact_values() {
    let s: Vec<i16> = vec![1, -1, 2, -2, 3, -3, 4];
    let r = demux(&s, 2);
    assert_eq!(r, vec![vec![1, 2, 3], vec![-1, -2, -3]]);
}

#[test]
fn demux_six_channels_drops_incomplete_frame() {
    let s: Vec<i16> = (0..17).collect();
    let r = demux(&s, 6);
    assert_eq!(r[0], vec![0, 6]);
    assert_eq!(r[5], vec![5, 11]);
    assert!(r.iter().all(|c| c.len() == 2));
}

#[test]
fn demux_of_empty_input() {
    let s: Vec<i16> = Vec::new();
    let r = demux(&s, 2);
    assert_eq!(r, vec![Vec::<i16>::new(), Vec::new()]);
}

#[test]
fn append_demuxed_accumulates_blocks() {
    let mut bufs: Vec<Vec<i16>> = empty_buffers(2);
    append_demuxed(&mut bufs, &[1, 2, 3, 4], 4);
    append_demuxed(&mut bufs, &[5, 6, 7, 8, 9, 10], 4);
    assert_eq!(bufs, vec![vec![1, 3, 5, 7], vec![2, 4, 6, 8]]);
}

#[test]
fn wav_mono_round_trip() {
    let samples: Vec<i16> = vec![0, 1, -1, 32767, -32768, 1234, -4321];
    let bytes = wav_i16(1, 16000, &samples);
    let d = wav_stt::decode(&bytes).unwrap();
    assert_eq!(d.descriptor.sample_rate, 16000);
    assert_eq!(d.descriptor.channel_count, 1);
    assert_eq!(d.descriptor.sample_format, SampleFormat::Int16);
    assert_eq!(d.channels, vec![samples]);
}

#[test]
fn wav_stereo_gives_two_channels_and_two_names() {
    let samples: Vec<i16> = vec![10, 20, 11, 21, 12, 22];
    let bytes = wav_i16(2, 8000, &samples);
    let d = wav_stt::decode(&bytes).unwrap();
    assert_eq!(d.channels, vec![vec![10, 11, 12], vec![20, 21, 22]]);
    let names = channel_file_names("talk", d.channels.len());
    assert_eq!(names, vec!["talk_channel_0.txt".to_string(), "talk_channel_1.txt".to_string()]);
}

#[test]
fn wav_garbage_is_malformed() {
    let r = wav_stt::decode(b"not a wave file at all");
    assert_eq!(r.err(), Some(AudioError::MalformedContainer));
}

#[test]
fn wav_wide_samples_are_a_codec_error() {
    let mut bytes = wav_header(1, 8000, 24, 6);
    bytes.extend_from_slice(&[0, 0, 1, 0, 0, 2]);
    let r = wav_stt::decode(&bytes);
    assert_eq!(r.err(), Some(AudioError::CodecError));
}

#[test]
fn mp3_without_frames_is_malformed() {
    assert_eq!(mp3_stt::decode(&[]).err(), Some(AudioError::MalformedContainer));
    let noise: Vec<u8> = (0..4000u32).map(|i| (i % 7) as u8).collect();
    assert_eq!(mp3_stt::decode(&noise).err(), Some(AudioError::MalformedContainer));
}

#[test]
fn mp3_first_frame_descriptor() {
    let f = Mp3Frame { data: vec![1, 2], sample_rate: 44100, channels: 2 };
    let d = mp3_stt::describe_frame(&f).unwrap();
    assert_eq!(d.sample_rate, 44100);
    assert_eq!(d.channel_count, 2);
    assert_eq!(d.sample_format, SampleFormat::Int16);
    let bad = Mp3Frame { data: vec![], sample_rate: 0, channels: 2 };
    assert_eq!(mp3_stt::describe_frame(&bad).err(), Some(AudioError::MalformedContainer));
    let none = Mp3Frame { data: vec![], sample_rate: 8000, channels: 0 };
    assert_eq!(mp3_stt::describe_frame(&none).err(), Some(AudioError::MalformedContainer));
}

#[test]
fn mp3_frames_are_deinterleaved() {
    let mut bufs: Vec<Vec<i16>> = empty_buffers(2);
    let f1 = Mp3Frame { data: vec![1, -1, 2, -2], sample_rate: 8000, channels: 2 };
    let f2 = Mp3Frame { data: vec![3, -3], sample_rate: 8000, channels: 2 };
    assert!(mp3_stt::absorb_frame(&mut bufs, &f1).is_ok());
    assert!(mp3_stt::absorb_frame(&mut bufs, &f2).is_ok());
    assert_eq!(bufs, vec![vec![1, 2, 3], vec![-1, -2, -3]]);
    let mono = Mp3Frame { data: vec![9], sample_rate: 8000, channels: 1 };
    assert_eq!(mp3_stt::absorb_frame(&mut bufs, &mono), Err(AudioError::CodecError));
    assert_eq!(bufs, vec![vec![1, 2, 3], vec![-1, -2, -3]]);
}

#[test]
fn opus_stream_descriptor() {
    let d = opus_stt::describe_stream(48000, 2).unwrap();
    assert_eq!(d.sample_format, SampleFormat::Float32);
    assert_eq!(d.channel_count, 2);
    assert_eq!(d.sample_rate, 48000);
    assert_eq!(opus_stt::describe_stream(48000, 6).err(), Some(AudioError::UnsupportedFormat));
    assert_eq!(opus_stt::describe_stream(48000, 0).err(), Some(AudioError::UnsupportedFormat));
}

#[test]
fn opus_reads_use_only_the_decoded_count() {
    let mut bufs: Vec<Vec<f32>> = empty_buffers(2);
    let buf = [0.5f32, -0.5, 0.25, -0.25, 9.0, 9.0];
    assert_eq!(opus_stt::absorb_read(&mut bufs, &buf, Some(2)), Ok(true));
    assert_eq!(bufs, vec![vec![0.5, 0.25], vec![-0.5, -0.25]]);
    assert_eq!(opus_stt::absorb_read(&mut bufs, &buf, Some(0)), Ok(false));
    assert_eq!(opus_stt::absorb_read(&mut bufs, &buf, None), Err(AudioError::CodecError));
    assert_eq!(opus_stt::absorb_read(&mut bufs, &buf, Some(4)), Err(AudioError::CodecError));
    assert_eq!(bufs, vec![vec![0.5, 0.25], vec![-0.5, -0.25]]);
}

#[test]
fn opus_mono_read() {
    let mut bufs: Vec<Vec<f32>> = empty_buffers(1);
    let buf = [1.0f32, 2.0, 3.0, 0.0];
    assert_eq!(opus_stt::absorb_read(&mut bufs, &buf, Some(3)), Ok(true));
    assert_eq!(bufs, vec![vec![1.0, 2.0, 3.0]]);
}

#[test]
fn chunked_demux_matches_whole() {
    let s = interleaved(23);
    for &k in &[1usize, 2, 6] {
        let whole = demux(&s, k);
        let mut bufs: Vec<Vec<i16>> = empty_buffers(k);
        let cut = 2 * k;
        append_demuxed(&mut bufs, &s[..cut], cut);
        append_demuxed(&mut bufs, &s[cut..], s.len() - cut);
        assert_eq!(bufs, whole);
    }
}

#[test]
fn mp3_frames_keep_the_first_frame() {
    let frames = vec![
        Mp3Frame { data: vec![1, -1, 2, -2], sample_rate: 22050, channels: 2 },
        Mp3Frame { data: vec![3, -3, 4, -4], sample_rate: 22050, channels: 2 },
        Mp3Frame { data: vec![5, -5], sample_rate: 22050, channels: 2 },
    ];
    let d = mp3_stt::decode_frames(&frames).unwrap();
    assert_eq!(d.descriptor.sample_rate, 22050);
    assert_eq!(d.descriptor.channel_count, 2);
    assert_eq!(d.descriptor.sample_format, SampleFormat::Int16);
    assert_eq!(d.channels, vec![vec![1, 2, 3, 4, 5], vec![-1, -2, -3, -4, -5]]);
}

#[test]
fn mp3_frame_errors() {
    assert_eq!(mp3_stt::decode_frames(&Vec::new()).err(), Some(AudioError::MalformedContainer));
    let bad_header = vec![Mp3Frame { data: vec![1], sample_rate: 0, channels: 1 }];
    assert_eq!(mp3_stt::decode_frames(&bad_header).err(), Some(AudioError::MalformedContainer));
    let changed = vec![
        Mp3Frame { data: vec![1, 2], sample_rate: 8000, channels: 2 },
        Mp3Frame { data: vec![3], sample_rate: 8000, channels: 1 },
    ];
    assert_eq!(mp3_stt::decode_frames(&changed).err(), Some(AudioError::CodecError));
}

#[test]
fn opus_many_reads_join_in_order() {
    let mut bufs: Vec<Vec<f32>> = empty_buffers(2);
    let reads: Vec<(Vec<f32>, usize)> = vec![
        (vec![1.0, -1.0, 2.0, -2.0, 7.0, 7.0], 2),
        (vec![3.0, -3.0, 8.0, 8.0, 8.0, 8.0], 1),
        (vec![4.0, -4.0, 5.0, -5.0, 6.0, -6.0], 3),
    ];
    for (buf, n) in &reads {
        assert_eq!(opus_stt::absorb_read(&mut bufs, buf, Some(*n)), Ok(true));
    }
    assert_eq!(opus_stt::absorb_read(&mut bufs, &[0.0f32; 4], Some(0)), Ok(false));
    assert_eq!(
        bufs,
        vec![vec![1.0, 2.0, 3.0, 4.0, 5.0, 6.0], vec![-1.0, -2.0, -3.0, -4.0, -5.0, -6.0]]
    );
}
