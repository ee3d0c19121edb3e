use radio::cli::{Args, Command};
use radio::decoder::{Mp3Error, Mp3StreamDecoder};
use radio::response::GenericResponse;
use radio::settings::Settings;
use std::io::Cursor;

#[test]
fn fresh_settings_are_at_full_volume() {
    assert_eq!(Settings::default(2), Settings { alsa_device_index: 2, volume_percent: 100 });
}

#[test]
fn responses_carry_message_and_error() {
    let ok = GenericResponse::ok("started playback");
    assert_eq!(ok.message, "started playback");
    assert_eq!(ok.error, None);
    let err = GenericResponse::err("could not start playback", "boom".to_string());
    assert_eq!(err.message, "could not start playback");
    assert_eq!(err.error, Some("boom".to_string()));
}

#[test]
fn command_line_values() {
    let args = Args { config_path: None, subcommand: Command::Files };
    assert_ne!(args.subcommand, Command::Run);
}

#[test]
fn garbage_is_not_mp3() {
    let r = Mp3StreamDecoder::new(Cursor::new(vec![0u8; 4096]));
    assert!(matches!(r, Err(Mp3Error::NotMp3)));
    let r = Mp3StreamDecoder::new(Cursor::new(b"this is plain text, not audio".to_vec()));
    assert!(matches!(r, Err(Mp3Error::NotMp3)));
}

#[test]
fn empty_stream_is_not_mp3() {
    let r = Mp3StreamDecoder::new(Cursor::new(Vec::<u8>::new()));
    assert!(matches!(r, Err(Mp3Error::NotMp3)));
}

/// Silent MPEG-1 Layer III frames: 128 kbit/s, 44.1 kHz, joint stereo.
fn silent_mp3(frames: usize) -> Vec<u8> {
    let mut frame = vec![0xFFu8, 0xFB, 0x90, 0x64];
    frame.resize(417, 0);
    frame.repeat(frames)
}

#[test]
fn silent_stream_decodes_frame_by_frame() {
    let mut decoder = Mp3StreamDecoder::new(Cursor::new(silent_mp3(200))).ok().expect("valid MP3");
    assert_eq!(decoder.channels(), 2);
    assert_eq!(decoder.sample_rate(), 44100);
    assert_eq!(decoder.current_frame_len(), Some(2304));
    assert_eq!(decoder.total_duration(), None);
    let mut count: usize = 0;
    while let Some(sample) = decoder.next() {
        assert_eq!(sample, 0);
        count += 1;
        assert!(count < 200 * 2304);
    }
    assert!(count > 2304);
    assert_eq!(count % 2304, 0);
    assert_eq!(decoder.next(), None);
}
