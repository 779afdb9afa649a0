use transcript_pipeline::conditioning::{frame_count, frame_len};
use transcript_pipeline::decoding::{
    audio_format, format_for_lowered, needs_downmix, opus_buffer_len, opus_step, AudioFormat, OpusStep,
};
use transcript_pipeline::transcription::{
    overall_progress, window_bounds, window_count, window_text, AudioProcessor, TranscriptionRun,
};

fn frames_total(n: usize) -> usize {
    (0..frame_count(n)).map(|i| frame_len(n, i)).sum()
}

#[test]
fn denoiser_keeps_length() {
    assert_eq!(frame_count(0), 0);
    assert_eq!(frames_total(0), 0);
    assert_eq!(frame_count(480), 1);
    assert_eq!(frames_total(480), 480);
    assert_eq!(frame_count(1000), 3);
    assert_eq!(frame_len(1000, 2), 40);
    assert_eq!(frames_total(1000), 1000);
    assert_eq!(frames_total(44100 * 3 + 7), 44100 * 3 + 7);
}

#[test]
fn windows_of_thirty_seconds() {
    assert_eq!(window_count(0), 0);
    assert_eq!(window_count(480000), 1);
    assert_eq!(window_count(480001), 2);
    assert_eq!(window_count(90 * 16000), 3);
    assert_eq!(window_bounds(480001, 1), (480000, 480001));
    assert_eq!(window_count(20 * 16000), 1);
}

#[test]
fn progress_blends_windows() {
    assert_eq!(overall_progress(0, 4, 0), 0);
    assert_eq!(overall_progress(1, 4, 50), 37);
    assert_eq!(overall_progress(3, 4, 100), 100);
    assert_eq!(overall_progress(2, 4, -5), 50);
    assert_eq!(overall_progress(2, 4, 250), 75);
}

#[test]
fn window_text_joins_segments() {
    let segs = vec![" Hola".to_string(), "mundo ".to_string()];
    assert_eq!(window_text(&segs), "Hola mundo");
    assert_eq!(window_text(&Vec::new()), "");
}

#[test]
fn run_skips_looping_windows() {
    let mut run = TranscriptionRun::new(3 * 480000 - 10);
    assert_eq!(run.windows(), 3);
    assert_eq!(run.next_window(), Some((0, 0, 480000)));
    let r = run.record_window(&vec!["Buenos días.".to_string()]);
    assert!(r.accepted);
    assert_eq!(r.window_index, 0);
    assert_eq!(run.progress(50), 50);
    let looped = "la la la la la ".repeat(5);
    let r = run.record_window(&vec![looped]);
    assert!(!r.accepted);
    assert_eq!(r.window_index, 1);
    assert_eq!(run.next_window(), Some((2, 960000, 1439990)));
    let r = run.record_window(&vec!["Se levanta".to_string(), "la sesión.".to_string()]);
    assert!(r.accepted);
    assert!(run.is_done());
    assert_eq!(run.next_window(), None);
    assert_eq!(run.transcript(), "Buenos días. Se levanta la sesión.");
}

#[test]
fn silent_then_looping_recording_gives_empty_transcript() {
    // 20 s of speech after resampling to 16 kHz fit in one window.
    let mut run = TranscriptionRun::new(20 * 16000);
    assert_eq!(run.windows(), 1);
    let phrase = "hello world hello world hello ";
    let r = run.record_window(&vec![phrase.repeat(5)]);
    assert!(!r.accepted);
    assert_eq!(run.transcript(), "");
}

#[test]
fn empty_window_is_accepted_but_adds_nothing() {
    let mut run = TranscriptionRun::new(960000);
    let r = run.record_window(&Vec::new());
    assert!(r.accepted);
    run.record_window(&vec!["fin".to_string()]);
    assert_eq!(run.transcript(), "fin");
}

#[test]
fn speech_model_url() {
    let p = AudioProcessor::new("a.wav".to_string(), "ggml-base.bin".to_string());
    assert_eq!(p.model_url(), "https://huggingface.co/ggerganov/whisper.cpp/resolve/main/ggml-base.bin");
    assert_eq!(p.file_path, "a.wav");
}

#[test]
fn format_by_extension() {
    assert_eq!(audio_format("/tmp/sesion.WAV"), Ok(AudioFormat::Container));
    assert_eq!(audio_format("grabacion.opus"), Ok(AudioFormat::Opus));
    assert_eq!(audio_format("x.M4a"), Ok(AudioFormat::Container));
    assert_eq!(audio_format("notas.txt"), Err("Formato no soportado: txt".to_string()));
    assert_eq!(audio_format("sin_extension"), Err("Formato no soportado: ".to_string()));
    assert_eq!(format_for_lowered("flac"), Some(AudioFormat::Container));
    assert_eq!(format_for_lowered("FLAC"), None);
}

#[test]
fn opus_packets() {
    let head = b"OpusHead\x01\x02\x38\x01";
    assert_eq!(opus_step(false, head), OpusStep::Open(2));
    assert_eq!(opus_step(false, b"OpusHead\x01"), OpusStep::Truncated);
    assert_eq!(opus_step(false, b"\x00\x01audio"), OpusStep::Skip);
    assert_eq!(opus_step(true, b"OpusTags vendor"), OpusStep::Skip);
    assert_eq!(opus_step(true, b"\xfc\xff\xfe"), OpusStep::Decode);
    assert_eq!(opus_step(true, b""), OpusStep::Decode);
    assert_eq!(opus_buffer_len(2), 11520);
    assert!(needs_downmix(2));
    assert!(!needs_downmix(1));
    assert!(!needs_downmix(6));
}
