use loon::server::{after_bind_failure, BindRetry, BIND_ATTEMPTS, LISTEN_ADDR};
use loon::transcribe::{
    decode_wav, find_model, finish_transcription, health_status, plan_transcription, Model,
    TranscribeStep,
};
use loon::whisper::{check_exit, transcript_from_output, WhisperCppBackend};

fn wav_bytes(channels: u16, rate: u32, samples: &[i16]) -> Vec<u8> {
    let spec = hound::WavSpec {
        channels,
        sample_rate: rate,
        bits_per_sample: 16,
        sample_format: hound::SampleFormat::Int,
    };
    let mut cursor = std::io::Cursor::new(Vec::new());
    {
        let mut w = hound::WavWriter::new(&mut cursor, spec).unwrap();
        for &s in samples {
            w.write_sample(s).unwrap();
        }
        w.finalize().unwrap();
    }
    cursor.into_inner()
}

fn model(id: &str, file: &str) -> Model {
    Model {
        id: id.to_string(),
        name: id.to_uppercase(),
        backend: "whisper.cpp".to_string(),
        size: 1,
        filename: file.to_string(),
        download_url: String::new(),
        languages: vec!["en".to_string()],
    }
}

#[test]
fn health_is_ok() {
    assert_eq!(health_status().status, "ok");
}

#[test]
fn decodes_wav_samples() {
    let bytes = wav_bytes(2, 44100, &[1, -2, 300, -32768]);
    let a = decode_wav(&bytes).unwrap();
    assert_eq!(a.channels, 2);
    assert_eq!(a.sample_rate, 44100);
    assert_eq!(a.samples, vec![1, -2, 300, -32768]);
    assert!(a.mixes_down());
    assert_eq!(a.resample_from(), Some(44100));
}

#[test]
fn mono_16k_needs_no_conversion() {
    let a = decode_wav(&wav_bytes(1, 16000, &[5])).unwrap();
    assert!(!a.mixes_down());
    assert_eq!(a.resample_from(), None);
}

#[test]
fn garbage_is_a_decode_error() {
    let e = decode_wav(b"not a wav file at all").err().unwrap();
    assert!(!e.is_empty());
}

#[test]
fn finds_first_model_with_id() {
    let models = vec![model("a", "a.bin"), model("b", "b1.bin"), model("b", "b2.bin")];
    assert_eq!(find_model(&models, "b"), Some(1));
    assert_eq!(find_model(&models, "c"), None);
}

#[test]
fn missing_fields_are_refused() {
    let models = vec![model("base", "ggml-base.bin")];
    match plan_transcription(String::new(), b"x", &models, "/m") {
        TranscribeStep::Reply(r) => {
            assert_eq!(r.model_id, "");
            assert_eq!(r.text, "error: missing model_id or file");
        }
        _ => panic!("expected a reply"),
    }
    match plan_transcription("base".to_string(), b"", &models, "/m") {
        TranscribeStep::Reply(r) => assert_eq!(r.text, "error: missing model_id or file"),
        _ => panic!("expected a reply"),
    }
}

#[test]
fn unknown_model_is_refused() {
    let models = vec![model("base", "ggml-base.bin")];
    match plan_transcription("tiny".to_string(), b"abc", &models, "/m") {
        TranscribeStep::Reply(r) => {
            assert_eq!(r.model_id, "tiny");
            assert_eq!(r.text, "error: model not found");
        }
        _ => panic!("expected a reply"),
    }
}

#[test]
fn bad_audio_is_reported() {
    let models = vec![model("base", "ggml-base.bin")];
    match plan_transcription("base".to_string(), b"abc", &models, "/m") {
        TranscribeStep::Reply(r) => assert!(r.text.starts_with("error: audio decode failed: ")),
        _ => panic!("expected a reply"),
    }
}

#[test]
fn good_request_runs_backend() {
    let models = vec![model("base", "ggml-base.bin")];
    let bytes = wav_bytes(1, 16000, &[1, 2, 3]);
    match plan_transcription("base".to_string(), &bytes, &models, "/models") {
        TranscribeStep::Run { model_id, model_path, audio } => {
            assert_eq!(model_id, "base");
            let expected = std::path::Path::new("/models").join("ggml-base.bin");
            assert_eq!(model_path, expected.to_string_lossy());
            assert_eq!(audio.samples, vec![1, 2, 3]);
        }
        _ => panic!("expected a run"),
    }
}

#[test]
fn backend_outcome_becomes_response() {
    let ok = finish_transcription("m".to_string(), Ok("hi".to_string()));
    assert_eq!(ok.text, "hi");
    let err = finish_transcription("m".to_string(), Err("boom".to_string()));
    assert_eq!(err.model_id, "m");
    assert_eq!(err.text, "error: transcription failed: boom");
}

#[test]
fn whisper_command_line() {
    let b = WhisperCppBackend::new("/m/base.bin", "/w/whisper-cli");
    assert_eq!(b.binary_path(), "/w/whisper-cli");
    assert_eq!(b.model_path(), "/m/base.bin");
    assert_eq!(
        b.command_args("/t/input.wav", "/t/output"),
        vec!["-m", "/m/base.bin", "-f", "/t/input.wav", "-otxt", "-of", "/t/output"]
    );
}

#[test]
fn whisper_exit_and_output() {
    assert_eq!(check_exit(true, "ignored"), Ok(()));
    assert_eq!(check_exit(false, "no model"), Err("whisper-cli failed: no model".to_string()));
    assert_eq!(transcript_from_output("\n Hello world.\n\n"), "Hello world.");
}

#[test]
fn bind_is_tried_five_times() {
    assert_eq!(LISTEN_ADDR, "127.0.0.1:15000");
    let mut tries = 1;
    while after_bind_failure(tries) == BindRetry::WaitAndRetry(500) {
        tries += 1;
    }
    assert_eq!(tries, BIND_ATTEMPTS);
    assert_eq!(tries, 5);
    assert_eq!(after_bind_failure(5), BindRetry::GiveUp);
}

#[test]
fn model_file_in_subdirectory() {
    let models = vec![model("base", "whisper/ggml-base.bin")];
    let bytes = wav_bytes(1, 16000, &[0]);
    match plan_transcription("base".to_string(), &bytes, &models, "/models") {
        TranscribeStep::Run { model_path, .. } => {
            assert_eq!(model_path, "/models/whisper/ggml-base.bin");
        }
        _ => panic!("expected a run"),
    }
}

#[test]
fn unc_style_directory_gets_a_separator() {
    let models = vec![model("base", "ggml-base.bin")];
    let bytes = wav_bytes(1, 16000, &[0]);
    match plan_transcription("base".to_string(), &bytes, &models, "\\\\server\\share") {
        TranscribeStep::Run { model_path, .. } => {
            let expected = std::path::Path::new("\\\\server\\share").join("ggml-base.bin");
            assert_eq!(model_path, expected.to_string_lossy());
            assert_eq!(model_path.len(), "\\\\server\\share".len() + 1 + "ggml-base.bin".len());
        }
        _ => panic!("expected a run"),
    }
}
