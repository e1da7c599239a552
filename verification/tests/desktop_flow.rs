use loon::config::{
    apply_paste_mode, default_config, invalid_shortcut_text, shortcut_to_register,
    transcription_settings, PasteMode,
};
use loon::launcher::{
    choose_whisper_bin, first_existing, menu_action, settings_whisper_bin, settings_whisper_dirs,
    startup_whisper_dirs, MenuAction,
};
use loon::paths::{
    app_data_dir, config_path, db_path, initialize, models_dir, new_recording_path,
    recording_file_name, AppDataDir,
};
use loon::proxy::{endpoint_url, ollama_not_running_text, runtime_unavailable_text, transcript_from_response, unexpected_response_text, Endpoint};
use loon::recorder::{finish_start, input_device_found, input_format, is_recording, start_recording, stop_recording, RecorderState};
use loon::shortcut::{on_shortcut_pressed, step, Effect, Event, ShortcutAction, Stage};

fn j(a: &str, b: &str) -> String {
    std::path::Path::new(a).join(b).to_string_lossy().into_owned()
}

#[test]
fn default_settings() {
    let c = default_config();
    assert_eq!(c.shortcut, "Ctrl+Shift+Space");
    assert_eq!(c.ai_model, "None");
    assert_eq!(c.transcription_model, "None");
    assert!(c.ai_polish_prompt.ends_with("{{transcription}}"));
    assert!(c.ai_polish_prompt.starts_with("Clean and polish the following transcription."));
    assert!(!c.launch_on_startup);
    assert!(!c.auto_polish);
    assert_eq!(c.paste_mode, PasteMode::Copy);
    assert_eq!(PasteMode::default(), PasteMode::Copy);
}

#[test]
fn paste_modes() {
    let p = apply_paste_mode("t", &PasteMode::Copy);
    assert_eq!(p.text, "t");
    assert!(!p.paste);
    assert!(p.keep);
    let p = apply_paste_mode("t", &PasteMode::Paste);
    assert!(p.paste);
    assert!(!p.keep);
    let p = apply_paste_mode("t", &PasteMode::Both);
    assert!(p.paste);
    assert!(p.keep);
}

#[test]
fn shortcut_setting() {
    let mut c = default_config();
    assert_eq!(shortcut_to_register(&c), Some("Ctrl+Shift+Space".to_string()));
    c.shortcut = "None".to_string();
    assert_eq!(shortcut_to_register(&c), None);
    assert_eq!(invalid_shortcut_text("Ctrl+?"), "Invalid shortcut: Ctrl+?");
}

#[test]
fn settings_fallback() {
    let s = transcription_settings(None);
    assert_eq!(s.model_id, "ggml-base.en");
    assert!(!s.auto_polish);
    assert_eq!(s.ai_model, "");
    let mut c = default_config();
    c.transcription_model = "ggml-small".to_string();
    c.auto_polish = true;
    let s = transcription_settings(Some(&c));
    assert_eq!(s.model_id, "ggml-small");
    assert!(s.auto_polish);
}

#[test]
fn shortcut_toggles_recording() {
    assert_eq!(on_shortcut_pressed(false, true, false, true), ShortcutAction::Ignore);
    assert_eq!(on_shortcut_pressed(true, false, true, true), ShortcutAction::Ignore);
    assert_eq!(on_shortcut_pressed(true, true, true, false), ShortcutAction::StopAndTranscribe);
    assert_eq!(on_shortcut_pressed(true, true, false, false), ShortcutAction::Start { show_window: true });
    assert_eq!(on_shortcut_pressed(true, true, false, true), ShortcutAction::Start { show_window: false });
}

fn names(fx: &[Effect]) -> Vec<String> {
    fx.iter()
        .map(|e| match e {
            Effect::StoreTranscription { transcription, ai } => format!("store {transcription} {ai}"),
            Effect::CopyToClipboard(t) => format!("copy {t}"),
            Effect::Deliver(p) => format!("deliver {} paste={} keep={}", p.text, p.paste, p.keep),
            Effect::Polish { text, model, prompt } => format!("polish {text} {model} {prompt}"),
            Effect::UpdateAi { id, ai } => format!("update {id} {ai}"),
            Effect::EmitTranscriptionDone { id, text } => format!("done {id} {text}"),
            Effect::EmitPolishDone(t) => format!("polished {t}"),
            Effect::EmitTranscriptionError(e) => format!("error {e}"),
            Effect::RemoveRecording => "remove".to_string(),
        })
        .collect()
}

#[test]
fn pipeline_without_polish() {
    let s = transcription_settings(None);
    let (stage, fx) = step(&s, Stage::Transcribing, Event::Transcribed(Ok("hello".to_string())));
    assert_eq!(names(&fx), vec!["store hello ggml-base.en"]);
    let (stage, fx) = step(&s, stage, Event::Stored(Err("db".to_string())));
    assert_eq!(names(&fx), vec!["deliver hello paste=false keep=true", "done 0 hello", "remove"]);
    assert!(matches!(stage, Stage::Done));
}

#[test]
fn pipeline_with_polish() {
    let mut c = default_config();
    c.auto_polish = true;
    c.ai_model = "llama".to_string();
    c.ai_polish_prompt = "P".to_string();
    let s = transcription_settings(Some(&c));
    let (stage, _) = step(&s, Stage::Transcribing, Event::Transcribed(Ok("hi".to_string())));
    let (stage, fx) = step(&s, stage, Event::Stored(Ok(7)));
    assert_eq!(names(&fx), vec!["copy hi", "polish hi llama P"]);
    let (stage2, fx) = step(&s, stage, Event::Polished(Ok("Hi.".to_string())));
    assert_eq!(names(&fx), vec!["update 7 Hi.", "deliver Hi. paste=false keep=true", "polished Hi.", "remove"]);
    assert!(matches!(stage2, Stage::Done));
    let (_, fx) = step(&s, Stage::Polishing { id: 7, text: "hi".to_string() }, Event::Polished(Err("x".to_string())));
    assert_eq!(names(&fx), vec!["deliver hi paste=false keep=true", "done 7 hi", "remove"]);
}

#[test]
fn pipeline_follows_output_mode() {
    let mut c = default_config();
    c.paste_mode = PasteMode::Paste;
    let s = transcription_settings(Some(&c));
    let (stage, fx) = step(&s, Stage::Storing { text: "hi".to_string() }, Event::Stored(Ok(3)));
    assert_eq!(names(&fx), vec!["deliver hi paste=true keep=false", "done 3 hi", "remove"]);
    assert!(matches!(stage, Stage::Done));
    c.paste_mode = PasteMode::Both;
    c.auto_polish = true;
    let s = transcription_settings(Some(&c));
    let (stage, fx) = step(&s, Stage::Storing { text: "hi".to_string() }, Event::Stored(Ok(3)));
    assert_eq!(names(&fx), vec!["copy hi", "polish hi None Clean and polish the following transcription. Correct spelling, grammar, punctuation, and formatting. Remove filler words and accidental repetitions. Fix obvious transcription mistakes using context, but do not change the meaning or add new information. Keep the tone natural and preserve speaker labels and timestamps if they are present. Output only the polished transcript. \n Transcript: \n {{transcription}}"]);
    let (_, fx) = step(&s, stage, Event::Polished(Ok("Hi.".to_string())));
    assert_eq!(names(&fx), vec!["update 3 Hi.", "deliver Hi. paste=true keep=true", "polished Hi.", "remove"]);
    c.paste_mode = PasteMode::Paste;
    let s = transcription_settings(Some(&c));
    let (_, fx) = step(&s, Stage::Storing { text: "hi".to_string() }, Event::Stored(Ok(3)));
    assert_eq!(fx.len(), 1);
    assert_eq!(transcription_settings(None).paste_mode, PasteMode::Copy);
}

#[test]
fn pipeline_failure_and_stray_events() {
    let s = transcription_settings(None);
    let (stage, fx) = step(&s, Stage::Transcribing, Event::Transcribed(Err("down".to_string())));
    assert_eq!(names(&fx), vec!["error down", "remove"]);
    assert!(matches!(stage, Stage::Done));
    let (stage, fx) = step(&s, Stage::Done, Event::Stored(Ok(1)));
    assert!(fx.is_empty());
    assert!(matches!(stage, Stage::Done));
    let (stage, fx) = step(&s, Stage::Transcribing, Event::Polished(Ok("p".to_string())));
    assert!(fx.is_empty());
    assert!(matches!(stage, Stage::Transcribing));
}

#[test]
fn recorder_states() {
    let mut r = RecorderState::new();
    assert!(!is_recording(&r));
    assert_eq!(stop_recording(&mut r), Err("not recording".to_string()));
    assert_eq!(start_recording(&mut r), Ok(()));
    assert!(is_recording(&r));
    assert_eq!(start_recording(&mut r), Err("already recording".to_string()));
    assert_eq!(stop_recording(&mut r), Ok(()));
    assert!(!is_recording(&r));
    assert_eq!(start_recording(&mut r), Ok(()));
    let none = input_device_found(false);
    assert_eq!(none, Err("no input device available".to_string()));
    assert_eq!(finish_start(&mut r, none), Err("no input device available".to_string()));
    assert!(!is_recording(&r));
    assert_eq!(start_recording(&mut r), Ok(()));
    assert_eq!(finish_start(&mut r, input_device_found(true)), Ok(()));
    assert!(is_recording(&r));
    assert_eq!(input_format(None, None), (44100, 1));
    assert_eq!(input_format(Some(48000), Some(2)), (48000, 2));
}

#[test]
fn data_paths() {
    let mut d = AppDataDir::new();
    initialize(&mut d, "/data/loon".to_string());
    initialize(&mut d, "/elsewhere".to_string());
    assert_eq!(app_data_dir(&d), "/data/loon");
    assert_eq!(db_path(&d), j("/data/loon", "data.sqlite"));
    assert_eq!(config_path(&d), j("/data/loon", "config.json"));
    assert_eq!(models_dir(&d), j("/data/loon", "models"));
    assert_eq!(config_path(&d), "/data/loon/config.json");
}

#[test]
fn recording_names() {
    assert_eq!(recording_file_name(1725029869), "loon_recording_1725029869.wav");
    assert_eq!(recording_file_name(0), "loon_recording_0.wav");
    assert_eq!(new_recording_path("/rec", 42), j("/rec", "42.wav"));
}

#[test]
fn whisper_search() {
    let dirs = startup_whisper_dirs("/app", "/res", "/cwd");
    assert_eq!(dirs.len(), 7);
    assert_eq!(dirs[0], j(&j("/app", "_up_"), "whisper"));
    assert_eq!(dirs[2], "/app");
    assert_eq!(dirs[6], j(&j("/cwd", ".."), "whisper"));
    let found = vec![false, false, true, true, false, false, false];
    assert_eq!(first_existing(&found), Some(2));
    assert_eq!(choose_whisper_bin(&dirs, &found, "/app"), j("/app", "whisper-cli.exe"));
    let none = vec![false; 7];
    assert_eq!(choose_whisper_bin(&dirs, &none, "/app"), j(&j("/app", "whisper"), "whisper-cli.exe"));
    let sdirs = settings_whisper_dirs("/app", "/cwd");
    assert_eq!(sdirs.len(), 4);
    assert_eq!(settings_whisper_bin(&sdirs, &vec![false; 4]), "");
    assert_eq!(settings_whisper_bin(&sdirs, &vec![false, true, false, false]), j(&j("/app", "whisper"), "whisper-cli.exe"));
}

#[test]
fn tray_menu() {
    assert_eq!(menu_action("quit"), MenuAction::Quit);
    assert_eq!(menu_action("setting"), MenuAction::OpenSettings);
    assert_eq!(menu_action("other"), MenuAction::Unknown);
}

#[test]
fn endpoints_and_errors() {
    assert_eq!(endpoint_url(&Endpoint::AvailableModels), "http://127.0.0.1:15000/v1/models/available");
    assert_eq!(endpoint_url(&Endpoint::DownloadedModels), "http://127.0.0.1:15000/v1/models/downloaded");
    assert_eq!(endpoint_url(&Endpoint::DownloadModel), "http://127.0.0.1:15000/v1/models/download");
    assert_eq!(endpoint_url(&Endpoint::DeleteModel("tiny".to_string())), "http://127.0.0.1:15000/v1/models/tiny");
    assert_eq!(endpoint_url(&Endpoint::Transcribe), "http://127.0.0.1:15000/v1/transcribe");
    assert_eq!(endpoint_url(&Endpoint::OllamaTags), "http://127.0.0.1:11434/api/tags");
    assert_eq!(endpoint_url(&Endpoint::OllamaGenerate), "http://127.0.0.1:11434/api/generate");
    assert_eq!(runtime_unavailable_text("refused"), "runtime server unavailable: refused");
    assert_eq!(ollama_not_running_text("refused"), "ollama not running: refused");
    assert_eq!(unexpected_response_text("{}"), "unexpected response: {}");
    assert_eq!(transcript_from_response(Some("hi".to_string()), "{}"), Ok("hi".to_string()));
    assert_eq!(transcript_from_response(None, "{\"x\":1}"), Err("unexpected response: {\"x\":1}".to_string()));
}
