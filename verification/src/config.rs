//! User settings: their defaults, and the decisions taken from them about the
//! clipboard and the global shortcut.

use vstd::prelude::*;
use vstd::string::*;

verus! {

/// What happens with a finished transcript.
#[derive(PartialEq, Eq, Structural, Clone, Copy, Debug)]
pub enum PasteMode {
    /// Copy it to the clipboard.
    Copy,
    /// Paste it at the cursor, leaving the clipboard as it was.
    Paste,
    /// Paste it at the cursor and leave it on the clipboard.
    Both,
}

impl Default for PasteMode {
    fn default() -> (r: PasteMode)
        ensures
            r == PasteMode::Copy,
    {
        PasteMode::Copy
    }
}

/// The settings the user can change.
pub struct Config {
    pub shortcut: String,
    pub ai_model: String,
    pub transcription_model: String,
    pub ai_polish_prompt: String,
    pub launch_on_startup: bool,
    pub auto_polish: bool,
    pub paste_mode: PasteMode,
}

/// The prompt the app starts with for polishing transcripts.
pub open spec fn default_prompt() -> Seq<char> {
    "Clean and polish the following transcription. Correct spelling, grammar, punctuation, and formatting. Remove filler words and accidental repetitions. Fix obvious transcription mistakes using context, but do not change the meaning or add new information. Keep the tone natural and preserve speaker labels and timestamps if they are present. Output only the polished transcript. \n Transcript: \n {{transcription}}"@
}

/// The settings written on first start.
pub fn default_config() -> (r: Config)
    ensures
        r.shortcut@ == "Ctrl+Shift+Space"@,
        r.ai_model@ == "None"@,
        r.transcription_model@ == "None"@,
        r.ai_polish_prompt@ == default_prompt(),
        !r.launch_on_startup,
        !r.auto_polish,
        r.paste_mode == PasteMode::Copy,
{
    Config {
        shortcut: String::from_str("Ctrl+Shift+Space"),
        ai_model: String::from_str("None"),
        transcription_model: String::from_str("None"),
        ai_polish_prompt: String::from_str(
            "Clean and polish the following transcription. Correct spelling, grammar, punctuation, and formatting. Remove filler words and accidental repetitions. Fix obvious transcription mistakes using context, but do not change the meaning or add new information. Keep the tone natural and preserve speaker labels and timestamps if they are present. Output only the polished transcript. \n Transcript: \n {{transcription}}",
        ),
        launch_on_startup: false,
        auto_polish: false,
        paste_mode: PasteMode::default(),
    }
}

/// Where the app's files are, as shown in the settings window.
pub struct AppPaths {
    pub models_dir: String,
    pub db_path: String,
    pub config_path: String,
    pub whisper_bin: String,
}

/// How a text reaches the user: put on the clipboard and left there (`Copy`),
/// pasted at the cursor with the clipboard given back its former contents
/// afterwards (`Paste`), or pasted and left on the clipboard (`Both`).
pub struct ClipboardPlan {
    /// The text to deliver.
    pub text: String,
    /// Whether the text is pasted at the cursor.
    pub paste: bool,
    /// Whether the text stays on the clipboard afterwards.
    pub keep: bool,
}

/// Whether a mode pastes at the cursor.
pub open spec fn mode_pastes(mode: PasteMode) -> bool {
    mode != PasteMode::Copy
}

/// Whether a mode leaves the text on the clipboard.
pub open spec fn mode_keeps(mode: PasteMode) -> bool {
    mode != PasteMode::Paste
}

/// How a text is delivered under a paste mode.
pub fn apply_paste_mode(text: &str, mode: &PasteMode) -> (r: ClipboardPlan)
    ensures
        r.text@ == text@,
        r.paste == mode_pastes(*mode),
        r.keep == mode_keeps(*mode),
{
    match mode {
        PasteMode::Copy => ClipboardPlan { text: String::from_str(text), paste: false, keep: true },
        PasteMode::Paste => ClipboardPlan { text: String::from_str(text), paste: true, keep: false },
        PasteMode::Both => ClipboardPlan { text: String::from_str(text), paste: true, keep: true },
    }
}

/// The three output modes differ: only `Copy` does not paste, only `Paste`
/// does not leave the text on the clipboard, and `Both` does both.
pub proof fn lemma_output_modes_distinct()
    ensures
        !mode_pastes(PasteMode::Copy) && mode_keeps(PasteMode::Copy),
        mode_pastes(PasteMode::Paste) && !mode_keeps(PasteMode::Paste),
        mode_pastes(PasteMode::Both) && mode_keeps(PasteMode::Both),
{
}

/// The shortcut to register at start-up: none when the setting is `None`.
pub fn shortcut_to_register(config: &Config) -> (r: Option<String>)
    ensures
        config.shortcut@ == "None"@ ==> r is None,
        config.shortcut@ != "None"@ ==> (r matches Some(s) && s@ == config.shortcut@),
{
    let none = String::from_str("None");
    if config.shortcut == none {
        None
    } else {
        Some(config.shortcut.clone())
    }
}

/// The error for a shortcut text that does not parse.
pub fn invalid_shortcut_text(shortcut: &str) -> (r: String)
    ensures
        r@ == "Invalid shortcut: "@ + shortcut@,
{
    let mut r = String::from_str("Invalid shortcut: ");
    r.append(shortcut);
    r
}

/// The model used when no settings could be read.
pub open spec fn fallback_model() -> Seq<char> {
    "ggml-base.en"@
}

/// What a finished recording is processed with.
pub struct TranscriptionSettings {
    pub model_id: String,
    pub auto_polish: bool,
    pub ai_model: String,
    pub prompt: String,
    pub paste_mode: PasteMode,
}

/// The processing settings from the stored settings, if they could be read:
/// without them, the base English model, no polishing, and copying to the
/// clipboard.
pub fn transcription_settings(config: Option<&Config>) -> (r: TranscriptionSettings)
    ensures
        match config {
            Some(c) => {
                &&& r.model_id@ == c.transcription_model@
                &&& r.auto_polish == c.auto_polish
                &&& r.ai_model@ == c.ai_model@
                &&& r.prompt@ == c.ai_polish_prompt@
                &&& r.paste_mode == c.paste_mode
            },
            None => {
                &&& r.model_id@ == fallback_model()
                &&& !r.auto_polish
                &&& r.ai_model@.len() == 0
                &&& r.prompt@.len() == 0
                &&& r.paste_mode == PasteMode::Copy
            },
        },
{
    match config {
        Some(c) => TranscriptionSettings {
            model_id: c.transcription_model.clone(),
            auto_polish: c.auto_polish,
            ai_model: c.ai_model.clone(),
            prompt: c.ai_polish_prompt.clone(),
            paste_mode: c.paste_mode,
        },
        None => TranscriptionSettings {
            model_id: String::from_str("ggml-base.en"),
            auto_polish: false,
            ai_model: String::new(),
            prompt: String::new(),
            paste_mode: PasteMode::Copy,
        },
    }
}

} // verus!
