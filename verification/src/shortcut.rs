//! What a press of the global shortcut does, and the steps that follow a
//! finished recording: transcription, storing, clipboard, optional polishing
//! and the events the launcher window is told about.

use vstd::prelude::*;
use vstd::string::*;
use crate::config::{apply_paste_mode, mode_keeps, mode_pastes, ClipboardPlan, PasteMode, TranscriptionSettings};

verus! {

/// What a shortcut event leads to.
#[derive(PartialEq, Eq, Structural, Clone, Copy, Debug)]
pub enum ShortcutAction {
    /// Nothing: a release, or no launcher window.
    Ignore,
    /// Stop the running recording and transcribe it.
    StopAndTranscribe,
    /// Start recording, first showing and focusing the launcher if hidden.
    Start { show_window: bool },
}

/// What a shortcut event does. Only presses count, and only while the
/// launcher window exists; a press stops a running recording, otherwise it
/// starts one, showing the launcher first if it is hidden.
pub open spec fn shortcut_action(pressed: bool, has_window: bool, recording: bool, visible: bool) -> ShortcutAction {
    if !pressed || !has_window {
        ShortcutAction::Ignore
    } else if recording {
        ShortcutAction::StopAndTranscribe
    } else {
        ShortcutAction::Start { show_window: !visible }
    }
}

/// Decides what a shortcut event does.
pub fn on_shortcut_pressed(pressed: bool, has_window: bool, recording: bool, visible: bool) -> (r:
    ShortcutAction)
    ensures
        r == shortcut_action(pressed, has_window, recording, visible),
{
    if !pressed {
        return ShortcutAction::Ignore;
    }
    if !has_window {
        return ShortcutAction::Ignore;
    }
    if recording {
        return ShortcutAction::StopAndTranscribe;
    }
    ShortcutAction::Start { show_window: !visible }
}

/// The shortcut toggles recording: from idle, a press starts a recording
/// (showing the launcher if hidden); while recording, a press stops it and
/// hands it to transcription; releases do nothing.
pub proof fn lemma_shortcut_toggles(visible: bool)
    ensures
        shortcut_action(true, true, false, visible) == (ShortcutAction::Start { show_window: !visible }),
        shortcut_action(true, true, true, visible) == ShortcutAction::StopAndTranscribe,
        shortcut_action(false, true, true, visible) == ShortcutAction::Ignore,
        shortcut_action(false, true, false, visible) == ShortcutAction::Ignore,
{
}

/// Where the processing of a finished recording stands.
pub enum Stage {
    /// Waiting for the transcription runtime.
    Transcribing,
    /// Waiting for the transcript to be stored.
    Storing { text: String },
    /// Waiting for the language model's polished text.
    Polishing { id: i64, text: String },
    /// Finished.
    Done,
}

/// What the outside world reports back.
pub enum Event {
    /// The runtime answered: the transcript or an error.
    Transcribed(Result<String, String>),
    /// The history database stored the transcript under this row id, or
    /// failed.
    Stored(Result<i64, String>),
    /// The language model answered: the polished text or an error.
    Polished(Result<String, String>),
}

/// Work to be done by the caller.
pub enum Effect {
    /// Add a row to the history with these two columns.
    StoreTranscription { transcription: String, ai: String },
    /// Put a text on the clipboard.
    CopyToClipboard(String),
    /// Deliver a text as the output mode says.
    Deliver(ClipboardPlan),
    /// Ask the language model to polish a text.
    Polish { text: String, model: String, prompt: String },
    /// Save the polished text in the history row.
    UpdateAi { id: i64, ai: String },
    /// Tell the launcher a transcript is ready.
    EmitTranscriptionDone { id: i64, text: String },
    /// Tell the launcher the polished text is ready.
    EmitPolishDone(String),
    /// Tell the launcher transcription failed.
    EmitTranscriptionError(String),
    /// Delete the recording file.
    RemoveRecording,
}

/// The effects as a sequence of views, for stating contracts.
pub enum EffectView {
    StoreTranscription { transcription: Seq<char>, ai: Seq<char> },
    CopyToClipboard(Seq<char>),
    Deliver { text: Seq<char>, paste: bool, keep: bool },
    Polish { text: Seq<char>, model: Seq<char>, prompt: Seq<char> },
    UpdateAi { id: i64, ai: Seq<char> },
    EmitTranscriptionDone { id: i64, text: Seq<char> },
    EmitPolishDone(Seq<char>),
    EmitTranscriptionError(Seq<char>),
    RemoveRecording,
}

impl View for Effect {
    type V = EffectView;

    open spec fn view(&self) -> EffectView {
        match self {
            Effect::StoreTranscription { transcription, ai } => EffectView::StoreTranscription {
                transcription: transcription@,
                ai: ai@,
            },
            Effect::CopyToClipboard(t) => EffectView::CopyToClipboard(t@),
            Effect::Deliver(p) => EffectView::Deliver { text: p.text@, paste: p.paste, keep: p.keep },
            Effect::Polish { text, model, prompt } => EffectView::Polish {
                text: text@,
                model: model@,
                prompt: prompt@,
            },
            Effect::UpdateAi { id, ai } => EffectView::UpdateAi { id: *id, ai: ai@ },
            Effect::EmitTranscriptionDone { id, text } => EffectView::EmitTranscriptionDone {
                id: *id,
                text: text@,
            },
            Effect::EmitPolishDone(t) => EffectView::EmitPolishDone(t@),
            Effect::EmitTranscriptionError(e) => EffectView::EmitTranscriptionError(e@),
            Effect::RemoveRecording => EffectView::RemoveRecording,
        }
    }
}

/// The views of a list of effects.
pub open spec fn effect_views(v: Seq<Effect>) -> Seq<EffectView> {
    v.map_values(|e: Effect| e@)
}

/// Whether a stage is finished.
pub open spec fn is_done(s: Stage) -> bool {
    s is Done
}

/// The row id the history reports, or 0 when storing failed.
pub open spec fn row_id(r: Result<i64, String>) -> i64 {
    match r {
        Ok(id) => id,
        Err(_) => 0,
    }
}

/// Delivering `text` as the output mode says.
pub open spec fn delivery(text: Seq<char>, mode: PasteMode) -> EffectView {
    EffectView::Deliver { text: text, paste: mode_pastes(mode), keep: mode_keeps(mode) }
}

/// The effects right after the transcript is stored under row `id`: without
/// polishing, the transcript is delivered as the output mode says; with
/// polishing, it is put on the clipboard at once (unless the mode only
/// pastes) and the polish is requested.
pub open spec fn stored_effects(settings: TranscriptionSettings, text: Seq<char>, id: i64) -> Seq<EffectView> {
    if settings.auto_polish {
        if settings.paste_mode == PasteMode::Paste {
            seq![EffectView::Polish { text: text, model: settings.ai_model@, prompt: settings.prompt@ }]
        } else {
            seq![
                EffectView::CopyToClipboard(text),
                EffectView::Polish { text: text, model: settings.ai_model@, prompt: settings.prompt@ },
            ]
        }
    } else {
        seq![
            delivery(text, settings.paste_mode),
            EffectView::EmitTranscriptionDone { id: id, text: text },
            EffectView::RemoveRecording,
        ]
    }
}

/// One step of processing a finished recording: from the stage and what was
/// reported back, the next stage and the work to do. An event that does not
/// belong to the stage changes nothing and asks for nothing. The final text
/// (the polished one, or the transcript when polishing is off or fails) is
/// delivered as the output mode says. The recording file is removed exactly
/// when processing finishes, as the last effect.
pub fn step(settings: &TranscriptionSettings, stage: Stage, event: Event) -> (r: (Stage, Vec<Effect>))
    ensures
        is_done(stage) ==> is_done(r.0) && r.1@.len() == 0,
        !is_done(stage) && is_done(r.0) ==> r.1@.len() > 0 && r.1@.last()@ == EffectView::RemoveRecording,
        !is_done(r.0) ==> forall|k: int| 0 <= k < r.1@.len() ==> #[trigger] r.1@[k]@ != EffectView::RemoveRecording,
        match (stage, event) {
            (Stage::Transcribing, Event::Transcribed(Ok(text))) => {
                &&& r.0 matches Stage::Storing { text: t } && t@ == text@
                &&& effect_views(r.1@) == seq![
                    EffectView::StoreTranscription {
                        transcription: text@,
                        ai: settings.model_id@,
                    },
                ]
            },
            (Stage::Transcribing, Event::Transcribed(Err(e))) => {
                &&& r.0 is Done
                &&& effect_views(r.1@) == seq![
                    EffectView::EmitTranscriptionError(e@),
                    EffectView::RemoveRecording,
                ]
            },
            (Stage::Storing { text }, Event::Stored(stored)) => {
                &&& effect_views(r.1@) == stored_effects(*settings, text@, row_id(stored))
                &&& settings.auto_polish ==> (r.0 matches Stage::Polishing { id: i, text: t } && i
                    == row_id(stored) && t@ == text@)
                &&& !settings.auto_polish ==> r.0 is Done
            },
            (Stage::Polishing { id, text }, Event::Polished(Ok(p))) => {
                &&& r.0 is Done
                &&& effect_views(r.1@) == seq![
                    EffectView::UpdateAi { id: id, ai: p@ },
                    delivery(p@, settings.paste_mode),
                    EffectView::EmitPolishDone(p@),
                    EffectView::RemoveRecording,
                ]
            },
            (Stage::Polishing { id, text }, Event::Polished(Err(_))) => {
                &&& r.0 is Done
                &&& effect_views(r.1@) == seq![
                    delivery(text@, settings.paste_mode),
                    EffectView::EmitTranscriptionDone { id: id, text: text@ },
                    EffectView::RemoveRecording,
                ]
            },
            (s, _) => r.0 == s && r.1@.len() == 0,
        },
{
    let mut fx: Vec<Effect> = Vec::new();
    match stage {
        Stage::Transcribing => match event {
            Event::Transcribed(Ok(text)) => {
                fx.push(
                    Effect::StoreTranscription {
                        transcription: text.clone(),
                        ai: settings.model_id.clone(),
                    },
                );
                proof {
                    assert(effect_views(fx@) =~= seq![
                        EffectView::StoreTranscription {
                            transcription: text@,
                            ai: settings.model_id@,
                        },
                    ]);
                }
                (Stage::Storing { text }, fx)
            },
            Event::Transcribed(Err(e)) => {
                fx.push(Effect::EmitTranscriptionError(e));
                fx.push(Effect::RemoveRecording);
                proof {
                    assert(effect_views(fx@) =~= seq![
                        EffectView::EmitTranscriptionError(e@),
                        EffectView::RemoveRecording,
                    ]);
                }
                (Stage::Done, fx)
            },
            _ => (Stage::Transcribing, fx),
        },
        Stage::Storing { text } => match event {
            Event::Stored(stored) => {
                let id: i64 = match stored {
                    Ok(i) => i,
                    Err(_) => 0,
                };
                if settings.auto_polish {
                    let only_paste = match settings.paste_mode {
                        PasteMode::Paste => true,
                        _ => false,
                    };
                    if !only_paste {
                        fx.push(Effect::CopyToClipboard(text.clone()));
                    }
                    fx.push(
                        Effect::Polish {
                            text: text.clone(),
                            model: settings.ai_model.clone(),
                            prompt: settings.prompt.clone(),
                        },
                    );
                    proof {
                        assert(effect_views(fx@) =~= stored_effects(*settings, text@, id));
                    }
                    (Stage::Polishing { id, text }, fx)
                } else {
                    fx.push(Effect::Deliver(apply_paste_mode(text.as_str(), &settings.paste_mode)));
                    fx.push(Effect::EmitTranscriptionDone { id, text: text.clone() });
                    fx.push(Effect::RemoveRecording);
                    proof {
                        assert(effect_views(fx@) =~= stored_effects(*settings, text@, id));
                    }
                    (Stage::Done, fx)
                }
            },
            _ => (Stage::Storing { text }, fx),
        },
        Stage::Polishing { id, text } => match event {
            Event::Polished(Ok(p)) => {
                fx.push(Effect::UpdateAi { id, ai: p.clone() });
                fx.push(Effect::Deliver(apply_paste_mode(p.as_str(), &settings.paste_mode)));
                fx.push(Effect::EmitPolishDone(p.clone()));
                fx.push(Effect::RemoveRecording);
                proof {
                    assert(effect_views(fx@) =~= seq![
                        EffectView::UpdateAi { id: id, ai: p@ },
                        delivery(p@, settings.paste_mode),
                        EffectView::EmitPolishDone(p@),
                        EffectView::RemoveRecording,
                    ]);
                }
                (Stage::Done, fx)
            },
            Event::Polished(Err(_)) => {
                fx.push(Effect::Deliver(apply_paste_mode(text.as_str(), &settings.paste_mode)));
                fx.push(Effect::EmitTranscriptionDone { id, text: text.clone() });
                fx.push(Effect::RemoveRecording);
                proof {
                    assert(effect_views(fx@) =~= seq![
                        delivery(text@, settings.paste_mode),
                        EffectView::EmitTranscriptionDone { id: id, text: text@ },
                        EffectView::RemoveRecording,
                    ]);
                }
                (Stage::Done, fx)
            },
            _ => (Stage::Polishing { id, text }, fx),
        },
        Stage::Done => (Stage::Done, fx),
    }
}

/// Every transcription that succeeds is delivered once as the output mode
/// says: right after storing when polishing is off, otherwise after the
/// polish answer (the polished text, or the transcript if polishing fails).
pub proof fn lemma_delivered_per_output_mode(settings: TranscriptionSettings, text: Seq<char>, id: i64)
    ensures
        !settings.auto_polish ==> stored_effects(settings, text, id)[0] == delivery(text, settings.paste_mode),
        settings.paste_mode == PasteMode::Paste ==> forall|k: int|
            0 <= k < stored_effects(settings, text, id).len() ==> !(#[trigger] stored_effects(
                settings,
                text,
                id,
            )[k] is CopyToClipboard),
        delivery(text, settings.paste_mode) == (EffectView::Deliver {
            text: text,
            paste: settings.paste_mode != PasteMode::Copy,
            keep: settings.paste_mode != PasteMode::Paste,
        }),
{
}

/// The history row the transcript was stored under is the one every later
/// effect names: after `Stored(Ok(k))`, for every `k`, the launcher is told
/// about row `k` (without polishing), and polishing continues on row `k`
/// and saves the polished text there. Row 0 stands for a failed store.
pub proof fn lemma_row_id_carried(settings: TranscriptionSettings, text: Seq<char>, k: i64, e: String)
    ensures
        row_id(Ok(k)) == k,
        row_id(Err(e)) == 0,
        !settings.auto_polish ==> stored_effects(settings, text, row_id(Ok(k)))[1] == (
        EffectView::EmitTranscriptionDone { id: k, text: text }),
{
}

} // verus!
