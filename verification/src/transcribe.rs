//! The transcription runtime's request handling: the health answer, the
//! model catalogue lookup, decoding of uploaded WAV audio, and the answers a
//! transcription request gets.

use vstd::prelude::*;
use vstd::string::*;
use crate::paths::{join_path, joined, relative_name, verbatim};

verus! {

/// The answer to a health probe.
pub struct HealthStatus {
    pub status: String,
}

/// The runtime is up.
pub fn health_status() -> (r: HealthStatus)
    ensures
        r.status@ == "ok"@,
{
    HealthStatus { status: String::from_str("ok") }
}

/// A Whisper model the runtime knows about.
pub struct Model {
    pub id: String,
    pub name: String,
    pub backend: String,
    pub size: usize,
    pub filename: String,
    pub download_url: String,
    pub languages: Vec<String>,
}

/// The ids of a catalogue, in order.
pub open spec fn model_ids(models: Seq<Model>) -> Seq<Seq<char>> {
    models.map_values(|m: Model| m.id@)
}

/// The index of the first model with the given id, if any.
pub fn find_model(models: &Vec<Model>, id: &str) -> (r: Option<usize>)
    ensures
        match r {
            Some(i) => i < models.len() && models@[i as int].id@ == id@ && forall|k: int|
                0 <= k < i ==> #[trigger] models@[k].id@ != id@,
            None => forall|k: int| 0 <= k < models.len() ==> #[trigger] models@[k].id@ != id@,
        },
{
    let wanted = String::from_str(id);
    let n = models.len();
    let mut i: usize = 0;
    while i < n
        invariant
            n == models.len(),
            wanted@ == id@,
            i <= n,
            forall|k: int| 0 <= k < i ==> #[trigger] models@[k].id@ != id@,
        decreases n - i,
    {
        if models[i].id == wanted {
            return Some(i);
        }
        i = i + 1;
    }
    None
}

/// The answer to a transcription request: the model asked for and either the
/// transcript or an error text starting with `error:`.
pub struct TranscribeResponse {
    pub model_id: String,
    pub text: String,
}

/// Decoded WAV audio: interleaved 16-bit samples.
pub struct WavAudio {
    pub channels: u16,
    pub sample_rate: u32,
    pub samples: Vec<i16>,
}

/// What hound makes of the bytes of a WAV file: its channel count, sample
/// rate and each interleaved sample read as 16-bit (`None` where the sample
/// cannot be read so), or the text of its error.
pub uninterp spec fn wav_decoding(bytes: Seq<u8>) -> Result<(u16, u32, Seq<Option<i16>>), Seq<char>>;

/// Reads WAV bytes with `hound::WavReader::new`, taking the `spec()` and all
/// `samples::<i16>()`. Trusted: the result is the named `wav_decoding` of the
/// bytes; a file that opens has at least one channel (`read_until_data`
/// refuses zero channels), and its sample count is a multiple of the channel
/// count (`WavReader::new` refuses other data chunks, and the samples
/// iterator yields exactly that many items).
#[verifier::external_body]
fn read_wav(bytes: &[u8]) -> (r: Result<(u16, u32, Vec<Option<i16>>), String>)
    ensures
        match r {
            Ok((c, s, v)) => wav_decoding(bytes@) == Ok::<(u16, u32, Seq<Option<i16>>), Seq<char>>((c, s, v@)) && c > 0
                && v@.len() % (c as nat) == 0,
            Err(e) => wav_decoding(bytes@) == Err::<(u16, u32, Seq<Option<i16>>), Seq<char>>(e@),
        },
{
    match hound::WavReader::new(std::io::Cursor::new(bytes)) {
        Ok(mut reader) => {
            let spec = reader.spec();
            let samples: Vec<Option<i16>> = reader.samples::<i16>().map(|s| s.ok()).collect();
            Ok((spec.channels, spec.sample_rate, samples))
        },
        Err(e) => Err(e.to_string()),
    }
}

/// Samples that could not be read count as silence.
pub open spec fn silence_unreadable(v: Seq<Option<i16>>) -> Seq<i16> {
    v.map_values(|s: Option<i16>| match s {
        Some(x) => x,
        None => 0i16,
    })
}

/// What decoding the uploaded bytes gives: the audio, or the error text.
pub open spec fn decoded(bytes: Seq<u8>) -> Result<(u16, u32, Seq<i16>), Seq<char>> {
    match wav_decoding(bytes) {
        Ok((c, s, v)) => Ok((c, s, silence_unreadable(v))),
        Err(e) => Err(e),
    }
}

/// Replaces unreadable samples by silence.
pub fn fill_unreadable(v: Vec<Option<i16>>) -> (r: Vec<i16>)
    ensures
        r@ == silence_unreadable(v@),
{
    let mut r: Vec<i16> = Vec::new();
    let n = v.len();
    let mut i: usize = 0;
    while i < n
        invariant
            n == v.len(),
            i <= n,
            r@ =~= silence_unreadable(v@.take(i as int)),
        decreases n - i,
    {
        let x = match v[i] {
            Some(x) => x,
            None => 0i16,
        };
        r.push(x);
        proof {
            assert(silence_unreadable(v@.take(i + 1)) =~= silence_unreadable(v@.take(i as int)).push(x));
        }
        i = i + 1;
    }
    proof {
        assert(v@.take(n as int) =~= v@);
    }
    r
}

/// Decodes uploaded WAV bytes into 16-bit samples.
pub fn decode_wav(bytes: &[u8]) -> (r: Result<WavAudio, String>)
    ensures
        match r {
            Ok(a) => decoded(bytes@) == Ok::<(u16, u32, Seq<i16>), Seq<char>>((a.channels, a.sample_rate, a.samples@)) && a.channels > 0
                && a.samples@.len() % (a.channels as nat) == 0,
            Err(e) => decoded(bytes@) == Err::<(u16, u32, Seq<i16>), Seq<char>>(e@),
        },
{
    match read_wav(bytes) {
        Ok((channels, sample_rate, raw)) => {
            let samples = fill_unreadable(raw);
            Ok(WavAudio { channels, sample_rate, samples })
        },
        Err(e) => Err(e),
    }
}

/// The sample rate the transcription backend expects.
pub const TARGET_SAMPLE_RATE: u32 = 16000;

impl WavAudio {
    /// Whether the channels are mixed down pairwise to mono before
    /// transcription: only two-channel audio is.
    pub fn mixes_down(&self) -> (r: bool)
        ensures
            r == (self.channels == 2),
    {
        self.channels == 2
    }

    /// The rate to resample from, when the audio is not at the target rate.
    pub fn resample_from(&self) -> (r: Option<u32>)
        ensures
            r == (if self.sample_rate == TARGET_SAMPLE_RATE {
                None
            } else {
                Some(self.sample_rate)
            }),
    {
        if self.sample_rate != TARGET_SAMPLE_RATE {
            Some(self.sample_rate)
        } else {
            None
        }
    }
}

/// Error text for a request without a model id or without audio.
pub open spec fn missing_input_text() -> Seq<char> {
    "error: missing model_id or file"@
}

/// Error text for an unknown model id.
pub open spec fn unknown_model_text() -> Seq<char> {
    "error: model not found"@
}

/// Error text for audio that does not decode.
pub open spec fn decode_failed_text(e: Seq<char>) -> Seq<char> {
    "error: audio decode failed: "@ + e
}

/// Error text for a failed transcription run.
pub open spec fn transcription_failed_text(e: Seq<char>) -> Seq<char> {
    "error: transcription failed: "@ + e
}

/// What the runtime does with a transcription request: answer at once, or
/// run the backend on the model file with the decoded audio.
pub enum TranscribeStep {
    Reply(TranscribeResponse),
    Run { model_id: String, model_path: String, audio: WavAudio },
}

/// Decides what a transcription request gets. A request needs a model id and
/// some audio; the model must be in the catalogue; the audio must decode.
/// Then the backend runs on the catalogue entry's file inside `models_dir`.
pub fn plan_transcription(
    model_id: String,
    audio: &[u8],
    models: &Vec<Model>,
    models_dir: &str,
) -> (r: TranscribeStep)
    ensures
        model_id@.len() == 0 || audio@.len() == 0 ==> r == TranscribeStep::Reply(
            TranscribeResponse { model_id, text: r->Reply_0.text },
        ) && r->Reply_0.text@ == missing_input_text(),
        model_id@.len() > 0 && audio@.len() > 0 ==> {
            match r {
                TranscribeStep::Reply(resp) => {
                    &&& resp.model_id == model_id
                    &&& (forall|k: int|
                        0 <= k < models.len() ==> #[trigger] models@[k].id@ != model_id@) ==> resp.text@
                        == unknown_model_text()
                    &&& (exists|k: int|
                        0 <= k < models.len() && #[trigger] models@[k].id@ == model_id@) ==> decoded(
                        audio@,
                    ) is Err && resp.text@ == decode_failed_text(decoded(audio@)->Err_0)
                },
                TranscribeStep::Run { model_id: id, model_path, audio: a } => {
                    &&& id == model_id
                    &&& decoded(audio@) == Ok::<(u16, u32, Seq<i16>), Seq<char>>(
                        (a.channels, a.sample_rate, a.samples@),
                    )
                    &&& exists|k: int|
                        0 <= k < models.len() && #[trigger] models@[k].id@ == model_id@ && (forall|
                            j: int,
                        | 0 <= j < k ==> #[trigger] models@[j].id@ != model_id@) && (relative_name(
                            models@[k].filename@,
                        ) && !verbatim(models_dir@) ==> joined(
                            models_dir@,
                            models@[k].filename@,
                            model_path@,
                        ))
                },
            }
        },
{
    if model_id.as_str().unicode_len() == 0 || audio.len() == 0 {
        return TranscribeStep::Reply(
            TranscribeResponse { model_id, text: String::from_str("error: missing model_id or file") },
        );
    }
    let found = find_model(models, model_id.as_str());
    let idx = match found {
        Some(i) => i,
        None => {
            return TranscribeStep::Reply(
                TranscribeResponse { model_id, text: String::from_str("error: model not found") },
            );
        },
    };
    let model_path = join_path(models_dir, models[idx].filename.as_str());
    match decode_wav(audio) {
        Ok(a) => TranscribeStep::Run { model_id, model_path, audio: a },
        Err(e) => {
            let mut text = String::from_str("error: audio decode failed: ");
            text.append(e.as_str());
            TranscribeStep::Reply(TranscribeResponse { model_id, text })
        },
    }
}

/// The answer once the backend has run: the transcript, or the error text.
pub fn finish_transcription(model_id: String, outcome: Result<String, String>) -> (r: TranscribeResponse)
    ensures
        r.model_id == model_id,
        match outcome {
            Ok(t) => r.text == t,
            Err(e) => r.text@ == transcription_failed_text(e@),
        },
{
    match outcome {
        Ok(text) => TranscribeResponse { model_id, text },
        Err(e) => {
            let mut text = String::from_str("error: transcription failed: ");
            text.append(e.as_str());
            TranscribeResponse { model_id, text }
        },
    }
}

} // verus!
