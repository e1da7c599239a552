//! The whisper.cpp command-line backend: what it is run with, and how its
//! outcome becomes a transcript or an error.

use vstd::prelude::*;
use vstd::string::*;
use crate::text::{trim, trim_spec};

verus! {

/// A whisper.cpp installation and the model file it transcribes with.
pub struct WhisperCppBackend {
    model_path: String,
    binary_path: String,
}

impl WhisperCppBackend {
    /// The backend for a model file and a `whisper-cli` binary.
    pub fn new(model_path: &str, binary_path: &str) -> (r: WhisperCppBackend)
        ensures
            r.model_path_view() == model_path@,
            r.binary_path_view() == binary_path@,
    {
        WhisperCppBackend {
            model_path: String::from_str(model_path),
            binary_path: String::from_str(binary_path),
        }
    }

    /// The model file.
    pub closed spec fn model_path_view(&self) -> Seq<char> {
        self.model_path@
    }

    /// The binary.
    pub closed spec fn binary_path_view(&self) -> Seq<char> {
        self.binary_path@
    }

    /// The binary to run.
    pub fn binary_path(&self) -> (r: &str)
        ensures
            r@ == self.binary_path_view(),
    {
        self.binary_path.as_str()
    }

    /// The model file.
    pub fn model_path(&self) -> (r: &str)
        ensures
            r@ == self.model_path_view(),
    {
        self.model_path.as_str()
    }

    /// The arguments `whisper-cli` runs with: the model, the input WAV file,
    /// text output, and the output path prefix.
    pub fn command_args(&self, wav_path: &str, output_prefix: &str) -> (r: Vec<String>)
        ensures
            views_of(r@) == seq![
                "-m"@,
                self.model_path_view(),
                "-f"@,
                wav_path@,
                "-otxt"@,
                "-of"@,
                output_prefix@,
            ],
    {
        let mut r: Vec<String> = Vec::new();
        r.push(String::from_str("-m"));
        r.push(self.model_path.clone());
        r.push(String::from_str("-f"));
        r.push(String::from_str(wav_path));
        r.push(String::from_str("-otxt"));
        r.push(String::from_str("-of"));
        r.push(String::from_str(output_prefix));
        proof {
            assert(views_of(r@) =~= seq![
                "-m"@,
                self.model_path_view(),
                "-f"@,
                wav_path@,
                "-otxt"@,
                "-of"@,
                output_prefix@,
            ]);
        }
        r
    }
}

/// The views of a sequence of strings.
pub open spec fn views_of(v: Seq<String>) -> Seq<Seq<char>> {
    v.map_values(|x: String| x@)
}

/// The error of a `whisper-cli` run that exited unsuccessfully.
pub open spec fn whisper_failed_text(stderr: Seq<char>) -> Seq<char> {
    "whisper-cli failed: "@ + stderr
}

/// Judges a finished `whisper-cli` run by its exit status: a failure carries
/// the text the tool wrote to its error stream.
pub fn check_exit(success: bool, stderr: &str) -> (r: Result<(), String>)
    ensures
        success ==> r is Ok,
        !success ==> (r matches Err(e) && e@ == whisper_failed_text(stderr@)),
{
    if success {
        Ok(())
    } else {
        let mut e = String::from_str("whisper-cli failed: ");
        e.append(stderr);
        Err(e)
    }
}

/// The transcript in the text file `whisper-cli` wrote: its contents, trimmed.
pub fn transcript_from_output(contents: &str) -> (r: String)
    ensures
        r@ == trim_spec(contents@),
{
    trim(contents)
}

} // verus!
