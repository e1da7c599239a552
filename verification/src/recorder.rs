//! Whether a recording is running: starting twice or stopping while idle is
//! refused with the error texts the commands report.

use vstd::prelude::*;
use vstd::string::*;

verus! {

/// The recorder: idle or recording.
pub struct RecorderState {
    active: bool,
}

impl View for RecorderState {
    type V = bool;

    /// Whether a recording is running.
    closed spec fn view(&self) -> bool {
        self.active
    }
}

impl RecorderState {
    /// An idle recorder.
    pub fn new() -> (r: RecorderState)
        ensures
            !r@,
    {
        RecorderState { active: false }
    }
}

/// The error for starting while a recording runs.
pub open spec fn already_recording_text() -> Seq<char> {
    "already recording"@
}

/// The error for stopping while idle.
pub open spec fn not_recording_text() -> Seq<char> {
    "not recording"@
}

/// Claims the recorder for a new recording. Refused while one runs; the
/// caller then opens the input device and reports the outcome to
/// `finish_start`.
pub fn start_recording(state: &mut RecorderState) -> (r: Result<(), String>)
    ensures
        r is Err <==> old(state)@,
        r matches Err(e) ==> e@ == already_recording_text(),
        final(state)@,
{
    if state.active {
        Err(String::from_str("already recording"))
    } else {
        state.active = true;
        Ok(())
    }
}

/// Settles a claimed start with the outcome of opening the input device:
/// kept when the device opened, given back (idle again) when it did not.
/// The outcome is what the start reports.
pub fn finish_start(state: &mut RecorderState, opened: Result<(), String>) -> (r: Result<(), String>)
    requires
        old(state)@,
    ensures
        r == opened,
        final(state)@ == (opened is Ok),
{
    if opened.is_err() {
        state.active = false;
    }
    opened
}

/// The error when the system has no default input device.
pub open spec fn no_input_device_text() -> Seq<char> {
    "no input device available"@
}

/// The outcome of looking for the default input device.
pub fn input_device_found(found: bool) -> (r: Result<(), String>)
    ensures
        found ==> r is Ok,
        !found ==> (r matches Err(e) && e@ == no_input_device_text()),
{
    if found {
        Ok(())
    } else {
        Err(String::from_str("no input device available"))
    }
}

/// Ends the running recording. Refused while idle.
pub fn stop_recording(state: &mut RecorderState) -> (r: Result<(), String>)
    ensures
        r is Err <==> !old(state)@,
        r matches Err(e) ==> e@ == not_recording_text(),
        !final(state)@,
{
    if state.active {
        state.active = false;
        Ok(())
    } else {
        Err(String::from_str("not recording"))
    }
}

/// Whether a recording is running.
pub fn is_recording(state: &RecorderState) -> (r: bool)
    ensures
        r == state@,
{
    state.active
}

/// The sample rate assumed when the input device reports none.
pub const FALLBACK_SAMPLE_RATE: u32 = 44100;

/// The input format a recording is taken in: the device's default sample
/// rate and channel count, or 44100 Hz and one channel where the device
/// reports none.
pub fn input_format(device_rate: Option<u32>, device_channels: Option<u16>) -> (r: (u32, u16))
    ensures
        r.0 == (match device_rate {
            Some(x) => x,
            None => FALLBACK_SAMPLE_RATE,
        }),
        r.1 == (match device_channels {
            Some(c) => c,
            None => 1u16,
        }),
{
    let rate = match device_rate {
        Some(x) => x,
        None => FALLBACK_SAMPLE_RATE,
    };
    let channels = match device_channels {
        Some(c) => c,
        None => 1u16,
    };
    (rate, channels)
}

} // verus!
