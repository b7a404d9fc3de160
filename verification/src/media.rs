//! What the browser media pipeline is driven with: the WebCodecs encoder
//! and decoder configurations, the kind of each encoded chunk, the way a
//! codec handle from JavaScript is called, and the steps of the trim
//! export with the points where it gives up.

use vstd::prelude::*;
use vstd::string::*;

verus! {

/// Frame rate the encoder is configured for.
pub const ENCODER_FRAMERATE: u32 = 30;

/// Configuration handed to a WebCodecs `VideoEncoder`.
#[derive(Clone, Debug, PartialEq, Eq)]
pub struct EncoderConfig {
    pub codec: String,
    pub width: u32,
    pub height: u32,
    /// Bits per second.
    pub bitrate: u64,
    pub framerate: u32,
    pub latency_mode: String,
}

/// Configuration handed to a WebCodecs `VideoDecoder`.
#[derive(Clone, Debug, PartialEq, Eq)]
pub struct DecoderConfig {
    pub codec: String,
    pub coded_width: u32,
    pub coded_height: u32,
    pub hardware_acceleration: String,
}

/// The encoder configuration for a frame size and a bitrate in kbit/s:
/// H.264 Baseline (`avc1.42001E`) at 30 frames per second, tuned for
/// quality.
pub fn encoder_config(width: u32, height: u32, bitrate_kbps: u32) -> (c: EncoderConfig)
    ensures
        c.codec@ == "avc1.42001E"@,
        c.width == width,
        c.height == height,
        c.bitrate == bitrate_kbps as nat * 1000,
        c.framerate == 30,
        c.latency_mode@ == "quality"@,
{
    let bitrate: u64 = (bitrate_kbps as u64) * 1000;
    EncoderConfig {
        codec: String::from_str("avc1.42001E"),
        width,
        height,
        bitrate,
        framerate: ENCODER_FRAMERATE,
        latency_mode: String::from_str("quality"),
    }
}

/// The decoder configuration for a codec and a coded frame size, asking
/// for hardware decoding where the browser has it.
pub fn decoder_config(codec: &str, width: u32, height: u32) -> (c: DecoderConfig)
    ensures
        c.codec@ == codec@,
        c.coded_width == width,
        c.coded_height == height,
        c.hardware_acceleration@ == "prefer-hardware"@,
{
    DecoderConfig {
        codec: String::from_str(codec),
        coded_width: width,
        coded_height: height,
        hardware_acceleration: String::from_str("prefer-hardware"),
    }
}

/// The `type` of an encoded chunk: `key` for a keyframe, `delta` otherwise.
pub fn chunk_type(is_keyframe: bool) -> (t: String)
    ensures
        t@ == (if is_keyframe { "key"@ } else { "delta"@ }),
{
    if is_keyframe {
        String::from_str("key")
    } else {
        String::from_str("delta")
    }
}

/// How an operation on a codec handle from JavaScript is carried out.
#[derive(Clone, Copy, Debug, PartialEq, Eq, Structural)]
pub enum CallPath {
    /// There is no handle (it is `null` or `undefined`): nothing is done.
    Skip,
    /// The handle is a typed WebCodecs object: its method is called.
    Typed,
    /// The handle is some other object: its method is looked up by name.
    Dynamic,
}

/// Chooses how to operate on a codec handle.
pub fn call_path(handle_present: bool, is_typed: bool) -> (p: CallPath)
    ensures
        !handle_present ==> p == CallPath::Skip,
        handle_present && is_typed ==> p == CallPath::Typed,
        handle_present && !is_typed ==> p == CallPath::Dynamic,
{
    if !handle_present {
        CallPath::Skip
    } else if is_typed {
        CallPath::Typed
    } else {
        CallPath::Dynamic
    }
}

/// How a codec object is constructed from the global constructor.
#[derive(Clone, Copy, Debug, PartialEq, Eq, Structural)]
pub enum ConstructPath {
    /// The browser has no such constructor: a warning, and `null` for the
    /// codec.
    Unsupported,
    /// The constructor is a function: the typed binding constructs it once.
    Typed,
    /// The global is some value that is not a function: nothing is
    /// constructed and the call fails, with that value as its error.
    NotAFunction,
}

/// Chooses how to construct a codec object.
pub fn construct_path(ctor_present: bool, ctor_is_function: bool) -> (p: ConstructPath)
    ensures
        !ctor_present ==> p == ConstructPath::Unsupported,
        ctor_present && ctor_is_function ==> p == ConstructPath::Typed,
        ctor_present && !ctor_is_function ==> p == ConstructPath::NotAFunction,
{
    if !ctor_present {
        ConstructPath::Unsupported
    } else if ctor_is_function {
        ConstructPath::Typed
    } else {
        ConstructPath::NotAFunction
    }
}

/// The steps of a trim export, in the order they run.
#[derive(Clone, Copy, Debug, PartialEq, Eq, Structural)]
pub enum ExportStep {
    /// Load the file into a video element and wait for its metadata.
    LoadMetadata,
    /// Seek to the start of the range and start playback.
    StartPlayback,
    /// Let playback settle.
    Settle,
    /// Capture the element's media stream.
    CaptureStream,
    /// Create a `MediaRecorder` on the stream.
    CreateRecorder,
    /// Report progress 0.
    ReportStart,
    /// Record for the length of the range.
    Record,
    /// Stop the recorder and wait for it.
    StopRecorder,
    /// Assemble the recording and offer it for download.
    Download,
    /// Report progress 1.
    ReportDone,
    /// Nothing left to do.
    Finished,
}

/// Why a trim export gives up (besides errors the browser raises).
#[derive(Clone, Copy, Debug, PartialEq, Eq, Structural)]
pub enum ExportError {
    /// The range does not end after it starts.
    InvalidTrimRange,
    /// The video element cannot capture a stream.
    CaptureStreamUnsupported,
    /// The browser has no `MediaRecorder`.
    MediaRecorderUnavailable,
}

/// The step after `s` when it succeeded.
pub open spec fn step_after(s: ExportStep) -> ExportStep {
    match s {
        ExportStep::LoadMetadata => ExportStep::StartPlayback,
        ExportStep::StartPlayback => ExportStep::Settle,
        ExportStep::Settle => ExportStep::CaptureStream,
        ExportStep::CaptureStream => ExportStep::CreateRecorder,
        ExportStep::CreateRecorder => ExportStep::ReportStart,
        ExportStep::ReportStart => ExportStep::Record,
        ExportStep::Record => ExportStep::StopRecorder,
        ExportStep::StopRecorder => ExportStep::Download,
        ExportStep::Download => ExportStep::ReportDone,
        ExportStep::ReportDone => ExportStep::Finished,
        ExportStep::Finished => ExportStep::Finished,
    }
}

/// The first step of an export of a range, or why it does not start.
pub fn begin_export(range_ends_after_start: bool) -> (r: Result<ExportStep, ExportError>)
    ensures
        range_ends_after_start ==> r == Ok::<ExportStep, ExportError>(ExportStep::LoadMetadata),
        !range_ends_after_start ==> r == Err::<ExportStep, ExportError>(ExportError::InvalidTrimRange),
{
    if range_ends_after_start {
        Ok(ExportStep::LoadMetadata)
    } else {
        Err(ExportError::InvalidTrimRange)
    }
}

/// The step that follows a performed step. `available` tells, after the
/// capture and recorder steps, whether the browser offered the feature
/// (a stream that is not `null`/`undefined`, a `MediaRecorder`
/// constructor); it is ignored after the other steps.
pub fn next_export_step(done: ExportStep, available: bool) -> (r: Result<ExportStep, ExportError>)
    ensures
        done == ExportStep::CaptureStream && !available ==> r == Err::<ExportStep, ExportError>(
            ExportError::CaptureStreamUnsupported,
        ),
        done == ExportStep::CreateRecorder && !available ==> r == Err::<ExportStep, ExportError>(
            ExportError::MediaRecorderUnavailable,
        ),
        !((done == ExportStep::CaptureStream || done == ExportStep::CreateRecorder) && !available) ==> r
            == Ok::<ExportStep, ExportError>(step_after(done)),
{
    match done {
        ExportStep::LoadMetadata => Ok(ExportStep::StartPlayback),
        ExportStep::StartPlayback => Ok(ExportStep::Settle),
        ExportStep::Settle => Ok(ExportStep::CaptureStream),
        ExportStep::CaptureStream => {
            if available {
                Ok(ExportStep::CreateRecorder)
            } else {
                Err(ExportError::CaptureStreamUnsupported)
            }
        },
        ExportStep::CreateRecorder => {
            if available {
                Ok(ExportStep::ReportStart)
            } else {
                Err(ExportError::MediaRecorderUnavailable)
            }
        },
        ExportStep::ReportStart => Ok(ExportStep::Record),
        ExportStep::Record => Ok(ExportStep::StopRecorder),
        ExportStep::StopRecorder => Ok(ExportStep::Download),
        ExportStep::Download => Ok(ExportStep::ReportDone),
        ExportStep::ReportDone => Ok(ExportStep::Finished),
        ExportStep::Finished => Ok(ExportStep::Finished),
    }
}

/// The message an export failure is reported with.
pub fn export_error_message(e: ExportError) -> (m: String)
    ensures
        e == ExportError::InvalidTrimRange ==> m@ == "Invalid trim range"@,
        e == ExportError::CaptureStreamUnsupported ==> m@ == "captureStream not supported"@,
        e == ExportError::MediaRecorderUnavailable ==> m@ == "MediaRecorder not available"@,
{
    match e {
        ExportError::InvalidTrimRange => String::from_str("Invalid trim range"),
        ExportError::CaptureStreamUnsupported => String::from_str("captureStream not supported"),
        ExportError::MediaRecorderUnavailable => String::from_str("MediaRecorder not available"),
    }
}

/// The step reached after `n` successful steps from `s`.
pub open spec fn steps_after(s: ExportStep, n: nat) -> ExportStep
    decreases n,
{
    if n == 0 {
        s
    } else {
        steps_after(step_after(s), (n - 1) as nat)
    }
}

/// An export whose steps all succeed runs through every step once, in
/// order, and has nothing left to do after the tenth.
pub proof fn law_export_runs_to_completion()
    ensures
        steps_after(ExportStep::LoadMetadata, 10) == ExportStep::Finished,
        forall|n: nat| n < 10 ==> steps_after(ExportStep::LoadMetadata, n) != ExportStep::Finished,
        forall|n: nat| n >= 10 ==> steps_after(ExportStep::LoadMetadata, n) == ExportStep::Finished,
{
    reveal_with_fuel(steps_after, 11);
    assert forall|n: nat| n >= 10 implies steps_after(ExportStep::LoadMetadata, n) == ExportStep::Finished by {
        lemma_finished_stays(n);
        lemma_steps_split(ExportStep::LoadMetadata, 10, (n - 10) as nat);
    }
}

proof fn lemma_finished_stays(n: nat)
    ensures
        forall|k: nat| k <= n ==> steps_after(ExportStep::Finished, k) == ExportStep::Finished,
    decreases n,
{
    if n > 0 {
        lemma_finished_stays((n - 1) as nat);
        assert(steps_after(ExportStep::Finished, n) == steps_after(ExportStep::Finished, (n - 1) as nat));
    }
}

proof fn lemma_steps_split(s: ExportStep, a: nat, b: nat)
    ensures
        steps_after(s, a + b) == steps_after(steps_after(s, a), b),
    decreases a,
{
    if a > 0 {
        lemma_steps_split(step_after(s), (a - 1) as nat, b);
        assert((a + b - 1) as nat == (a - 1) as nat + b);
    }
}

} // verus!
