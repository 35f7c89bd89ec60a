//! The batch pipeline: one recorded buffer is transcribed and, where asked
//! for, cleaned up.
//!
//! The pipeline has two stages. A failure of the first, transcription, fails
//! the whole call. A failure of the second, cleanup, never does: the result
//! then carries the transcript alone and says so in its mode.
//!
//! The caller sends the requests and reads a monotonic clock; it reports each
//! reply with the clock's reading in milliseconds.

use crate::config::{PlatformConfig, PlatformConfigView};
use crate::encoding::{base64_decoded, decode_audio};
use crate::http::{
    is_success, status_is_success, HttpReply, HttpReplyView, JsonField, JsonPost, JsonPostView,
    Upload, UploadView,
};
use crate::json::{json_members, lookup, member_at, parse_document, JsonMember, Member};
use crate::text::{decimal, decimal_text, joined, opt_text, same_text};
use vstd::prelude::*;
use vstd::string::*;

verus! {

/// The longest wait for the transcription service, in seconds.
pub const ASR_TIMEOUT_SECS: u64 = 30;

/// The longest wait for the cleanup service, in seconds.
pub const CLEANUP_TIMEOUT_SECS: u64 = 60;

/// The mode of a result that carries the transcript alone.
pub open spec fn asr_only() -> Seq<char> {
    "ASR_ONLY"@
}

/// The mode of a result that carries the transcript and its cleaned form.
pub open spec fn asr_plus_llm() -> Seq<char> {
    "ASR_PLUS_LLM"@
}

/// How long each stage took, in milliseconds.
#[derive(Debug, Clone, Copy, PartialEq, Eq, Structural)]
pub struct TranscriptionTimings {
    pub asr_ms: u64,
    /// Absent where cleanup was not asked for or failed.
    pub llm_ms: Option<u64>,
    pub total_ms: u64,
}

/// The result of a pipeline call.
#[derive(Debug)]
pub struct TranscriptionResponse {
    pub native_transcript: String,
    pub summary_transcript: Option<String>,
    pub timings: TranscriptionTimings,
    /// `ASR_ONLY` or `ASR_PLUS_LLM`.
    pub mode: String,
}

pub struct TranscriptionResponseView {
    pub native_transcript: Seq<char>,
    pub summary_transcript: Option<Seq<char>>,
    pub timings: TranscriptionTimings,
    pub mode: Seq<char>,
}

impl View for TranscriptionResponse {
    type V = TranscriptionResponseView;

    open spec fn view(&self) -> TranscriptionResponseView {
        TranscriptionResponseView {
            native_transcript: self.native_transcript@,
            summary_transcript: opt_text(self.summary_transcript),
            timings: self.timings,
            mode: self.mode@,
        }
    }
}

/// Why a call to one of the two services gave no text.
#[derive(Debug)]
pub enum StageError {
    /// The request could not be sent or the remote was not reached in time.
    Transport(String),
    /// The remote answered with a status that is no success.
    Status(u16),
    /// The body of the response is no JSON document, or could not be read.
    Decode,
    /// The document lacks the text.
    MissingText,
}

pub enum StageErrorView {
    Transport(Seq<char>),
    Status(u16),
    Decode,
    MissingText,
}

impl View for StageError {
    type V = StageErrorView;

    open spec fn view(&self) -> StageErrorView {
        match self {
            StageError::Transport(reason) => StageErrorView::Transport(reason@),
            StageError::Status(status) => StageErrorView::Status(*status),
            StageError::Decode => StageErrorView::Decode,
            StageError::MissingText => StageErrorView::MissingText,
        }
    }
}

impl StageErrorView {
    /// The error of the transcription stage as a line of text.
    pub open spec fn asr_message(self) -> Seq<char> {
        match self {
            StageErrorView::Transport(reason) => "ASR request failed: "@ + reason,
            StageErrorView::Status(status) => "ASR service returned error: "@ + decimal_text(
                status as nat,
            ),
            StageErrorView::Decode => "Failed to parse ASR response"@,
            StageErrorView::MissingText => "ASR response missing 'text' field"@,
        }
    }

    /// The error of the cleanup stage as a line of text.
    pub open spec fn cleanup_message(self) -> Seq<char> {
        match self {
            StageErrorView::Transport(reason) => "LLM request failed: "@ + reason,
            StageErrorView::Status(status) => "LLM service returned error: "@ + decimal_text(
                status as nat,
            ),
            StageErrorView::Decode => "Failed to parse LLM response"@,
            StageErrorView::MissingText => "LLM response missing 'cleaned_text' field"@,
        }
    }
}

impl StageError {
    /// The error of the transcription stage as a line of text.
    pub fn asr_message(&self) -> (res: String)
        ensures
            res@ == self@.asr_message(),
    {
        match self {
            StageError::Transport(reason) => joined("ASR request failed: ", reason.as_str()),
            StageError::Status(status) => joined(
                "ASR service returned error: ",
                decimal(*status).as_str(),
            ),
            StageError::Decode => String::from_str("Failed to parse ASR response"),
            StageError::MissingText => String::from_str("ASR response missing 'text' field"),
        }
    }

    /// The error of the cleanup stage as a line of text.
    pub fn cleanup_message(&self) -> (res: String)
        ensures
            res@ == self@.cleanup_message(),
    {
        match self {
            StageError::Transport(reason) => joined("LLM request failed: ", reason.as_str()),
            StageError::Status(status) => joined(
                "LLM service returned error: ",
                decimal(*status).as_str(),
            ),
            StageError::Decode => String::from_str("Failed to parse LLM response"),
            StageError::MissingText => String::from_str(
                "LLM response missing 'cleaned_text' field",
            ),
        }
    }
}

/// Why a pipeline call failed.
#[derive(Debug)]
pub enum PipelineError {
    /// The audio handed in is no base64 text.
    InvalidAudio,
    /// The transcription stage failed.
    Asr(StageError),
}

pub enum PipelineErrorView {
    InvalidAudio,
    Asr(StageErrorView),
}

impl View for PipelineError {
    type V = PipelineErrorView;

    open spec fn view(&self) -> PipelineErrorView {
        match self {
            PipelineError::InvalidAudio => PipelineErrorView::InvalidAudio,
            PipelineError::Asr(e) => PipelineErrorView::Asr(e@),
        }
    }
}

impl PipelineErrorView {
    pub open spec fn message(self) -> Seq<char> {
        match self {
            PipelineErrorView::InvalidAudio => "Failed to decode audio"@,
            PipelineErrorView::Asr(e) => e.asr_message(),
        }
    }
}

impl PipelineError {
    /// The error as a line of text.
    pub fn message(&self) -> (res: String)
        ensures
            res@ == self@.message(),
    {
        match self {
            PipelineError::InvalidAudio => String::from_str("Failed to decode audio"),
            PipelineError::Asr(e) => e.asr_message(),
        }
    }
}

/// The upload that asks for the transcription of an audio buffer: one file
/// part named `file`, sent to `/transcribe` under the base address, with the
/// shorter of the two bounds on the wait.
pub open spec fn asr_upload_view(config: PlatformConfigView, audio: Seq<u8>) -> UploadView {
    UploadView {
        url: config.base_url + "/transcribe"@,
        part_name: "file"@,
        file_name: "audio.webm"@,
        mime: "audio/webm"@,
        bytes: audio,
        timeout_secs: ASR_TIMEOUT_SECS,
    }
}

/// The request that asks for the cleanup of a transcript: `{text}` posted to
/// the processing endpoint, with the longer of the two bounds on the wait.
pub open spec fn cleanup_post_view(url: Seq<char>, transcript: Seq<char>) -> JsonPostView {
    JsonPostView {
        url,
        bearer: None,
        fields: seq![("text"@, transcript)],
        timeout_secs: Some(CLEANUP_TIMEOUT_SECS),
    }
}

/// Where the cleanup request goes.
pub open spec fn cleanup_url(config: PlatformConfigView) -> Seq<char> {
    config.base_url + config.process_endpoint
}

/// The transcript that the member `text` of the transcription service's
/// document holds.
pub open spec fn asr_text(text: Member) -> Result<Seq<char>, StageErrorView> {
    match text {
        Member::Text(t) => Ok(t),
        _ => Err(StageErrorView::MissingText),
    }
}

/// The cleaned text that the cleanup service's document holds: its member
/// `cleaned_text` where that is a string, or else its member `processedText`.
pub open spec fn cleaned_text(cleaned: Member, legacy: Member) -> Result<
    Seq<char>,
    StageErrorView,
> {
    match cleaned {
        Member::Text(t) => Ok(t),
        _ => match legacy {
            Member::Text(t) => Ok(t),
            _ => Err(StageErrorView::MissingText),
        },
    }
}

/// What a reply of the transcription service means: the document's `text`, or
/// the reason why there is none.
pub open spec fn asr_outcome(reply: HttpReplyView) -> Result<Seq<char>, StageErrorView> {
    match reply {
        HttpReplyView::Unreachable(reason) => Err(StageErrorView::Transport(reason)),
        HttpReplyView::Response { status, body } => if !status_is_success(status) {
            Err(StageErrorView::Status(status))
        } else {
            match body {
                None => Err(StageErrorView::Decode),
                Some(text) => match json_members(text) {
                    None => Err(StageErrorView::Decode),
                    Some(members) => asr_text(member_at(members, "text"@)),
                },
            }
        },
    }
}

/// What a reply of the cleanup service means: the document's cleaned text, or
/// the reason why there is none.
pub open spec fn cleanup_outcome(reply: HttpReplyView) -> Result<Seq<char>, StageErrorView> {
    match reply {
        HttpReplyView::Unreachable(reason) => Err(StageErrorView::Transport(reason)),
        HttpReplyView::Response { status, body } => if !status_is_success(status) {
            Err(StageErrorView::Status(status))
        } else {
            match body {
                None => Err(StageErrorView::Decode),
                Some(text) => match json_members(text) {
                    None => Err(StageErrorView::Decode),
                    Some(members) => cleaned_text(
                        member_at(members, "cleaned_text"@),
                        member_at(members, "processedText"@),
                    ),
                },
            }
        },
    }
}

/// The view of a stage's outcome.
pub open spec fn outcome_view(outcome: Result<String, StageError>) -> Result<
    Seq<char>,
    StageErrorView,
> {
    match outcome {
        Ok(text) => Ok(text@),
        Err(e) => Err(e@),
    }
}

/// The time from one reading of the clock to a later one; zero where the
/// second reading is not later.
pub open spec fn elapsed(from_ms: u64, to_ms: u64) -> u64 {
    if to_ms >= from_ms {
        (to_ms - from_ms) as u64
    } else {
        0
    }
}

/// The upload that asks for the transcription of an audio buffer.
pub fn asr_upload(config: &PlatformConfig, audio: Vec<u8>) -> (res: Upload)
    ensures
        res@ == asr_upload_view(config@, audio@),
{
    Upload {
        url: joined(config.base_url.as_str(), "/transcribe"),
        part_name: String::from_str("file"),
        file_name: String::from_str("audio.webm"),
        mime: String::from_str("audio/webm"),
        bytes: audio,
        timeout_secs: ASR_TIMEOUT_SECS,
    }
}

/// The request that asks for the cleanup of a transcript.
pub fn cleanup_post(url: &str, transcript: &str) -> (res: JsonPost)
    ensures
        res@ == cleanup_post_view(url@, transcript@),
{
    let mut fields: Vec<JsonField> = Vec::new();
    fields.push(
        JsonField { name: String::from_str("text"), value: String::from_str(transcript) },
    );
    assert(Seq::new(fields@.len(), |i: int| fields@[i]@) =~= seq![("text"@, transcript@)]);
    JsonPost {
        url: String::from_str(url),
        bearer: None,
        fields,
        timeout_secs: Some(CLEANUP_TIMEOUT_SECS),
    }
}

/// Reads the transcript from the member `text` of the transcription
/// service's document.
pub fn read_transcript(text: JsonMember) -> (res: Result<String, StageError>)
    ensures
        outcome_view(res) == asr_text(text@),
{
    match text {
        JsonMember::Text(t) => Ok(t),
        _ => Err(StageError::MissingText),
    }
}

/// Reads the cleaned text from the members `cleaned_text` and `processedText`
/// of the cleanup service's document.
pub fn read_cleaned(cleaned: JsonMember, legacy: JsonMember) -> (res: Result<String, StageError>)
    ensures
        outcome_view(res) == cleaned_text(cleaned@, legacy@),
{
    match cleaned {
        JsonMember::Text(t) => Ok(t),
        _ => match legacy {
            JsonMember::Text(t) => Ok(t),
            _ => Err(StageError::MissingText),
        },
    }
}

/// Reads the reply of the transcription service.
pub fn run_asr_service(reply: &HttpReply) -> (res: Result<String, StageError>)
    ensures
        outcome_view(res) == asr_outcome(reply@),
{
    match reply {
        HttpReply::Unreachable(reason) => Err(StageError::Transport(reason.clone())),
        HttpReply::Response { status, body } => {
            if !is_success(*status) {
                return Err(StageError::Status(*status));
            }
            let text = match body {
                Some(text) => text,
                None => {
                    return Err(StageError::Decode);
                },
            };
            match parse_document(text.as_str()) {
                Ok(doc) => read_transcript(lookup(&doc, "text")),
                Err(_) => Err(StageError::Decode),
            }
        },
    }
}

/// Reads the reply of the cleanup service.
pub fn run_llm_cleanup_service(reply: &HttpReply) -> (res: Result<String, StageError>)
    ensures
        outcome_view(res) == cleanup_outcome(reply@),
{
    match reply {
        HttpReply::Unreachable(reason) => Err(StageError::Transport(reason.clone())),
        HttpReply::Response { status, body } => {
            if !is_success(*status) {
                return Err(StageError::Status(*status));
            }
            let text = match body {
                Some(text) => text,
                None => {
                    return Err(StageError::Decode);
                },
            };
            match parse_document(text.as_str()) {
                Ok(doc) => {
                    let cleaned = lookup(&doc, "cleaned_text");
                    let legacy = lookup(&doc, "processedText");
                    read_cleaned(cleaned, legacy)
                },
                Err(_) => Err(StageError::Decode),
            }
        },
    }
}

/// Prepares the transcription of one audio chunk handed in as base64 text.
pub fn transcribe_audio_chunk(config: &PlatformConfig, audio_base64: &str) -> (res: Result<
    Upload,
    PipelineError,
>)
    ensures
        match res {
            Ok(upload) => base64_decoded(audio_base64@) is Some && upload@ == asr_upload_view(
                config@,
                base64_decoded(audio_base64@)->Some_0,
            ),
            Err(e) => base64_decoded(audio_base64@) is None && e@
                == PipelineErrorView::InvalidAudio,
        },
{
    match decode_audio(audio_base64) {
        Some(audio) => Ok(asr_upload(config, audio)),
        None => Err(PipelineError::InvalidAudio),
    }
}

/// A pipeline call that waits for the transcription service.
pub struct TranscriptionStageView {
    /// Whether cleanup was asked for.
    pub wants_cleanup: bool,
    /// The clock's reading when the call began.
    pub started_ms: u64,
    /// Where a cleanup request would go.
    pub cleanup_url: Seq<char>,
}

/// A pipeline call that waits for the cleanup service.
pub struct CleanupStageView {
    pub native_transcript: Seq<char>,
    /// The clock's reading when the call began.
    pub started_ms: u64,
    /// How long the transcription stage took.
    pub asr_ms: u64,
    /// The clock's reading when the cleanup stage began.
    pub cleanup_started_ms: u64,
}

/// How a pipeline call goes on after the transcription stage.
pub enum AfterTranscriptionView {
    /// The call is over, with this result.
    Finished(TranscriptionResponseView),
    /// The cleanup stage follows, with this request.
    Cleanup(CleanupStageView, JsonPostView),
}

/// The start of a pipeline call on an audio buffer: the call waits for the
/// transcription service, to which the buffer is uploaded. Cleanup is asked
/// for by the mode `ASR_PLUS_LLM` and by no other.
pub open spec fn pipeline_start(
    config: PlatformConfigView,
    audio: Seq<u8>,
    mode: Seq<char>,
    now_ms: u64,
) -> (TranscriptionStageView, UploadView) {
    (
        TranscriptionStageView {
            wants_cleanup: mode == asr_plus_llm(),
            started_ms: now_ms,
            cleanup_url: cleanup_url(config),
        },
        asr_upload_view(config, audio),
    )
}

/// The step after the transcription stage has ended at `now_ms` with
/// `outcome`. A failed transcription fails the call, and no cleanup is asked
/// for. A transcript ends the call where no cleanup was wanted, and else
/// leads to the cleanup stage.
pub open spec fn after_transcription(
    stage: TranscriptionStageView,
    outcome: Result<Seq<char>, StageErrorView>,
    now_ms: u64,
) -> Result<AfterTranscriptionView, PipelineErrorView> {
    match outcome {
        Err(e) => Err(PipelineErrorView::Asr(e)),
        Ok(text) => {
            let asr_ms = elapsed(stage.started_ms, now_ms);
            if stage.wants_cleanup {
                Ok(
                    AfterTranscriptionView::Cleanup(
                        CleanupStageView {
                            native_transcript: text,
                            started_ms: stage.started_ms,
                            asr_ms,
                            cleanup_started_ms: now_ms,
                        },
                        cleanup_post_view(stage.cleanup_url, text),
                    ),
                )
            } else {
                Ok(
                    AfterTranscriptionView::Finished(
                        TranscriptionResponseView {
                            native_transcript: text,
                            summary_transcript: None,
                            timings: TranscriptionTimings {
                                asr_ms,
                                llm_ms: None,
                                total_ms: asr_ms,
                            },
                            mode: asr_only(),
                        },
                    ),
                )
            }
        },
    }
}

/// The result once the cleanup stage has ended at `now_ms` with `outcome`. A
/// cleaned text becomes the summary. Any failure is dropped: the result then
/// has no summary and no cleanup time, and its mode is `ASR_ONLY`.
pub open spec fn after_cleanup(
    stage: CleanupStageView,
    outcome: Result<Seq<char>, StageErrorView>,
    now_ms: u64,
) -> TranscriptionResponseView {
    match outcome {
        Ok(summary) => TranscriptionResponseView {
            native_transcript: stage.native_transcript,
            summary_transcript: Some(summary),
            timings: TranscriptionTimings {
                asr_ms: stage.asr_ms,
                llm_ms: Some(elapsed(stage.cleanup_started_ms, now_ms)),
                total_ms: elapsed(stage.started_ms, now_ms),
            },
            mode: asr_plus_llm(),
        },
        Err(_) => TranscriptionResponseView {
            native_transcript: stage.native_transcript,
            summary_transcript: None,
            timings: TranscriptionTimings {
                asr_ms: stage.asr_ms,
                llm_ms: None,
                total_ms: elapsed(stage.started_ms, now_ms),
            },
            mode: asr_only(),
        },
    }
}

/// The result of a whole pipeline call on an audio buffer, given how the two
/// stages end and what the clock reads at the start and at the end of each.
/// The second outcome and the last reading count only where the cleanup stage
/// is reached.
pub open spec fn pipeline_result(
    config: PlatformConfigView,
    audio: Seq<u8>,
    mode: Seq<char>,
    started_ms: u64,
    transcription: Result<Seq<char>, StageErrorView>,
    transcribed_ms: u64,
    cleanup: Result<Seq<char>, StageErrorView>,
    cleaned_ms: u64,
) -> Result<TranscriptionResponseView, PipelineErrorView> {
    let stage = pipeline_start(config, audio, mode, started_ms).0;
    match after_transcription(stage, transcription, transcribed_ms) {
        Err(e) => Err(e),
        Ok(AfterTranscriptionView::Finished(response)) => Ok(response),
        Ok(AfterTranscriptionView::Cleanup(next, _)) => Ok(after_cleanup(next, cleanup, cleaned_ms)),
    }
}

/// Whether a pipeline call sends the cleanup request.
pub open spec fn cleanup_is_called(
    config: PlatformConfigView,
    audio: Seq<u8>,
    mode: Seq<char>,
    started_ms: u64,
    transcription: Result<Seq<char>, StageErrorView>,
    transcribed_ms: u64,
) -> bool {
    let stage = pipeline_start(config, audio, mode, started_ms).0;
    after_transcription(stage, transcription, transcribed_ms) matches Ok(
        AfterTranscriptionView::Cleanup(_, _),
    )
}

/// A pipeline call that waits for the transcription service.
#[derive(Debug)]
pub struct TranscriptionStage {
    wants_cleanup: bool,
    started_ms: u64,
    cleanup_url: String,
}

impl View for TranscriptionStage {
    type V = TranscriptionStageView;

    closed spec fn view(&self) -> TranscriptionStageView {
        TranscriptionStageView {
            wants_cleanup: self.wants_cleanup,
            started_ms: self.started_ms,
            cleanup_url: self.cleanup_url@,
        }
    }
}

/// A pipeline call that waits for the cleanup service.
#[derive(Debug)]
pub struct CleanupStage {
    native_transcript: String,
    started_ms: u64,
    asr_ms: u64,
    cleanup_started_ms: u64,
}

impl View for CleanupStage {
    type V = CleanupStageView;

    closed spec fn view(&self) -> CleanupStageView {
        CleanupStageView {
            native_transcript: self.native_transcript@,
            started_ms: self.started_ms,
            asr_ms: self.asr_ms,
            cleanup_started_ms: self.cleanup_started_ms,
        }
    }
}

/// How a pipeline call goes on after the transcription stage.
#[derive(Debug)]
pub enum AfterTranscription {
    /// The call is over, with this result.
    Finished(TranscriptionResponse),
    /// The cleanup stage follows: send this request and report its reply.
    Cleanup(CleanupStage, JsonPost),
}

impl View for AfterTranscription {
    type V = AfterTranscriptionView;

    open spec fn view(&self) -> AfterTranscriptionView {
        match self {
            AfterTranscription::Finished(response) => AfterTranscriptionView::Finished(response@),
            AfterTranscription::Cleanup(stage, post) => AfterTranscriptionView::Cleanup(
                stage@,
                post@,
            ),
        }
    }
}

/// The view of what follows the transcription stage, or of the call's error.
pub open spec fn step_view(step: Result<AfterTranscription, PipelineError>) -> Result<
    AfterTranscriptionView,
    PipelineErrorView,
> {
    match step {
        Ok(next) => Ok(next@),
        Err(e) => Err(e@),
    }
}

fn elapsed_ms(from_ms: u64, to_ms: u64) -> (res: u64)
    ensures
        res == elapsed(from_ms, to_ms),
{
    to_ms.saturating_sub(from_ms)
}

/// Begins a pipeline call on an audio buffer at the clock's reading `now_ms`,
/// and returns the upload for the transcription service.
pub fn begin(config: &PlatformConfig, audio: Vec<u8>, mode: &str, now_ms: u64) -> (res: (
    TranscriptionStage,
    Upload,
))
    ensures
        (res.0@, res.1@) == pipeline_start(config@, audio@, mode@, now_ms),
{
    let stage = TranscriptionStage {
        wants_cleanup: same_text(mode, "ASR_PLUS_LLM"),
        started_ms: now_ms,
        cleanup_url: joined(config.base_url.as_str(), config.process_endpoint.as_str()),
    };
    (stage, asr_upload(config, audio))
}

/// Begins a pipeline call on audio handed in as base64 text: decodes the
/// audio and begins the call on the bytes. Text that is no base64 fails the
/// call.
pub fn process_transcription(
    config: &PlatformConfig,
    audio_base64: &str,
    mode: &str,
    now_ms: u64,
) -> (res: Result<(TranscriptionStage, Upload), PipelineError>)
    ensures
        match res {
            Ok((stage, upload)) => base64_decoded(audio_base64@) is Some && (stage@, upload@)
                == pipeline_start(config@, base64_decoded(audio_base64@)->Some_0, mode@, now_ms),
            Err(e) => base64_decoded(audio_base64@) is None && e@
                == PipelineErrorView::InvalidAudio,
        },
{
    match decode_audio(audio_base64) {
        Some(audio) => Ok(begin(config, audio, mode, now_ms)),
        None => Err(PipelineError::InvalidAudio),
    }
}

impl TranscriptionStage {
    /// Ends the transcription stage at the clock's reading `now_ms` with the
    /// stage's outcome.
    pub fn proceed(self, outcome: Result<String, StageError>, now_ms: u64) -> (res: Result<
        AfterTranscription,
        PipelineError,
    >)
        ensures
            step_view(res) == after_transcription(self@, outcome_view(outcome), now_ms),
    {
        let text = match outcome {
            Ok(text) => text,
            Err(e) => {
                return Err(PipelineError::Asr(e));
            },
        };
        let asr_ms = elapsed_ms(self.started_ms, now_ms);
        if self.wants_cleanup {
            let post = cleanup_post(self.cleanup_url.as_str(), text.as_str());
            Ok(
                AfterTranscription::Cleanup(
                    CleanupStage {
                        native_transcript: text,
                        started_ms: self.started_ms,
                        asr_ms,
                        cleanup_started_ms: now_ms,
                    },
                    post,
                ),
            )
        } else {
            Ok(
                AfterTranscription::Finished(
                    TranscriptionResponse {
                        native_transcript: text,
                        summary_transcript: None,
                        timings: TranscriptionTimings { asr_ms, llm_ms: None, total_ms: asr_ms },
                        mode: String::from_str("ASR_ONLY"),
                    },
                ),
            )
        }
    }

    /// Takes the reply of the transcription service, which arrived at the
    /// clock's reading `now_ms`.
    pub fn transcribed(self, reply: &HttpReply, now_ms: u64) -> (res: Result<
        AfterTranscription,
        PipelineError,
    >)
        ensures
            step_view(res) == after_transcription(self@, asr_outcome(reply@), now_ms),
    {
        self.proceed(run_asr_service(reply), now_ms)
    }
}

impl CleanupStage {
    /// Ends the cleanup stage at the clock's reading `now_ms` with the stage's
    /// outcome, and with it the call. There is no error to return.
    pub fn finish(self, outcome: Result<String, StageError>, now_ms: u64) -> (res:
        TranscriptionResponse)
        ensures
            res@ == after_cleanup(self@, outcome_view(outcome), now_ms),
    {
        let total_ms = elapsed_ms(self.started_ms, now_ms);
        match outcome {
            Ok(summary) => TranscriptionResponse {
                native_transcript: self.native_transcript,
                summary_transcript: Some(summary),
                timings: TranscriptionTimings {
                    asr_ms: self.asr_ms,
                    llm_ms: Some(elapsed_ms(self.cleanup_started_ms, now_ms)),
                    total_ms,
                },
                mode: String::from_str("ASR_PLUS_LLM"),
            },
            Err(_) => TranscriptionResponse {
                native_transcript: self.native_transcript,
                summary_transcript: None,
                timings: TranscriptionTimings { asr_ms: self.asr_ms, llm_ms: None, total_ms },
                mode: String::from_str("ASR_ONLY"),
            },
        }
    }

    /// Takes the reply of the cleanup service, which arrived at the clock's
    /// reading `now_ms`, and ends the call.
    pub fn cleaned(self, reply: &HttpReply, now_ms: u64) -> (res: TranscriptionResponse)
        ensures
            res@ == after_cleanup(self@, cleanup_outcome(reply@), now_ms),
    {
        self.finish(run_llm_cleanup_service(reply), now_ms)
    }
}

/// Whatever makes the cleanup stage fail, a call whose transcription
/// succeeded still ends in a result: it carries the transcript, no summary
/// and no cleanup time, and its mode is `ASR_ONLY`.
pub proof fn lemma_cleanup_failure_degrades(
    config: PlatformConfigView,
    audio: Seq<u8>,
    mode: Seq<char>,
    started_ms: u64,
    transcript: Seq<char>,
    transcribed_ms: u64,
    failure: StageErrorView,
    cleaned_ms: u64,
)
    ensures
        pipeline_result(
            config,
            audio,
            mode,
            started_ms,
            Ok(transcript),
            transcribed_ms,
            Err(failure),
            cleaned_ms,
        ) matches Ok(response) && response.native_transcript == transcript && response.mode
            == asr_only() && response.summary_transcript is None && response.timings.llm_ms
            is None,
{
}

/// Where the transcription stage fails, the call returns that failure as its
/// error, and the cleanup request is never sent.
pub proof fn lemma_transcription_failure_is_fatal(
    config: PlatformConfigView,
    audio: Seq<u8>,
    mode: Seq<char>,
    started_ms: u64,
    failure: StageErrorView,
    transcribed_ms: u64,
    cleanup: Result<Seq<char>, StageErrorView>,
    cleaned_ms: u64,
)
    ensures
        pipeline_result(
            config,
            audio,
            mode,
            started_ms,
            Err(failure),
            transcribed_ms,
            cleanup,
            cleaned_ms,
        ) == Err::<TranscriptionResponseView, PipelineErrorView>(PipelineErrorView::Asr(failure)),
        !cleanup_is_called(config, audio, mode, started_ms, Err(failure), transcribed_ms),
{
}

/// Two calls in mode `ASR_ONLY` on the same audio, whose transcription stages
/// end alike, end alike: both fail with the same error, or both return the
/// same transcript, no summary and the mode `ASR_ONLY`. Only the timings may
/// differ.
pub proof fn lemma_asr_only_repeats(
    config: PlatformConfigView,
    audio: Seq<u8>,
    transcription: Result<Seq<char>, StageErrorView>,
    first_started_ms: u64,
    first_transcribed_ms: u64,
    first_cleanup: Result<Seq<char>, StageErrorView>,
    first_cleaned_ms: u64,
    second_started_ms: u64,
    second_transcribed_ms: u64,
    second_cleanup: Result<Seq<char>, StageErrorView>,
    second_cleaned_ms: u64,
)
    ensures
        ({
            let first = pipeline_result(
                config,
                audio,
                asr_only(),
                first_started_ms,
                transcription,
                first_transcribed_ms,
                first_cleanup,
                first_cleaned_ms,
            );
            let second = pipeline_result(
                config,
                audio,
                asr_only(),
                second_started_ms,
                transcription,
                second_transcribed_ms,
                second_cleanup,
                second_cleaned_ms,
            );
            match first {
                Ok(a) => second matches Ok(b) && a.native_transcript == b.native_transcript
                    && a.mode == b.mode && a.mode == asr_only() && a.summary_transcript
                    == b.summary_transcript,
                Err(e) => second == Err::<TranscriptionResponseView, PipelineErrorView>(e),
            }
        }),
{
    reveal_strlit("ASR_ONLY");
    reveal_strlit("ASR_PLUS_LLM");
    assert(asr_only() != asr_plus_llm()) by {
        assert(asr_only().len() == 8);
        assert(asr_plus_llm().len() == 12);
    }
}

/// With a clock that does not run backwards, the total time of a result is
/// the time from the start of the call to its end, and where the cleanup time
/// is present, the two stage times add up to the total.
pub proof fn lemma_timings_add_up(
    config: PlatformConfigView,
    audio: Seq<u8>,
    mode: Seq<char>,
    started_ms: u64,
    transcript: Seq<char>,
    transcribed_ms: u64,
    cleanup: Result<Seq<char>, StageErrorView>,
    cleaned_ms: u64,
)
    requires
        started_ms <= transcribed_ms <= cleaned_ms,
    ensures
        pipeline_result(
            config,
            audio,
            mode,
            started_ms,
            Ok(transcript),
            transcribed_ms,
            cleanup,
            cleaned_ms,
        ) matches Ok(response) && ({
            let timings = response.timings;
            &&& timings.asr_ms == transcribed_ms - started_ms
            &&& timings.total_ms == if mode == asr_plus_llm() {
                cleaned_ms - started_ms
            } else {
                transcribed_ms - started_ms
            }
            &&& timings.llm_ms matches Some(llm_ms) ==> timings.asr_ms + llm_ms
                == timings.total_ms
        }),
{
}

} // verus!
