//! The video-generation job: submission and the poll-until-done protocol.
//!
//! Submission posts one instance holding the prompt, with fixed generation
//! parameters, to a long-running endpoint and receives an operation name.
//! The shell then polls the operation's status at a fixed interval; every
//! status payload is handed to [`poll_step`], whose outcome tells the shell
//! to keep polling, to fail, or to stop with the video URI.  The protocol
//! rules — never stop early, never poll past a terminal payload, a reported
//! error wins over any response, and a terminal success without a sample is
//! a hard failure — are stated here and proved.

use vstd::prelude::*;

use crate::errors::MissingPart;
use crate::errors::PipelineError;

verus! {

/// The seconds the shell sleeps between two polls of the job status.
pub const POLL_INTERVAL_SECS: u64 = 6;

/// The fixed generation parameters sent with every submission, together
/// with the prompt they apply to.
pub struct SubmissionRequest {
    pub prompt: String,
    pub person_generation: String,
    pub aspect_ratio: String,
    pub sample_count: u32,
    pub duration_seconds: u32,
}

/// Builds the one submission of a run: the given prompt under the fixed
/// generation parameters.
pub fn build_submission(prompt: String) -> (r: SubmissionRequest)
    ensures
        r.prompt == prompt,
        r.person_generation@ == "allow_all"@,
        r.aspect_ratio@ == "16:9"@,
        r.sample_count == 1,
        r.duration_seconds == 5,
{
    SubmissionRequest {
        prompt,
        person_generation: "allow_all".to_owned(),
        aspect_ratio: "16:9".to_owned(),
        sample_count: 1,
        duration_seconds: 5,
    }
}

/// The endpoint a submission is posted to, keyed by the caller.
pub fn build_submit_url(api_key: &str) -> (r: String)
    ensures
        r@ == "https://generativelanguage.googleapis.com/v1beta/models/veo-2.0-generate-001:predictLongRunning?key="@
            + api_key@,
{
    let mut out = String::new();
    out.push_str("https://generativelanguage.googleapis.com/v1beta/models/veo-2.0-generate-001:predictLongRunning?key=");
    out.push_str(api_key);
    out
}

/// The status endpoint of a submitted operation, keyed by the caller.
pub fn build_status_url(operation_name: &str, api_key: &str) -> (r: String)
    ensures
        r@ == "https://generativelanguage.googleapis.com/v1beta/"@ + operation_name@ + "?key="@
            + api_key@,
{
    let mut out = String::new();
    out.push_str("https://generativelanguage.googleapis.com/v1beta/");
    out.push_str(operation_name);
    out.push_str("?key=");
    out.push_str(api_key);
    out
}

/// Accepts or refuses the immediate answer to a submission: a success
/// status yields the operation name to poll; any other status refuses the
/// whole run.
pub fn submission_outcome(http_success: bool, operation_name: String) -> (r: Result<
    String,
    PipelineError,
>)
    ensures
        match r {
            Ok(name) => http_success && name == operation_name,
            Err(e) => !http_success && e == PipelineError::Submission,
        },
{
    if http_success {
        Ok(operation_name)
    } else {
        Err(PipelineError::Submission)
    }
}

/// The terminal failure payload a job may report.
pub struct OperationFailure {
    pub code: i32,
    pub message: String,
}

/// One generated sample of a finished job.
pub struct Sample {
    pub video_uri: String,
}

/// The response object of a finished job; its sample list may be absent
/// altogether.
pub struct VideoResponse {
    pub samples: Option<Vec<Sample>>,
}

/// One status payload of the polled operation, as the status endpoint
/// reports it: every field may be absent.
pub struct StatusPayload {
    pub done: Option<bool>,
    pub error: Option<OperationFailure>,
    pub response: Option<VideoResponse>,
}

/// What one poll of the job status tells the shell to do next.
#[derive(Debug, PartialEq, Eq)]
pub enum PollOutcome {
    /// The payload is not terminal: sleep the fixed interval and poll again.
    NotDone,
    /// The payload is terminal and yields no video: stop with this failure.
    Failed(PipelineError),
    /// The payload is terminal and successful: stop with this video URI.
    Ready(String),
}

/// A payload is terminal exactly when it reports `done` as `true`; an
/// absent `done` counts as not done.
pub open spec fn is_terminal(s: StatusPayload) -> bool {
    s.done == Some(true)
}

/// The outcome every status payload maps to.  A non-terminal payload asks
/// for another poll.  On a terminal payload, a reported error wins over
/// whatever the response holds; without an error, the first generated
/// sample's URI is the result, and each way for that sample to be absent is
/// a distinct missing-result failure.
pub open spec fn poll_outcome_spec(s: StatusPayload) -> PollOutcome {
    if !is_terminal(s) {
        PollOutcome::NotDone
    } else if s.error is Some {
        PollOutcome::Failed(
            PipelineError::Operation { code: s.error->0.code, message: s.error->0.message },
        )
    } else if s.response is None {
        PollOutcome::Failed(PipelineError::MissingResult(MissingPart::Response))
    } else if s.response->0.samples is None {
        PollOutcome::Failed(PipelineError::MissingResult(MissingPart::SampleList))
    } else if s.response->0.samples->0.len() == 0 {
        PollOutcome::Failed(PipelineError::MissingResult(MissingPart::FirstSample))
    } else {
        PollOutcome::Ready(s.response->0.samples->0[0].video_uri)
    }
}

/// Decides what the shell does with one polled status payload.
pub fn poll_step(status: StatusPayload) -> (r: PollOutcome)
    ensures
        r == poll_outcome_spec(status),
{
    let done = match status.done {
        Some(d) => d,
        None => false,
    };
    if !done {
        return PollOutcome::NotDone;
    }
    if let Some(failure) = status.error {
        return PollOutcome::Failed(
            PipelineError::Operation { code: failure.code, message: failure.message },
        );
    }
    let response = match status.response {
        Some(r) => r,
        None => {
            return PollOutcome::Failed(PipelineError::MissingResult(MissingPart::Response));
        },
    };
    let mut samples = match response.samples {
        Some(v) => v,
        None => {
            return PollOutcome::Failed(PipelineError::MissingResult(MissingPart::SampleList));
        },
    };
    if samples.len() == 0 {
        return PollOutcome::Failed(PipelineError::MissingResult(MissingPart::FirstSample));
    }
    let first = samples.remove(0);
    PollOutcome::Ready(first.video_uri)
}

/// The poll loop stops exactly at the first terminal payload: a payload
/// asks for another poll if and only if it does not report `done = true`.
/// So the loop can neither return before the status reports done nor poll
/// again after it.
pub proof fn lemma_poll_stops_exactly_when_done(s: StatusPayload)
    ensures
        poll_outcome_spec(s) is NotDone <==> !is_terminal(s),
{
}

/// On a terminal payload that reports an error, the outcome is that error's
/// failure, whatever the response field holds: the response is never read.
pub proof fn lemma_error_wins_over_response(a: StatusPayload, b: StatusPayload)
    requires
        a.done == b.done,
        a.error == b.error,
        is_terminal(a),
        a.error is Some,
    ensures
        poll_outcome_spec(a) == poll_outcome_spec(b),
        poll_outcome_spec(a) == PollOutcome::Failed(
            (PipelineError::Operation { code: a.error->0.code, message: a.error->0.message }),
        ),
{
}

/// A terminal payload without an error and without a first sample — no
/// response, no sample list, or an empty one — fails as a missing result;
/// it never yields a URI, empty or otherwise.
pub proof fn lemma_missing_sample_is_failure(s: StatusPayload)
    requires
        is_terminal(s),
        s.error is None,
        s.response is None || s.response->0.samples is None || s.response->0.samples->0.len()
            == 0,
    ensures
        poll_outcome_spec(s) matches PollOutcome::Failed(e) && (e matches
        PipelineError::MissingResult(_)),
{
}

} // verus!
