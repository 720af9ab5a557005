//! Failure taxonomy of the pipeline.
//!
//! Every stage reports its failure as a [`PipelineError`]; the shell around
//! the crate prints a diagnostic and exits non-zero.  The only failure the
//! pipeline recovers from locally is prompt optimization, where the caller
//! falls back to the original prompt.

use vstd::prelude::*;

verus! {

/// The pipeline stage whose subprocess invocation failed.
#[derive(Clone, Copy, Debug, PartialEq, Eq, Structural)]
pub enum Stage {
    /// The prompt-to-frames sub-tool.
    ViewGeneration,
    /// Building the viewer binary because it was absent.
    ViewerBuild,
    /// Launching the viewer on the finished asset.
    Viewer,
}

/// Which part of a terminal success payload was missing, so that no video
/// URI could be extracted from it.
#[derive(Clone, Copy, Debug, PartialEq, Eq, Structural)]
pub enum MissingPart {
    /// The payload carried no response object at all.
    Response,
    /// The response carried no list of generated samples.
    SampleList,
    /// The list of generated samples was empty.
    FirstSample,
}

/// A failure of one pipeline stage.
#[derive(Debug, PartialEq, Eq)]
pub enum PipelineError {
    /// No prompt was supplied to the run.
    Setup,
    /// The initial video-generation submission got a non-success HTTP status.
    Submission,
    /// The remote video job reported a terminal failure payload.
    Operation { code: i32, message: String },
    /// The prompt optimizer returned a well-formed response with no text.
    EmptyResult,
    /// The video job finished successfully but carried no usable sample.
    MissingResult(MissingPart),
    /// No frame images were found to upload.
    NoInput,
    /// A requested timestamp maps to a frame index beyond the decoded stream.
    OutOfRange { timestamp_ms: u64, frame_index: u64 },
    /// The video decoder failed on a frame the stream does contain.
    Decode,
    /// The reconstruction service answered with a non-success status; the
    /// raw error body is kept for diagnostics.
    Remote(Vec<u8>),
    /// A network transfer failed in transit, before any response status
    /// could be read.
    Network,
    /// A local filesystem read or write failed.
    Io,
    /// A subprocess of the named stage could not be launched or exited
    /// non-zero.
    Subprocess(Stage),
}

impl PipelineError {
    /// The fixed human-readable description of each failure class.  Payload
    /// detail (remote message, error body, frame numbers) travels in the
    /// variant's fields, not in this text.
    pub open spec fn describe_spec(self) -> Seq<char> {
        match self {
            PipelineError::Setup => "no prompt was provided"@,
            PipelineError::Submission => "video generation submission was rejected"@,
            PipelineError::Operation { code, message } => "video generation failed: "@ + message@,
            PipelineError::EmptyResult => "prompt optimization returned no text"@,
            PipelineError::MissingResult(MissingPart::Response) => "operation is done, but no response field was found"@,
            PipelineError::MissingResult(MissingPart::SampleList) => "response did not contain any generated video samples"@,
            PipelineError::MissingResult(MissingPart::FirstSample) => "response contained no video samples"@,
            PipelineError::NoInput => "no images were found to upload"@,
            PipelineError::OutOfRange { timestamp_ms, frame_index } => "a requested timestamp lies outside the video"@,
            PipelineError::Decode => "the video decoder failed"@,
            PipelineError::Remote(body) => "the reconstruction server returned an error"@,
            PipelineError::Network => "a network transfer failed"@,
            PipelineError::Io => "a local file could not be read or written"@,
            PipelineError::Subprocess(Stage::ViewGeneration) => "the view-generation tool exited with non-zero status"@,
            PipelineError::Subprocess(Stage::ViewerBuild) => "the viewer binary failed to build"@,
            PipelineError::Subprocess(Stage::Viewer) => "the viewer exited with non-zero status"@,
        }
    }

    /// Renders the description promised by [`Self::describe_spec`].
    pub fn describe(&self) -> (r: String)
        ensures
            r@ == self.describe_spec(),
    {
        match self {
            PipelineError::Setup => "no prompt was provided".to_owned(),
            PipelineError::Submission => "video generation submission was rejected".to_owned(),
            PipelineError::Operation { code: _, message } => {
                let mut out = "video generation failed: ".to_owned();
                out.push_str(message.as_str());
                out
            },
            PipelineError::EmptyResult => "prompt optimization returned no text".to_owned(),
            PipelineError::MissingResult(MissingPart::Response) => "operation is done, but no response field was found".to_owned(),
            PipelineError::MissingResult(MissingPart::SampleList) => "response did not contain any generated video samples".to_owned(),
            PipelineError::MissingResult(MissingPart::FirstSample) => "response contained no video samples".to_owned(),
            PipelineError::NoInput => "no images were found to upload".to_owned(),
            PipelineError::OutOfRange { .. } => "a requested timestamp lies outside the video".to_owned(),
            PipelineError::Decode => "the video decoder failed".to_owned(),
            PipelineError::Remote(_) => "the reconstruction server returned an error".to_owned(),
            PipelineError::Network => "a network transfer failed".to_owned(),
            PipelineError::Io => "a local file could not be read or written".to_owned(),
            PipelineError::Subprocess(Stage::ViewGeneration) => "the view-generation tool exited with non-zero status".to_owned(),
            PipelineError::Subprocess(Stage::ViewerBuild) => "the viewer binary failed to build".to_owned(),
            PipelineError::Subprocess(Stage::Viewer) => "the viewer exited with non-zero status".to_owned(),
        }
    }
}

} // verus!
