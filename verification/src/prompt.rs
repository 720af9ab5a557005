//! Prompt optimization: the meta-prompt, the streamed response, and the
//! fallback rule.
//!
//! The optimizer sends the user's prompt, wrapped in a fixed instructional
//! meta-prompt, to a remote text-generation service.  The service streams
//! back a JSON array of partial records; the optimized prompt is the
//! concatenation, in arrival order, of the first text part of the first
//! candidate of every record.  Optimization is the one non-fatal stage: on
//! any failure the pipeline submits the original prompt unchanged.

use vstd::prelude::*;

use crate::errors::PipelineError;

verus! {

/// One partial record of the streamed optimizer response: the candidate
/// completions it carries, each a list of text parts.
pub struct StreamCandidate {
    pub parts: Vec<String>,
}

/// One record of the streamed optimizer response.
pub struct StreamRecord {
    pub candidates: Vec<StreamCandidate>,
}

/// The text a single stream record contributes: the first part of its first
/// candidate, or nothing when either is absent.
pub open spec fn record_fragment(r: StreamRecord) -> Seq<char> {
    if r.candidates.len() > 0 && r.candidates[0].parts.len() > 0 {
        r.candidates[0].parts[0]@
    } else {
        Seq::empty()
    }
}

/// The fragments of all records concatenated in arrival order.
pub open spec fn concat_fragments(rs: Seq<StreamRecord>) -> Seq<char>
    decreases rs.len(),
{
    if rs.len() == 0 {
        Seq::empty()
    } else {
        concat_fragments(rs.drop_last()) + record_fragment(rs.last())
    }
}

/// The fixed meta-prompt around the user's prompt.
pub open spec fn meta_prompt(user_prompt: Seq<char>) -> Seq<char> {
    "\nYou are a master prompt engineer specializing in text-to-video generation.\nYour task is to take a user's base prompt and enhance it to be more descriptive, dynamic, and cinematic for the Veo video generation model.\nAdd details about camera view movement, lighting, tracking, and composition while preserving the core subject.\n\nYour output MUST be only the rewritten prompt text and nothing else.\n\n**User's Base Prompt:**\n\""@
        + user_prompt + "\"\n"@
}

/// Wraps the user's prompt in the fixed instructional meta-prompt that is
/// sent to the text-generation service.
pub fn build_meta_prompt(user_prompt: &str) -> (r: String)
    ensures
        r@ == meta_prompt(user_prompt@),
{
    let mut out = String::new();
    out.push_str("\nYou are a master prompt engineer specializing in text-to-video generation.\nYour task is to take a user's base prompt and enhance it to be more descriptive, dynamic, and cinematic for the Veo video generation model.\nAdd details about camera view movement, lighting, tracking, and composition while preserving the core subject.\n\nYour output MUST be only the rewritten prompt text and nothing else.\n\n**User's Base Prompt:**\n\"");
    out.push_str(user_prompt);
    out.push_str("\"\n");
    out
}

/// The endpoint the optimizer request is posted to, keyed by the caller.
pub fn build_optimize_url(api_key: &str) -> (r: String)
    ensures
        r@ == "https://generativelanguage.googleapis.com/v1beta/models/gemini-2.5-flash-preview-05-20:streamGenerateContent?key="@
            + api_key@,
{
    let mut out = String::new();
    out.push_str("https://generativelanguage.googleapis.com/v1beta/models/gemini-2.5-flash-preview-05-20:streamGenerateContent?key=");
    out.push_str(api_key);
    out
}

/// The fixed generation settings of every optimizer request.  The service
/// takes the sampling temperature and the nucleus-sampling bound as
/// fractions; they are carried here in tenths and hundredths, and the
/// shell scales them down when it serializes the request.
pub struct OptimizeConfig {
    pub role: String,
    pub response_mime_type: String,
    pub temperature_tenths: u32,
    pub top_p_hundredths: u32,
}

/// Builds the fixed generation settings sent with every optimizer request:
/// plain-text output, a sampling temperature of 1.4 and a nucleus-sampling
/// bound of 0.9.
pub fn build_optimize_config() -> (r: OptimizeConfig)
    ensures
        r.role@ == "user"@,
        r.response_mime_type@ == "text/plain"@,
        r.temperature_tenths == 14,
        r.top_p_hundredths == 90,
{
    OptimizeConfig {
        role: "user".to_owned(),
        response_mime_type: "text/plain".to_owned(),
        temperature_tenths: 14,
        top_p_hundredths: 90,
    }
}

/// Concatenates the text fragments of a parsed stream response into the
/// optimized prompt, and refuses a response whose records carry no text at
/// all: an empty optimized prompt is an error, never a result.
pub fn collect_optimized(records: &Vec<StreamRecord>) -> (r: Result<String, PipelineError>)
    ensures
        match r {
            Ok(s) => s@ == concat_fragments(records@) && s@.len() > 0,
            Err(e) => e == PipelineError::EmptyResult && concat_fragments(records@).len() == 0,
        },
{
    let mut out = String::new();
    let mut i: usize = 0;
    while i < records.len()
        invariant
            0 <= i <= records@.len(),
            out@ == concat_fragments(records@.take(i as int)),
        decreases records@.len() - i,
    {
        let rec = &records[i];
        if rec.candidates.len() > 0 {
            let cand = &rec.candidates[0];
            if cand.parts.len() > 0 {
                out.push_str(cand.parts[0].as_str());
            }
        }
        proof {
            let t = records@.take(i as int + 1);
            assert(t.drop_last() =~= records@.take(i as int));
            assert(t.last() == records@[i as int]);
            assert(out@ =~= concat_fragments(t));
        }
        i += 1;
    }
    proof {
        assert(records@.take(records@.len() as int) =~= records@);
    }
    if out.as_str().is_empty() {
        Err(PipelineError::EmptyResult)
    } else {
        Ok(out)
    }
}

/// The fallback rule: the prompt the pipeline submits is the optimizer's
/// result when optimization succeeded, and the original prompt, unchanged,
/// when it failed for any reason.
pub fn choose_prompt(original: String, optimized: Result<String, PipelineError>) -> (r: String)
    ensures
        match optimized {
            Ok(s) => r@ == s@,
            Err(_) => r@ == original@,
        },
{
    match optimized {
        Ok(s) => s,
        Err(_) => original,
    }
}

} // verus!
