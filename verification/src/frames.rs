//! Frame extraction planning: which frames leave the video, under which
//! names.
//!
//! The pipeline samples the generated video at a fixed set of timestamps.
//! Each timestamp maps to the frame index `floor(timestamp * frame_rate)`;
//! the frame found there is saved as a numbered JPEG, `0.jpg` onward, in
//! timestamp order.  Timestamps are carried in milliseconds and the frame
//! rate in frames per thousand seconds, so the index computation is exact
//! integer arithmetic.  The decoding itself is the shell's work; this module
//! fixes the plan and classifies every way a fetch can fail, so that a
//! missing frame always aborts the extraction instead of truncating it.

use vstd::prelude::*;

use crate::errors::PipelineError;

verus! {

/// The fixed sampling timestamps, in milliseconds from the start of the
/// video, in the order their frames are numbered.
pub open spec fn timestamps_ms_spec() -> Seq<u64> {
    seq![300u64, 700u64, 2300u64, 2700u64, 4300u64, 4700u64]
}

/// The fixed sampling timestamps as a vector, for the shell and for tests.
pub fn timestamps_ms() -> (r: Vec<u64>)
    ensures
        r@ == timestamps_ms_spec(),
{
    let ts: Vec<u64> = vec![300u64, 700u64, 2300u64, 2700u64, 4300u64, 4700u64];
    proof {
        assert(ts@ =~= timestamps_ms_spec());
    }
    ts
}

/// The frame index a timestamp maps to: `floor(timestamp * frame_rate)`,
/// carried out on the millisecond timestamp and the milli-frame-rate.
pub open spec fn frame_index_spec(timestamp_ms: u64, frame_rate_milli: u64) -> int {
    (timestamp_ms * frame_rate_milli) / 1_000_000
}

/// The file name of the frame sampled in position `i`: `0.jpg` onward, in
/// timestamp order.
pub open spec fn frame_name_spec(i: int) -> Seq<char> {
    if i == 0 {
        "0.jpg"@
    } else if i == 1 {
        "1.jpg"@
    } else if i == 2 {
        "2.jpg"@
    } else if i == 3 {
        "3.jpg"@
    } else if i == 4 {
        "4.jpg"@
    } else {
        "5.jpg"@
    }
}

/// One planned frame fetch: the timestamp, the frame index it maps to, and
/// the name the frame is saved under.
pub struct FrameJob {
    pub timestamp_ms: u64,
    pub index: u64,
    pub name: String,
}

/// Lays out one extraction run: one job per configured timestamp, in
/// timestamp order, each mapping its timestamp to the frame index
/// `floor(timestamp * frame_rate)` and to the name its image is saved
/// under.  The frame rate is bounded only so the index fits the machine.
pub fn frame_plan(frame_rate_milli: u64) -> (r: Vec<FrameJob>)
    requires
        4700 * frame_rate_milli <= u64::MAX,
    ensures
        r@.len() == timestamps_ms_spec().len(),
        forall|i: int|
            #![trigger r@[i]]
            0 <= i < r@.len() ==> {
                &&& r@[i].timestamp_ms == timestamps_ms_spec()[i]
                &&& r@[i].index == frame_index_spec(timestamps_ms_spec()[i], frame_rate_milli)
                &&& r@[i].name@ == frame_name_spec(i)
            },
{
    let ts = timestamps_ms();
    let mut plan: Vec<FrameJob> = Vec::new();
    let mut i: usize = 0;
    while i < ts.len()
        invariant
            0 <= i <= ts@.len(),
            ts@ == timestamps_ms_spec(),
            4700 * frame_rate_milli <= u64::MAX,
            plan@.len() == i,
            forall|j: int|
                #![trigger plan@[j]]
                0 <= j < i ==> {
                    &&& plan@[j].timestamp_ms == timestamps_ms_spec()[j]
                    &&& plan@[j].index == frame_index_spec(
                        timestamps_ms_spec()[j],
                        frame_rate_milli,
                    )
                    &&& plan@[j].name@ == frame_name_spec(j)
                },
        decreases ts@.len() - i,
    {
        let t = ts[i];
        proof {
            assert(t <= 4700);
            assert(t * frame_rate_milli <= 4700 * frame_rate_milli) by (nonlinear_arith)
                requires
                    t <= 4700,
                    frame_rate_milli >= 0,
            ;
        }
        let index: u64 = (t * frame_rate_milli) / 1_000_000;
        let name: &str = if i == 0 {
            "0.jpg"
        } else if i == 1 {
            "1.jpg"
        } else if i == 2 {
            "2.jpg"
        } else if i == 3 {
            "3.jpg"
        } else if i == 4 {
            "4.jpg"
        } else {
            "5.jpg"
        };
        plan.push(FrameJob { timestamp_ms: t, index, name: name.to_owned() });
        i += 1;
    }
    plan
}

/// Refuses a plan some frame of which lies beyond the decoded stream: the
/// run is accepted only when every planned index is within the stream, and
/// otherwise fails on the first timestamp whose index is not, so an
/// extraction can never silently truncate to the frames that exist.
pub fn check_plan(plan: &Vec<FrameJob>, total_frames: u64) -> (r: Result<(), PipelineError>)
    ensures
        match r {
            Ok(_) => forall|i: int| 0 <= i < plan@.len() ==> plan@[i].index < total_frames,
            Err(e) => exists|i: int|
                {
                    &&& 0 <= i < plan@.len()
                    &&& plan@[i].index >= total_frames
                    &&& e == (PipelineError::OutOfRange {
                        timestamp_ms: plan@[i].timestamp_ms,
                        frame_index: plan@[i].index,
                    })
                    &&& forall|j: int| 0 <= j < i ==> plan@[j].index < total_frames
                },
        },
{
    let mut i: usize = 0;
    while i < plan.len()
        invariant
            0 <= i <= plan@.len(),
            forall|j: int| 0 <= j < i ==> plan@[j].index < total_frames,
        decreases plan@.len() - i,
    {
        if plan[i].index >= total_frames {
            return Err(
                PipelineError::OutOfRange {
                    timestamp_ms: plan[i].timestamp_ms,
                    frame_index: plan[i].index,
                },
            );
        }
        i += 1;
    }
    Ok(())
}

/// Classifies one attempted frame fetch of the shell: the stream ended
/// before the planned index (the timestamp lies outside the video), the
/// frame was there but would not decode, or the frame is in hand.
pub fn fetch_outcome(job: &FrameJob, frame_found: bool, decode_ok: bool) -> (r: Result<
    (),
    PipelineError,
>)
    ensures
        match r {
            Ok(_) => frame_found && decode_ok,
            Err(e) => {
                &&& !(frame_found && decode_ok)
                &&& e == if !frame_found {
                    (PipelineError::OutOfRange {
                        timestamp_ms: job.timestamp_ms,
                        frame_index: job.index,
                    })
                } else {
                    PipelineError::Decode
                }
            },
        },
{
    if !frame_found {
        Err(PipelineError::OutOfRange { timestamp_ms: job.timestamp_ms, frame_index: job.index })
    } else if !decode_ok {
        Err(PipelineError::Decode)
    } else {
        Ok(())
    }
}

} // verus!
