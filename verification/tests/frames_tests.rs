use text_to_3dgs::errors::PipelineError;
use text_to_3dgs::frames::check_plan;
use text_to_3dgs::frames::fetch_outcome;
use text_to_3dgs::frames::frame_plan;
use text_to_3dgs::frames::timestamps_ms;

#[test]
fn the_six_timestamps_are_fixed() {
    assert_eq!(timestamps_ms(), vec![300, 700, 2300, 2700, 4300, 4700]);
}

#[test]
fn a_plan_has_one_numbered_frame_per_timestamp() {
    // 24 frames per second, as frames per thousand seconds.
    let plan = frame_plan(24_000);
    assert_eq!(plan.len(), 6);
    let expected_indices: [u64; 6] = [7, 16, 55, 64, 103, 112];
    let expected_names = ["0.jpg", "1.jpg", "2.jpg", "3.jpg", "4.jpg", "5.jpg"];
    let expected_timestamps: [u64; 6] = [300, 700, 2300, 2700, 4300, 4700];
    for (i, job) in plan.iter().enumerate() {
        assert_eq!(job.timestamp_ms, expected_timestamps[i]);
        assert_eq!(job.index, expected_indices[i]);
        assert_eq!(job.name, expected_names[i]);
    }
}

#[test]
fn a_fractional_frame_rate_rounds_the_index_down() {
    // 29.97 frames per second.
    let plan = frame_plan(29_970);
    let indices: Vec<u64> = plan.iter().map(|j| j.index).collect();
    // floor of 8.991, 20.979, 68.931, 80.919, 128.871, 140.859.
    assert_eq!(indices, vec![8, 20, 68, 80, 128, 140]);
}

#[test]
fn a_long_enough_stream_accepts_the_whole_plan() {
    let plan = frame_plan(24_000);
    assert_eq!(check_plan(&plan, 113), Ok(()));
}

#[test]
fn a_short_stream_fails_on_the_first_late_timestamp() {
    let plan = frame_plan(24_000);
    // 100 frames cover the first four indices but not 103 at 4.3 seconds.
    assert_eq!(
        check_plan(&plan, 100),
        Err(PipelineError::OutOfRange { timestamp_ms: 4300, frame_index: 103 }),
    );
    // An empty stream fails already at the first timestamp.
    assert_eq!(
        check_plan(&plan, 0),
        Err(PipelineError::OutOfRange { timestamp_ms: 300, frame_index: 7 }),
    );
}

#[test]
fn a_missing_frame_aborts_instead_of_truncating() {
    let plan = frame_plan(24_000);
    let last = &plan[5];
    assert_eq!(
        fetch_outcome(last, false, false),
        Err(PipelineError::OutOfRange { timestamp_ms: 4700, frame_index: 112 }),
    );
}

#[test]
fn a_frame_that_will_not_decode_is_a_decode_error() {
    let plan = frame_plan(24_000);
    assert_eq!(fetch_outcome(&plan[0], true, false), Err(PipelineError::Decode));
    assert_eq!(fetch_outcome(&plan[0], true, true), Ok(()));
}
