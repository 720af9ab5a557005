use text_to_3dgs::errors::MissingPart;
use text_to_3dgs::errors::PipelineError;
use text_to_3dgs::errors::Stage;
use text_to_3dgs::pipeline::output_asset_name;
use text_to_3dgs::pipeline::subprocess_outcome;
use text_to_3dgs::pipeline::views_dir_name;
use text_to_3dgs::pipeline::viewer_plan;
use text_to_3dgs::pipeline::ViewerPlan;
use text_to_3dgs::retrieve::build_download_url;
use text_to_3dgs::retrieve::video_temp_name;
use text_to_3dgs::upload::plan_upload;
use text_to_3dgs::upload::reconstruction_outcome;
use text_to_3dgs::upload::reconstruction_url;

#[test]
fn every_file_becomes_one_part_in_order() {
    let files: Vec<String> =
        (0..6).map(|i| format!("{}.jpg", i)).collect();
    let parts = plan_upload(&files).expect("six files must be accepted");
    assert_eq!(parts.len(), 6);
    for (i, part) in parts.iter().enumerate() {
        assert_eq!(part.field, "images");
        assert_eq!(part.file_name, format!("{}.jpg", i));
        assert_eq!(part.content_type, "image/jpeg");
    }
}

#[test]
fn zero_files_are_refused_before_any_request() {
    let none: Vec<String> = vec![];
    match plan_upload(&none) {
        Err(PipelineError::NoInput) => {},
        other => panic!("expected a no-input failure, got {:?}", other.is_ok()),
    }
}

#[test]
fn a_success_status_hands_the_body_through_unchanged() {
    let body = vec![0x70u8, 0x6c, 0x79, 0x00];
    assert_eq!(reconstruction_outcome(true, body.clone()), Ok(body));
}

#[test]
fn a_failure_status_keeps_the_body_as_diagnostics() {
    let body = b"bad request".to_vec();
    assert_eq!(
        reconstruction_outcome(false, body.clone()),
        Err(PipelineError::Remote(body)),
    );
}

#[test]
fn the_fixed_paths_and_endpoint_are_exact() {
    assert_eq!(reconstruction_url(), "http://localhost:8888/reconstruction");
    assert_eq!(views_dir_name(), "views");
    assert_eq!(output_asset_name(), "output.ply");
}

#[test]
fn the_download_url_appends_the_key() {
    assert_eq!(
        build_download_url("https://cdn.example/video?sig=abc", "k123"),
        "https://cdn.example/video?sig=abc&key=k123",
    );
    assert_eq!(video_temp_name(), "video.mp4");
}

#[test]
fn a_nonzero_exit_fails_its_stage() {
    assert_eq!(subprocess_outcome(Stage::ViewGeneration, true), Ok(()));
    assert_eq!(
        subprocess_outcome(Stage::ViewGeneration, false),
        Err(PipelineError::Subprocess(Stage::ViewGeneration)),
    );
    assert_eq!(
        subprocess_outcome(Stage::Viewer, false),
        Err(PipelineError::Subprocess(Stage::Viewer)),
    );
}

#[test]
fn the_viewer_is_built_only_when_absent() {
    assert_eq!(viewer_plan(true), ViewerPlan::Launch);
    assert_eq!(viewer_plan(false), ViewerPlan::BuildThenLaunch);
}

#[test]
fn every_failure_class_has_a_description() {
    let cases: Vec<(PipelineError, &str)> = vec![
        (PipelineError::Setup, "no prompt was provided"),
        (PipelineError::Submission, "video generation submission was rejected"),
        (
            PipelineError::Operation { code: 13, message: "internal".to_owned() },
            "video generation failed: internal",
        ),
        (PipelineError::EmptyResult, "prompt optimization returned no text"),
        (
            PipelineError::MissingResult(MissingPart::Response),
            "operation is done, but no response field was found",
        ),
        (
            PipelineError::MissingResult(MissingPart::SampleList),
            "response did not contain any generated video samples",
        ),
        (
            PipelineError::MissingResult(MissingPart::FirstSample),
            "response contained no video samples",
        ),
        (PipelineError::NoInput, "no images were found to upload"),
        (
            PipelineError::OutOfRange { timestamp_ms: 4300, frame_index: 103 },
            "a requested timestamp lies outside the video",
        ),
        (PipelineError::Decode, "the video decoder failed"),
        (PipelineError::Remote(b"body".to_vec()), "the reconstruction server returned an error"),
        (PipelineError::Network, "a network transfer failed"),
        (PipelineError::Io, "a local file could not be read or written"),
        (
            PipelineError::Subprocess(Stage::ViewerBuild),
            "the viewer binary failed to build",
        ),
    ];
    for (error, expected) in cases {
        assert_eq!(error.describe(), expected);
    }
}
