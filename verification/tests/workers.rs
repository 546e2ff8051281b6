use rust_camera::ar::{
    prepare_frame, ArAction, ArEvent, ArReport, ArStatus, ArStep, ArWorker, FaceTrack, MAX_FACES,
};
use rust_camera::camera::{
    CameraCommand, CameraIndex, CameraInfo, CaptureError, CaptureEvent, CaptureLoop, CaptureStep,
};
use rust_camera::download::{Download, DownloadError, DownloadEvent, DownloadStep};
use rust_camera::frame::{RgbFrame, SingleBits};
use rust_camera::nextface::{
    advance_reconstruction, mesh_text, output_name, sample_status, MeshSize, NextFaceStatus,
    ReconstructionEvent, ReconstructionStep,
};

fn cameras() -> Vec<CameraInfo> {
    vec![
        CameraInfo { index: CameraIndex::Number(3), name: "Front".to_owned() },
        CameraInfo { index: CameraIndex::Name("usb".to_owned()), name: "Desk".to_owned() },
    ]
}

fn capturing() -> CaptureLoop {
    CaptureLoop { active: Some(CameraIndex::Number(3)), candidate: None }
}

fn pixel(value: u8) -> RgbFrame {
    RgbFrame::from_raw(1, 1, vec![value; 3]).unwrap()
}

fn track(landmarks: usize) -> FaceTrack {
    let zero = SingleBits { bits: 0 };
    FaceTrack { bbox: (zero, zero, zero, zero), landmarks: vec![(zero, zero, zero); landmarks] }
}

#[test]
fn capture_opens_the_first_camera() {
    let mut c = CaptureLoop::new();
    assert_eq!(c.advance(CaptureEvent::Started { backend: true }), CaptureStep::Query);
    assert_eq!(
        c.advance(CaptureEvent::Queried(Ok(cameras()))),
        CaptureStep::Announce(cameras())
    );
    assert_eq!(
        c.advance(CaptureEvent::Announced),
        CaptureStep::Create(CameraIndex::Number(3))
    );
    assert_eq!(c.advance(CaptureEvent::Created(Ok(()))), CaptureStep::OpenStream);
    assert_eq!(c.advance(CaptureEvent::Opened(Ok(()))), CaptureStep::Poll);
    assert_eq!(c, capturing());
    assert_eq!(c.advance(CaptureEvent::Polled(None)), CaptureStep::Capture);
    let ms = SingleBits { bits: 5 };
    assert_eq!(
        c.advance(CaptureEvent::Captured(Ok((pixel(1), ms)))),
        CaptureStep::Send(pixel(1), ms)
    );
    assert_eq!(c.advance(CaptureEvent::Sent { delivered: true }), CaptureStep::Poll);
    assert_eq!(c.advance(CaptureEvent::Sent { delivered: false }), CaptureStep::Finish(None));
}

#[test]
fn capture_without_cameras_ends_with_an_error() {
    let mut c = CaptureLoop::new();
    assert_eq!(c.advance(CaptureEvent::Started { backend: true }), CaptureStep::Query);
    assert_eq!(c.advance(CaptureEvent::Queried(Ok(vec![]))), CaptureStep::Announce(vec![]));
    assert_eq!(
        c.advance(CaptureEvent::Announced),
        CaptureStep::Finish(Some(CaptureError::NoCameras))
    );
}

#[test]
fn capture_failures_end_the_loop() {
    let mut c = CaptureLoop::new();
    assert_eq!(
        c.advance(CaptureEvent::Started { backend: false }),
        CaptureStep::Finish(Some(CaptureError::NoBackend))
    );
    assert_eq!(
        c.advance(CaptureEvent::Queried(Err("bus".to_owned()))),
        CaptureStep::Finish(Some(CaptureError::Query("bus".to_owned())))
    );
    assert_eq!(
        c.advance(CaptureEvent::Created(Err("busy".to_owned()))),
        CaptureStep::Finish(Some(CaptureError::Start("busy".to_owned())))
    );
    assert_eq!(
        c.advance(CaptureEvent::Opened(Err("busy".to_owned()))),
        CaptureStep::Finish(Some(CaptureError::Start("busy".to_owned())))
    );
    assert_eq!(
        capturing().advance(CaptureEvent::Captured(Err("torn".to_owned()))),
        CaptureStep::Finish(Some(CaptureError::Frame("torn".to_owned())))
    );
}

#[test]
fn capture_changes_to_the_selected_camera() {
    let mut c = capturing();
    let desk = CameraIndex::Name("usb".to_owned());
    assert_eq!(
        c.advance(CaptureEvent::Polled(Some(CameraCommand::Select(desk.duplicate())))),
        CaptureStep::Stop
    );
    assert_eq!(c.advance(CaptureEvent::Stopped), CaptureStep::Create(desk.duplicate()));
    assert_eq!(c.advance(CaptureEvent::Created(Ok(()))), CaptureStep::OpenStream);
    assert_eq!(c.advance(CaptureEvent::Opened(Ok(()))), CaptureStep::Capture);
    assert_eq!(c, CaptureLoop { active: Some(desk), candidate: None });
}

#[test]
fn capture_reports_a_selection_that_fails_and_goes_on() {
    let mut c = capturing();
    let select = || CaptureEvent::Polled(Some(CameraCommand::Select(CameraIndex::Number(8))));
    assert_eq!(c.advance(select()), CaptureStep::Stop);
    assert_eq!(c.advance(CaptureEvent::Stopped), CaptureStep::Create(CameraIndex::Number(8)));
    assert_eq!(
        c.advance(CaptureEvent::Created(Err("gone".to_owned()))),
        CaptureStep::Report(CaptureError::CreateSelected("gone".to_owned()))
    );
    assert_eq!(c.advance(CaptureEvent::Reported), CaptureStep::Poll);
    assert_eq!(c, capturing());
    assert_eq!(c.advance(select()), CaptureStep::Stop);
    assert_eq!(c.advance(CaptureEvent::Stopped), CaptureStep::Create(CameraIndex::Number(8)));
    assert_eq!(c.advance(CaptureEvent::Created(Ok(()))), CaptureStep::OpenStream);
    assert_eq!(
        c.advance(CaptureEvent::Opened(Err("busy".to_owned()))),
        CaptureStep::Report(CaptureError::OpenSelected("busy".to_owned()))
    );
    assert_eq!(c, capturing());
}

#[test]
fn capture_errors_say_what_happened() {
    let e = || "e".to_owned();
    assert_eq!(
        CaptureError::NoBackend.message(),
        "No camera backend is available on this system."
    );
    assert_eq!(CaptureError::Query(e()).message(), "e");
    assert_eq!(CaptureError::NoCameras.message(), "No cameras were detected.");
    assert_eq!(CaptureError::Start(e()).message(), "e");
    assert_eq!(
        CaptureError::CreateSelected(e()).message(),
        "Could not create selected camera: e"
    );
    assert_eq!(CaptureError::OpenSelected(e()).message(), "Could not open selected camera: e");
    assert_eq!(CaptureError::Frame(e()).message(), "e");
}

#[test]
fn tracking_loads_a_model_that_is_there() {
    let mut w = ArWorker::new();
    assert_eq!(
        w.advance(ArEvent::Started { model_exists: true }),
        ArStep { report: None, wait: false, action: ArAction::Load }
    );
    assert_eq!(
        w.advance(ArEvent::Loaded(Ok(()))),
        ArStep {
            report: Some(ArReport::Cleared(ArStatus::Ready)),
            wait: true,
            action: ArAction::Receive
        }
    );
    assert_eq!(w.advance(ArEvent::Received { frame: false }).action, ArAction::Finish);
    assert_eq!(MAX_FACES, 4);
}

#[test]
fn tracking_downloads_a_model_that_is_missing() {
    let mut w = ArWorker::new();
    assert_eq!(
        w.advance(ArEvent::Started { model_exists: false }),
        ArStep {
            report: Some(ArReport::Cleared(ArStatus::Downloading)),
            wait: true,
            action: ArAction::Download
        }
    );
    assert_eq!(w.advance(ArEvent::Downloaded(Ok(()))).action, ArAction::Load);
    assert_eq!(
        w.advance(ArEvent::Downloaded(Err("offline".to_owned()))),
        ArStep {
            report: Some(ArReport::Cleared(ArStatus::Unavailable("offline".to_owned()))),
            wait: true,
            action: ArAction::Finish
        }
    );
    assert_eq!(
        w.advance(ArEvent::Loaded(Err("bad".to_owned()))),
        ArStep {
            report: Some(ArReport::Cleared(ArStatus::LoadFailed("bad".to_owned()))),
            wait: true,
            action: ArAction::Finish
        }
    );
}

#[test]
fn detector_time_grows_with_the_frames_that_reach_it() {
    let mut w = ArWorker::new();
    assert_eq!(w.advance(ArEvent::Received { frame: true }).action, ArAction::Prepare);
    assert_eq!(w.advance(ArEvent::Saved(Ok(()))).action, ArAction::Detect { timestamp_ms: 33 });
    assert_eq!(
        w.advance(ArEvent::Detected(Ok(vec![track(1)]))),
        ArStep {
            report: Some(ArReport::Found(vec![track(1)])),
            wait: false,
            action: ArAction::Receive
        }
    );
    assert_eq!(
        w.advance(ArEvent::Saved(Err("full".to_owned()))),
        ArStep {
            report: Some(ArReport::Cleared(ArStatus::PreparationFailed("full".to_owned()))),
            wait: false,
            action: ArAction::Receive
        }
    );
    assert_eq!(w.advance(ArEvent::Saved(Ok(()))).action, ArAction::Detect { timestamp_ms: 66 });
    assert_eq!(
        w.advance(ArEvent::Detected(Err("nan".to_owned()))).report,
        Some(ArReport::Cleared(ArStatus::InferenceFailed("nan".to_owned())))
    );
    assert_eq!(w.advance(ArEvent::Saved(Ok(()))).action, ArAction::Detect { timestamp_ms: 99 });
}

#[test]
fn reports_have_tracks_and_a_status() {
    assert_eq!(
        ArReport::Found(vec![track(2), track(0)]).into_parts(),
        (vec![track(2), track(0)], ArStatus::Active(2))
    );
    assert_eq!(ArReport::Cleared(ArStatus::Ready).into_parts(), (vec![], ArStatus::Ready));
}

#[test]
fn tracking_statuses_say_what_happens() {
    let e = || "e".to_owned();
    assert_eq!(ArStatus::Off.text(), "AR off");
    assert_eq!(ArStatus::Starting.text(), "Starting MediaPipe Face Landmarker…");
    assert_eq!(ArStatus::Downloading.text(), "AR: downloading Face Landmarker model…");
    assert_eq!(ArStatus::Unavailable(e()).text(), "AR unavailable: e");
    assert_eq!(ArStatus::LoadFailed(e()).text(), "AR Face Landmarker load failed: e");
    assert_eq!(ArStatus::Ready.text(), "AR ready · dense face tracking");
    assert_eq!(ArStatus::PreparationFailed(e()).text(), "AR frame preparation failed: e");
    assert_eq!(ArStatus::Active(12).text(), "AR active · 12 face(s) · dense landmarks");
    assert_eq!(ArStatus::InferenceFailed(e()).text(), "AR inference failed: e");
}

#[test]
fn wide_frames_are_scaled_for_tracking() {
    let narrow = RgbFrame::from_raw(640, 1, vec![9; 1920]).unwrap();
    assert_eq!(prepare_frame(&narrow, 77), narrow);
    let wide = RgbFrame::from_raw(1280, 2, vec![9; 7680]).unwrap();
    assert_eq!(prepare_frame(&wide, 1), RgbFrame::from_raw(640, 1, vec![9; 1920]).unwrap());
    assert_eq!(prepare_frame(&wide, 0), RgbFrame::from_raw(640, 1, vec![9; 1920]).unwrap());
}

#[test]
fn model_download_writes_a_part_and_renames_it() {
    let d = Download::Model;
    assert_eq!(
        d.advance(DownloadEvent::Started { in_directory: true }),
        DownloadStep::CreateDirectory
    );
    assert_eq!(
        d.advance(DownloadEvent::Started { in_directory: false }),
        DownloadStep::Fetch { limit: 30 * 1024 * 1024 }
    );
    assert_eq!(
        d.advance(DownloadEvent::DirectoryCreated(Ok(()))),
        DownloadStep::Fetch { limit: 31_457_280 }
    );
    assert_eq!(
        d.advance(DownloadEvent::Fetched(Ok(vec![1; 1_000_000]))),
        DownloadStep::Write { bytes: vec![1; 1_000_000], partial: true }
    );
    assert_eq!(d.advance(DownloadEvent::Written(Ok(()))), DownloadStep::Rename);
    assert_eq!(d.advance(DownloadEvent::Renamed(Ok(()))), DownloadStep::Finish(Ok(())));
    assert_eq!(
        d.advance(DownloadEvent::Fetched(Ok(vec![1; 999_999]))),
        DownloadStep::Finish(Err(DownloadError::TooSmall(Download::Model)))
    );
}

#[test]
fn sample_download_writes_the_file_itself() {
    let d = Download::FaceSample;
    assert_eq!(d.limit(), 12_582_912);
    assert_eq!(d.minimum(), 10_000);
    assert_eq!(
        d.advance(DownloadEvent::Fetched(Ok(vec![1; 10_000]))),
        DownloadStep::Write { bytes: vec![1; 10_000], partial: false }
    );
    assert_eq!(d.advance(DownloadEvent::Written(Ok(()))), DownloadStep::Finish(Ok(())));
    assert_eq!(
        d.advance(DownloadEvent::Fetched(Ok(vec![1; 9_999]))),
        DownloadStep::Finish(Err(DownloadError::TooSmall(Download::FaceSample)))
    );
}

#[test]
fn download_failures_are_reported() {
    let e = || "e".to_owned();
    for d in [Download::Model, Download::FaceSample] {
        let disk = || DownloadStep::Finish(Err(DownloadError::Disk("e".to_owned())));
        assert_eq!(d.advance(DownloadEvent::DirectoryCreated(Err(e()))), disk());
        assert_eq!(d.advance(DownloadEvent::Written(Err(e()))), disk());
        assert_eq!(d.advance(DownloadEvent::Renamed(Err(e()))), disk());
        assert_eq!(
            d.advance(DownloadEvent::Fetched(Err(e()))),
            DownloadStep::Finish(Err(DownloadError::Network(d, e())))
        );
    }
    assert_eq!(DownloadError::Disk(e()).message(), "e");
    assert_eq!(
        DownloadError::Network(Download::Model, e()).message(),
        "model download failed: e"
    );
    assert_eq!(
        DownloadError::Network(Download::FaceSample, e()).message(),
        "sample download failed: e"
    );
    assert_eq!(
        DownloadError::TooSmall(Download::Model).message(),
        "downloaded Face Landmarker model is unexpectedly small"
    );
    assert_eq!(
        DownloadError::TooSmall(Download::FaceSample).message(),
        "downloaded sample is unexpectedly small"
    );
}

#[test]
fn reconstruction_runs_to_its_end() {
    let output = || "out".to_owned();
    assert_eq!(
        advance_reconstruction(ReconstructionEvent::Checked {
            optimizer: "o.py".to_owned(),
            exists: true
        }),
        ReconstructionStep::CreateOutput
    );
    assert_eq!(
        advance_reconstruction(ReconstructionEvent::OutputCreated(Ok(()))),
        ReconstructionStep::Run
    );
    assert_eq!(
        advance_reconstruction(ReconstructionEvent::Ran {
            output: output(),
            outcome: Ok((true, "exit status: 0".to_owned()))
        }),
        ReconstructionStep::Finish(NextFaceStatus::Complete(output()))
    );
}

#[test]
fn reconstruction_failures_are_reported() {
    assert_eq!(
        advance_reconstruction(ReconstructionEvent::Checked {
            optimizer: "o.py".to_owned(),
            exists: false
        }),
        ReconstructionStep::Finish(NextFaceStatus::NotFound("o.py".to_owned()))
    );
    assert_eq!(
        advance_reconstruction(ReconstructionEvent::OutputCreated(Err("full".to_owned()))),
        ReconstructionStep::Finish(NextFaceStatus::OutputFailed("full".to_owned()))
    );
    assert_eq!(
        advance_reconstruction(ReconstructionEvent::Ran {
            output: "out".to_owned(),
            outcome: Ok((false, "exit status: 1".to_owned()))
        }),
        ReconstructionStep::Finish(NextFaceStatus::Exited("exit status: 1".to_owned()))
    );
    assert_eq!(
        advance_reconstruction(ReconstructionEvent::Ran {
            output: "out".to_owned(),
            outcome: Err("no python".to_owned())
        }),
        ReconstructionStep::Finish(NextFaceStatus::StartFailed("no python".to_owned()))
    );
}

#[test]
fn reconstruction_statuses_say_what_happens() {
    let e = || "e".to_owned();
    assert_eq!(NextFaceStatus::Idle.text(), "NextFace idle");
    assert_eq!(
        NextFaceStatus::NoFrame.text(),
        "Capture a frame before running reconstruction."
    );
    assert_eq!(NextFaceStatus::SaveFailed(e()).text(), "Could not save frame: e");
    assert_eq!(NextFaceStatus::Starting(e()).text(), "Starting NextFace… output: e");
    assert_eq!(NextFaceStatus::NotFound(e()).text(), "NextFace not found: e");
    assert_eq!(NextFaceStatus::OutputFailed(e()).text(), "NextFace output directory failed: e");
    assert_eq!(NextFaceStatus::Complete(e()).text(), "NextFace complete · mesh/output: e");
    assert_eq!(NextFaceStatus::Exited(e()).text(), "NextFace exited with e");
    assert_eq!(NextFaceStatus::StartFailed(e()).text(), "Could not start NextFace: e");
    assert_eq!(sample_status(Ok(()), e()).text(), "Sample ready: e");
    assert_eq!(
        sample_status(Err(DownloadError::TooSmall(Download::FaceSample)), e()).text(),
        "Sample download failed: downloaded sample is unexpectedly small"
    );
}

#[test]
fn reconstructions_have_directories_of_their_own() {
    assert_eq!(output_name(0), "reconstruction-0");
    assert_eq!(output_name(1_700_000_000), "reconstruction-1700000000");
    assert_ne!(output_name(1), output_name(11));
}

#[test]
fn mesh_is_described() {
    assert_eq!(mesh_text(None), "NextFace mesh: not loaded");
    assert_eq!(
        mesh_text(Some(MeshSize { vertices: 468, faces: 900 })),
        "NextFace mesh: 468 vertices · 900 triangles"
    );
}
