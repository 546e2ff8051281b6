use crossbeam_channel::bounded;
use rust_camera::actions::SampleRequest;
use rust_camera::ar::{ArReport, ArStatus, FaceTrack};
use rust_camera::camera::{CameraCommand, CameraEvent, CameraIndex, CameraInfo, CaptureError};
use rust_camera::camera_app::{AppError, CameraApp, FramePair, SampleStatus};
use rust_camera::frame::{RgbFrame, SingleBits};
use rust_camera::frame_update::FrameJob;
use rust_camera::labels::Preview;
use rust_camera::queue::Inbox;
use rust_camera::nextface::{MeshSize, NextFaceStatus};

const MS: SingleBits = SingleBits { bits: 0x41A0_0000 };

fn pixel(value: u8) -> RgbFrame {
    RgbFrame::from_raw(1, 1, vec![value; 3]).unwrap()
}

fn arrived(value: u8) -> CameraEvent {
    CameraEvent::Frame(pixel(value), SingleBits { bits: value as u32 })
}

fn list(names: &[&str]) -> Vec<CameraInfo> {
    names
        .iter()
        .map(|name| CameraInfo {
            index: CameraIndex::Name(name.to_lowercase()),
            name: name.to_string(),
        })
        .collect()
}

fn track(landmarks: usize) -> FaceTrack {
    FaceTrack { bbox: (MS, MS, MS, MS), landmarks: vec![(MS, MS, MS); landmarks] }
}

fn job(value: u8) -> FrameJob {
    FrameJob {
        raw: pixel(value),
        capture_ms: SingleBits { bits: value as u32 },
        retune: false,
        publish: false,
    }
}

#[test]
fn application_begins_idle() {
    let app = CameraApp::new(true);
    assert_eq!(app.nextface_python, "python");
    assert_eq!(CameraApp::new(false).nextface_python, "python3");
    assert_eq!(app.nextface_root, "NextFace");
    assert_eq!(app.auto_tune_interval_minutes, 2);
    assert!(app.show_stats);
    assert!(!app.frozen && !app.compare && !app.ar_enabled && !app.virtual_webcam);
    assert_eq!(app.face_samples.len(), 3);
    assert_eq!(app.face_samples[1].name, "Historic portrait — woman");
    assert!(app.face_samples[2].url.ends_with("_facing_front_LCCN2015652128.jpg"));
    assert_eq!(app.preview(), Preview::Waiting);
    assert_eq!(app.frames, 0);
}

#[test]
fn newest_frame_is_enhanced() {
    let mut app = CameraApp::new(false);
    let events = vec![arrived(1), CameraEvent::Cameras(list(&["A"])), arrived(2), arrived(3)];
    let next = app.apply_updates(events, vec![], vec![], 0);
    assert_eq!(next, Some(job(3)));
    assert_eq!(app.cameras, list(&["A"]));
    assert_eq!(app.apply_updates(vec![], vec![], vec![], 0), None);
}

#[test]
fn stale_frames_change_nothing() {
    let mut with = CameraApp::new(false);
    let mut without = CameraApp::new(false);
    let error = || CameraEvent::Error(CaptureError::Frame("torn".to_owned()));
    let a = with.apply_updates(vec![arrived(1), error(), arrived(2)], vec![], vec![], 0);
    let b = without.apply_updates(vec![error(), arrived(2)], vec![], vec![], 0);
    assert_eq!(a, b);
    assert_eq!(with, without);
}

#[test]
fn last_error_is_kept() {
    let mut app = CameraApp::new(false);
    let error = |text: &str| CameraEvent::Error(CaptureError::Query(text.to_owned()));
    app.apply_updates(vec![error("one"), error("two"), arrived(1)], vec![], vec![], 0);
    assert_eq!(app.error, Some(AppError::Capture(CaptureError::Query("two".to_owned()))));
    app.apply_updates(vec![arrived(2)], vec![], vec![], 0);
    assert_eq!(app.error_label().unwrap(), "Camera: two");
    assert_eq!(app.waiting_error().unwrap(), "two");
}

#[test]
fn error_stays_the_same_without_another() {
    let mut app = CameraApp::new(false);
    app.publish_failed("busy".to_owned());
    let events = vec![arrived(1), CameraEvent::Cameras(list(&["A"])), arrived(2)];
    app.apply_updates(events, vec![], vec![], 0);
    assert_eq!(app.error, Some(AppError::Ipc("busy".to_owned())));
    let mut calm = CameraApp::new(false);
    calm.apply_updates(vec![arrived(1)], vec![], vec![], 0);
    assert_eq!(calm.error, None);
}

#[test]
fn selection_stays_within_the_list() {
    let mut app = CameraApp::new(false);
    app.apply_updates(vec![CameraEvent::Cameras(list(&["A", "B"]))], vec![], vec![], 0);
    assert!(app.select_camera(1).is_some());
    app.apply_updates(vec![CameraEvent::Cameras(list(&["C", "D"]))], vec![], vec![], 0);
    assert_eq!(app.camera_name(), "D");
    app.apply_updates(vec![CameraEvent::Cameras(list(&["E"]))], vec![], vec![], 0);
    assert_eq!(app.camera_name(), "E");
    app.apply_updates(vec![CameraEvent::Cameras(vec![])], vec![], vec![], 0);
    assert_eq!(app.selected_camera, 0);
}

#[test]
fn last_reports_hold() {
    let mut app = CameraApp::new(false);
    let reports = vec![
        ArReport::Cleared(ArStatus::Ready),
        ArReport::Found(vec![track(3), track(4)]),
    ];
    let statuses = vec![NextFaceStatus::Idle, NextFaceStatus::NoFrame];
    assert_eq!(app.apply_updates(vec![], reports, statuses, 0), None);
    assert_eq!(app.face_tracks.len(), 2);
    assert_eq!(app.ar_status, ArStatus::Active(2));
    assert_eq!(app.nextface_status, NextFaceStatus::NoFrame);
    app.apply_updates(vec![], vec![ArReport::Cleared(ArStatus::Ready)], vec![], 0);
    assert_eq!(app.face_tracks, vec![]);
    assert_eq!(app.ar_status, ArStatus::Ready);
}

#[test]
fn update_takes_all_that_waits_in_the_queues() {
    let (tx, rx) = bounded(4);
    let (ar_tx, ar_rx) = bounded(2);
    let (nextface_tx, nextface_rx) = bounded(2);
    tx.send(arrived(1)).unwrap();
    tx.send(arrived(2)).unwrap();
    ar_tx.send(ArReport::Cleared(ArStatus::Ready)).unwrap();
    nextface_tx.send(NextFaceStatus::NoFrame).unwrap();
    let mut app = CameraApp::new(false);
    let mut inbox = Inbox::new(rx.clone());
    let mut ar_inbox = Inbox::new(ar_rx.clone());
    let mut nextface_inbox = Inbox::new(nextface_rx.clone());
    let first = app.update_frame(&mut inbox, &mut ar_inbox, &mut nextface_inbox, 0);
    assert_eq!(first, Some(job(2)));
    assert_eq!(app.ar_status, ArStatus::Ready);
    assert_eq!(app.nextface_status, NextFaceStatus::NoFrame);
    assert!(rx.is_empty() && ar_rx.is_empty() && nextface_rx.is_empty());
    drop(tx);
    assert_eq!(app.update_frame(&mut inbox, &mut ar_inbox, &mut nextface_inbox, 0), None);
}

#[test]
fn frozen_picture_leaves_the_queues_alone() {
    let (tx, rx) = bounded(4);
    let (ar_tx, ar_rx) = bounded(2);
    let (nextface_tx, nextface_rx) = bounded(2);
    tx.send(arrived(1)).unwrap();
    ar_tx.send(ArReport::Cleared(ArStatus::Ready)).unwrap();
    nextface_tx.send(NextFaceStatus::NoFrame).unwrap();
    let mut inbox = Inbox::new(rx.clone());
    let mut ar_inbox = Inbox::new(ar_rx.clone());
    let mut nextface_inbox = Inbox::new(nextface_rx.clone());
    let mut app = CameraApp::new(false);
    app.toggle_frozen();
    assert_eq!(app.update_frame(&mut inbox, &mut ar_inbox, &mut nextface_inbox, 0), None);
    assert_eq!((rx.len(), ar_rx.len(), nextface_rx.len()), (1, 1, 1));
    app.toggle_frozen();
    assert_eq!(app, CameraApp::new(false));
    let next = app.update_frame(&mut inbox, &mut ar_inbox, &mut nextface_inbox, 0);
    assert_eq!(next, Some(job(1)));
}

#[test]
fn all_that_waits_is_taken_once() {
    let (tx, rx) = bounded(3);
    tx.send(1u8).unwrap();
    tx.send(2u8).unwrap();
    let mut inbox = Inbox::new(rx);
    assert_eq!(inbox.take_all(), vec![1, 2]);
    tx.send(3u8).unwrap();
    assert_eq!(inbox.take_all(), vec![3]);
    assert_eq!(inbox.take_all(), Vec::<u8>::new());
}

#[test]
fn tuning_is_derived_from_the_raw_frame() {
    let mut app = CameraApp::new(false);
    assert!(app.tuning_frame().is_none());
    app.finish_frame(job(4), pixel(5), MS);
    assert_eq!(app.tuning_frame(), Some(&pixel(4)));
}

#[test]
fn tuning_is_due_after_its_interval() {
    let mut app = CameraApp::new(false);
    assert!(!app.auto_tune_due(u64::MAX));
    app.auto_tune_enabled = true;
    assert!(!app.auto_tune_due(119));
    assert!(app.auto_tune_due(120));
    app.auto_tune_interval_minutes = 0;
    assert!(!app.auto_tune_due(59));
    assert!(app.auto_tune_due(60));
    app.auto_tune_interval_minutes = u32::MAX;
    assert!(!app.auto_tune_due(257_698_037_699));
    assert!(app.auto_tune_due(257_698_037_700));
    app.auto_tune_interval_minutes = 2;
    let next = app.apply_updates(vec![arrived(1)], vec![], vec![], 120).unwrap();
    assert!(next.retune);
}

#[test]
fn virtual_camera_gets_frames_while_it_is_on() {
    let mut app = CameraApp::new(true);
    app.virtual_webcam = true;
    assert!(app.apply_updates(vec![arrived(1)], vec![], vec![], 0).unwrap().publish);
    app.publish_failed("busy".to_owned());
    assert_eq!(app.error_label().unwrap(), "Camera: Virtual camera IPC: busy");
    app.unregistered(Ok(()));
    assert!(!app.virtual_webcam && app.error.is_some());
    app.registered(Ok(()));
    assert!(app.error.is_none());
    app.registered(Err("denied".to_owned()));
    assert_eq!(app.waiting_error().unwrap(), "denied");
    app.virtual_webcam = true;
    app.unregistered(Err("gone".to_owned()));
    assert!(app.virtual_webcam);
    assert_eq!(app.error, Some(AppError::Registration("gone".to_owned())));
}

#[test]
fn enhanced_frame_is_shown_beside_its_baseline() {
    let mut app = CameraApp::new(false);
    app.face_tracks = vec![track(1)];
    let next = app.apply_updates(vec![arrived(7)], vec![], vec![], 0).unwrap();
    let outcome = app.finish_frame(next, pixel(9), MS);
    assert!(outcome.ar_frame.is_none());
    assert!(!outcome.textures.replace);
    assert_eq!(outcome.textures.raw.pixels[0].to_array(), [7, 7, 7, 255]);
    assert_eq!(outcome.textures.enhanced.pixels[0].to_array(), [9, 9, 9, 255]);
    assert_eq!(
        app.pair,
        Some(FramePair {
            raw: pixel(7),
            enhanced: pixel(9),
            capture_ms: SingleBits { bits: 7 },
            process_ms: MS
        })
    );
    assert_eq!((app.frames, app.last_process_ms), (1, MS));
    assert_eq!(app.face_tracks, vec![]);
    assert_eq!(app.ar_status, ArStatus::Off);
    assert_eq!(app.preview(), Preview::Enhanced { with_faces: false });
    let again = app.finish_frame(job(8), pixel(9), MS);
    assert!(again.textures.replace);
    assert_eq!(app.frames_label(), "Frames processed: 2");
}

#[test]
fn frames_go_to_the_tracker_while_it_is_on() {
    let mut app = CameraApp::new(false);
    app.set_ar_enabled(true);
    assert_eq!(app.ar_status, ArStatus::Starting);
    app.apply_updates(vec![], vec![ArReport::Found(vec![track(5)])], vec![], 0);
    let outcome = app.finish_frame(job(4), pixel(5), MS);
    assert_eq!(outcome.ar_frame, Some(pixel(4)));
    assert_eq!(app.face_tracks, vec![track(5)]);
    assert_eq!(app.preview(), Preview::Enhanced { with_faces: true });
    app.set_ar_enabled(false);
    assert_eq!(app.face_tracks, vec![]);
    assert_eq!(app.ar_status, ArStatus::Off);
}

#[test]
fn textures_are_made_of_the_present_pair() {
    let mut app = CameraApp::new(false);
    assert!(app.refresh_textures().is_none());
    app.finish_frame(job(1), pixel(2), MS);
    let update = app.refresh_textures().unwrap();
    assert!(update.replace);
    assert_eq!(update.raw.pixels[0].to_array(), [1, 1, 1, 255]);
    assert_eq!(update.enhanced.pixels[0].to_array(), [2, 2, 2, 255]);
}

#[test]
fn selecting_a_camera_clears_the_picture() {
    let mut app = CameraApp::new(false);
    assert_eq!(app.detecting_text(), Some("Detecting cameras…"));
    app.apply_updates(vec![CameraEvent::Cameras(list(&["A", "B"]))], vec![], vec![], 0);
    assert_eq!(app.detecting_text(), None);
    app.finish_frame(job(1), pixel(2), MS);
    app.publish_failed("busy".to_owned());
    assert_eq!(
        app.select_camera(1),
        Some(CameraCommand::Select(CameraIndex::Name("b".to_owned())))
    );
    assert!(app.pair.is_none() && app.error.is_none() && !app.textures);
    assert_eq!(app.preview(), Preview::Waiting);
    assert_eq!(app.frames, 1);
    assert_eq!(app.select_camera(2), None);
    assert_eq!(app.camera_name(), "Unknown camera");
}

#[test]
fn toggles_change_the_labels() {
    let mut app = CameraApp::new(false);
    assert_eq!(app.live_text(), "LIVE");
    assert_eq!(app.freeze_button(), "Freeze");
    assert_eq!(app.compare_button(), "A/B compare");
    assert_eq!(app.quick_compare_button(), "Compare");
    assert_eq!(app.output_text(), "Enhanced only");
    assert_eq!(app.preview_title(), "Live enhanced preview");
    assert_eq!(app.ar_text(), "AR OFF");
    assert_eq!(app.virtual_camera_text(), "VIRTUAL CAMERA OFF");
    app.toggle_frozen();
    app.toggle_compare();
    app.set_ar_enabled(true);
    app.virtual_webcam = true;
    assert_eq!(app.live_text(), "PAUSED");
    assert_eq!(app.freeze_button(), "Resume");
    assert_eq!(app.compare_button(), "Enhanced view");
    assert_eq!(app.quick_compare_button(), "Enhanced");
    assert_eq!(app.output_text(), "A/B comparison");
    assert_eq!(app.preview_title(), "Before / After");
    assert_eq!(app.ar_text(), "AR ON");
    assert_eq!(app.virtual_camera_text(), "VIRTUAL CAMERA ON");
    app.finish_frame(job(1), pixel(2), MS);
    assert_eq!(app.preview(), Preview::Comparison);
    app.toggle_compare();
    assert!(!app.compare);
}

#[test]
fn faces_and_landmarks_are_counted() {
    let mut app = CameraApp::new(false);
    assert_eq!(app.faces_text(), "0 faces");
    app.face_tracks = vec![track(2)];
    assert_eq!(app.faces_text(), "1 face");
    app.face_tracks = vec![track(2), track(40)];
    assert_eq!(app.faces_text(), "2 faces");
    let landmarks = app.landmark_total().unwrap();
    assert_eq!(landmarks, 42);
    assert_eq!(app.tracked_text(landmarks), "2 tracked face(s), 42 landmarks");
    assert_eq!(app.face_tracks[1].label(), "FACE · 40 landmarks");
}

#[test]
fn size_of_the_picture_is_shown() {
    let mut app = CameraApp::new(false);
    assert_eq!(app.size_text(), "0 × 0");
    let enhanced = RgbFrame::from_raw(3, 2, vec![0; 18]).unwrap();
    app.finish_frame(job(1), enhanced, MS);
    assert_eq!(app.size_text(), "3 × 2");
}

#[test]
fn reconstruction_needs_a_frame() {
    let mut app = CameraApp::new(false);
    app.nextface_mesh = Some(MeshSize { vertices: 1, faces: 1 });
    assert_eq!(app.begin_reconstruction(5), None);
    assert_eq!(app.nextface_mesh, None);
    assert_eq!(
        app.nextface_status_label(),
        "Status: Capture a frame before running reconstruction."
    );
}

#[test]
fn reconstruction_begins_with_trimmed_paths() {
    let mut app = CameraApp::new(false);
    app.nextface_root = " /opt/NextFace\n".to_owned();
    app.nextface_python = "\tpython3.9 ".to_owned();
    app.finish_frame(job(1), pixel(2), MS);
    let begun = app.begin_reconstruction(12).unwrap();
    assert_eq!(begun.root, "/opt/NextFace");
    assert_eq!(begun.python, "python3.9");
    assert_eq!(begun.output, "reconstruction-12");
    assert!(app.frame_saved(Ok(()), "/tmp/out".to_owned()));
    assert_eq!(
        app.nextface_status_label(),
        "Status: Starting NextFace… output: /tmp/out"
    );
    assert!(!app.frame_saved(Err("full".to_owned()), "/tmp/out".to_owned()));
    assert_eq!(app.nextface_status_label(), "Status: Could not save frame: full");
}

#[test]
fn samples_are_requested_by_name() {
    let mut app = CameraApp::new(false);
    assert_eq!(app.sample_status_label(), "Status: Samples are downloaded on demand.");
    assert_eq!(app.sample_name(), "Historic portrait — man");
    app.select_face_sample(2);
    let url = app.face_samples[2].url.clone();
    assert_eq!(
        app.request_face_sample(),
        Some(SampleRequest { file: "historic-portrait---front-view.jpg".to_owned(), url })
    );
    assert_eq!(
        app.face_sample_status,
        SampleStatus::Downloading("Historic portrait — front view".to_owned())
    );
    assert_eq!(
        app.sample_status_label(),
        "Status: Downloading Historic portrait — front view…"
    );
    app.select_face_sample(3);
    assert_eq!(app.sample_name(), "No sample");
    assert_eq!(app.request_face_sample(), None);
}

#[test]
fn tracking_status_is_labelled() {
    let mut app = CameraApp::new(false);
    assert_eq!(app.ar_status_label(), "Status: AR off");
    app.set_ar_enabled(true);
    assert_eq!(app.ar_status_label(), "Status: Starting MediaPipe Face Landmarker…");
}
