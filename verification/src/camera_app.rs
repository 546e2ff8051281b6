//! The application's state, and what the events of the other threads and the user's
//! actions make of it.

use crate::ar::{ArStatus, FaceTrack};
use crate::camera::{CameraInfo, CaptureError, capture_message};
use crate::frame::{RgbFrame, SingleBits};
use crate::nextface::{MeshSize, NextFaceStatus};
use crate::text::{join2, join3};
use vstd::prelude::*;

verus! {

/// A frame as it was decoded and as it was enhanced, with the milliseconds that each
/// took.
#[derive(Debug, PartialEq, Eq)]
pub struct FramePair {
    pub raw: RgbFrame,
    pub enhanced: RgbFrame,
    pub capture_ms: SingleBits,
    pub process_ms: SingleBits,
}

/// What went wrong last.
#[derive(Debug, PartialEq, Eq)]
pub enum AppError {
    Capture(CaptureError),
    /// A frame could not be handed to the virtual camera.
    Ipc(String),
    /// The virtual camera could not be registered or unregistered.
    Registration(String),
}

/// The text that tells of an error.
pub open spec fn app_error_text(error: AppError) -> Seq<char> {
    match error {
        AppError::Capture(error) => capture_message(error),
        AppError::Ipc(text) => "Virtual camera IPC: "@ + text@,
        AppError::Registration(text) => text@,
    }
}

impl AppError {
    pub fn text(&self) -> (text: String)
        ensures
            text@ == app_error_text(*self),
    {
        match self {
            AppError::Capture(error) => error.message(),
            AppError::Ipc(text) => join2("Virtual camera IPC: ", text.as_str()),
            AppError::Registration(text) => text.clone(),
        }
    }
}

/// A portrait that can be downloaded.
#[derive(Debug, PartialEq, Eq)]
pub struct FaceSample {
    pub name: String,
    pub url: String,
}

/// What is told about the samples.
#[derive(Debug, PartialEq, Eq)]
pub enum SampleStatus {
    OnDemand,
    /// With the sample's name.
    Downloading(String),
}

/// The text that tells of the samples.
pub open spec fn sample_status_text(status: SampleStatus) -> Seq<char> {
    match status {
        SampleStatus::OnDemand => "Samples are downloaded on demand."@,
        SampleStatus::Downloading(name) => "Downloading "@ + name@ + "…"@,
    }
}

impl SampleStatus {
    pub fn text(&self) -> (text: String)
        ensures
            text@ == sample_status_text(*self),
    {
        match self {
            SampleStatus::OnDemand => "Samples are downloaded on demand.".to_owned(),
            SampleStatus::Downloading(name) => join3("Downloading ", name.as_str(), "…"),
        }
    }
}

/// The application's state.
#[derive(Debug, PartialEq, Eq)]
pub struct CameraApp {
    pub cameras: Vec<CameraInfo>,
    pub selected_camera: usize,
    pub pair: Option<FramePair>,
    /// Whether the textures of a pair were loaded.
    pub textures: bool,
    pub compare: bool,
    pub frozen: bool,
    pub error: Option<AppError>,
    /// How many frames were processed.
    pub frames: u64,
    pub show_stats: bool,
    pub ar_enabled: bool,
    pub virtual_webcam: bool,
    pub last_process_ms: SingleBits,
    pub auto_tune_enabled: bool,
    pub auto_tune_default_enabled: bool,
    pub auto_tune_interval_minutes: u32,
    pub face_tracks: Vec<FaceTrack>,
    pub nextface_mesh: Option<MeshSize>,
    pub ar_status: ArStatus,
    pub nextface_root: String,
    pub nextface_python: String,
    pub nextface_status: NextFaceStatus,
    pub face_samples: Vec<FaceSample>,
    pub selected_face_sample: usize,
    pub face_sample_status: SampleStatus,
}

/// What the application's state is.
#[verifier::ext_equal]
pub struct AppView {
    pub cameras: Seq<CameraInfo>,
    pub selected_camera: usize,
    pub pair: Option<FramePair>,
    pub textures: bool,
    pub compare: bool,
    pub frozen: bool,
    pub error: Option<AppError>,
    pub frames: u64,
    pub show_stats: bool,
    pub ar_enabled: bool,
    pub virtual_webcam: bool,
    pub last_process_ms: SingleBits,
    pub auto_tune_enabled: bool,
    pub auto_tune_default_enabled: bool,
    pub auto_tune_interval_minutes: u32,
    pub face_tracks: Seq<FaceTrack>,
    pub nextface_mesh: Option<MeshSize>,
    pub ar_status: ArStatus,
    pub nextface_root: Seq<char>,
    pub nextface_python: Seq<char>,
    pub nextface_status: NextFaceStatus,
    pub face_samples: Seq<FaceSample>,
    pub selected_face_sample: usize,
    pub face_sample_status: SampleStatus,
}

impl View for CameraApp {
    type V = AppView;

    open spec fn view(&self) -> AppView {
        AppView {
            cameras: self.cameras@,
            selected_camera: self.selected_camera,
            pair: self.pair,
            textures: self.textures,
            compare: self.compare,
            frozen: self.frozen,
            error: self.error,
            frames: self.frames,
            show_stats: self.show_stats,
            ar_enabled: self.ar_enabled,
            virtual_webcam: self.virtual_webcam,
            last_process_ms: self.last_process_ms,
            auto_tune_enabled: self.auto_tune_enabled,
            auto_tune_default_enabled: self.auto_tune_default_enabled,
            auto_tune_interval_minutes: self.auto_tune_interval_minutes,
            face_tracks: self.face_tracks@,
            nextface_mesh: self.nextface_mesh,
            ar_status: self.ar_status,
            nextface_root: self.nextface_root@,
            nextface_python: self.nextface_python@,
            nextface_status: self.nextface_status,
            face_samples: self.face_samples@,
            selected_face_sample: self.selected_face_sample,
            face_sample_status: self.face_sample_status,
        }
    }
}

impl AppView {
    /// What holds of the state at all times: the selected camera is one of those that
    /// were found, if there are any, and textures are loaded while there is a picture to
    /// show.
    pub open spec fn wf(self) -> bool {
        &&& self.selected_camera < self.cameras.len() || (self.cameras.len() == 0
            && self.selected_camera == 0)
        &&& self.textures == (self.pair is Some)
    }
}

impl CameraApp {
    /// The state at the beginning, for the system that the application runs on.
    pub fn new(windows: bool) -> (app: CameraApp)
        ensures
            app@.wf(),
            app@ == (AppView {
                cameras: seq![],
                selected_camera: 0,
                pair: None,
                textures: false,
                compare: false,
                frozen: false,
                error: None,
                frames: 0,
                show_stats: true,
                ar_enabled: false,
                virtual_webcam: false,
                last_process_ms: SingleBits { bits: 0 },
                auto_tune_enabled: false,
                auto_tune_default_enabled: false,
                auto_tune_interval_minutes: 2,
                face_tracks: seq![],
                nextface_mesh: None,
                ar_status: ArStatus::Off,
                nextface_root: "NextFace"@,
                nextface_python: if windows {
                    "python"@
                } else {
                    "python3"@
                },
                nextface_status: NextFaceStatus::Idle,
                face_samples: app@.face_samples,
                selected_face_sample: 0,
                face_sample_status: SampleStatus::OnDemand,
            }),
            app@.face_samples.len() == 3,
            app@.face_samples[0].name@ == "Historic portrait — man"@,
            app@.face_samples[1].name@ == "Historic portrait — woman"@,
            app@.face_samples[2].name@ == "Historic portrait — front view"@,
            app@.face_samples[0].url@
                == "https://commons.wikimedia.org/wiki/Special:Redirect/file/Portrait_of_a_man,_facing_front,_image_framed_by_gold_and_red_decorative_motif_LCCN2016653262.jpg"@,
            app@.face_samples[1].url@
                == "https://commons.wikimedia.org/wiki/Special:Redirect/file/African_American_woman,_head-and-shoulders_portrait,_facing_front_LCCN99472177.jpg"@,
            app@.face_samples[2].url@
                == "https://commons.wikimedia.org/wiki/Special:Redirect/file/Portrait_of_an_unidentified_man,_full-length,_standing,_facing_front_LCCN2015652128.jpg"@,
    {
        let mut samples: Vec<FaceSample> = Vec::new();
        samples.push(
            FaceSample {
                name: "Historic portrait — man".to_owned(),
                url: "https://commons.wikimedia.org/wiki/Special:Redirect/file/Portrait_of_a_man,_facing_front,_image_framed_by_gold_and_red_decorative_motif_LCCN2016653262.jpg".to_owned(),
            },
        );
        samples.push(
            FaceSample {
                name: "Historic portrait — woman".to_owned(),
                url: "https://commons.wikimedia.org/wiki/Special:Redirect/file/African_American_woman,_head-and-shoulders_portrait,_facing_front_LCCN99472177.jpg".to_owned(),
            },
        );
        samples.push(
            FaceSample {
                name: "Historic portrait — front view".to_owned(),
                url: "https://commons.wikimedia.org/wiki/Special:Redirect/file/Portrait_of_an_unidentified_man,_full-length,_standing,_facing_front_LCCN2015652128.jpg".to_owned(),
            },
        );
        CameraApp {
            cameras: Vec::new(),
            selected_camera: 0,
            pair: None,
            textures: false,
            compare: false,
            frozen: false,
            error: None,
            frames: 0,
            show_stats: true,
            ar_enabled: false,
            virtual_webcam: false,
            last_process_ms: SingleBits { bits: 0 },
            auto_tune_enabled: false,
            auto_tune_default_enabled: false,
            auto_tune_interval_minutes: 2,
            face_tracks: Vec::new(),
            nextface_mesh: None,
            ar_status: ArStatus::Off,
            nextface_root: "NextFace".to_owned(),
            nextface_python: if windows {
                "python".to_owned()
            } else {
                "python3".to_owned()
            },
            nextface_status: NextFaceStatus::Idle,
            face_samples: samples,
            selected_face_sample: 0,
            face_sample_status: SampleStatus::OnDemand,
        }
    }
}

/// The view of the state has each of its fields.
pub proof fn law_view_has_each_field(app: CameraApp)
    ensures
        app@.cameras == app.cameras@,
        app@.selected_camera == app.selected_camera,
        app@.pair == app.pair,
        app@.textures == app.textures,
        app@.compare == app.compare,
        app@.frozen == app.frozen,
        app@.error == app.error,
        app@.frames == app.frames,
        app@.show_stats == app.show_stats,
        app@.ar_enabled == app.ar_enabled,
        app@.virtual_webcam == app.virtual_webcam,
        app@.last_process_ms == app.last_process_ms,
        app@.auto_tune_enabled == app.auto_tune_enabled,
        app@.auto_tune_default_enabled == app.auto_tune_default_enabled,
        app@.auto_tune_interval_minutes == app.auto_tune_interval_minutes,
        app@.face_tracks == app.face_tracks@,
        app@.nextface_mesh == app.nextface_mesh,
        app@.ar_status == app.ar_status,
        app@.nextface_root == app.nextface_root@,
        app@.nextface_python == app.nextface_python@,
        app@.nextface_status == app.nextface_status,
        app@.face_samples == app.face_samples@,
        app@.selected_face_sample == app.selected_face_sample,
        app@.face_sample_status == app.face_sample_status,
{
}

/// A well-formed state has textures exactly while it has a picture, and its selected camera
/// is in the list unless the list is empty.
pub proof fn law_well_formed_state(app: AppView)
    ensures
        app.wf() <==> (app.textures <==> app.pair is Some) && (app.cameras.len() > 0
            ==> app.selected_camera < app.cameras.len()) && (app.cameras.len() == 0
            ==> app.selected_camera == 0),
{
}

/// Errors and samples are told in these words, with the text that comes with them whole.
pub proof fn law_application_texts(error: CaptureError, text: String)
    ensures
        app_error_text(AppError::Capture(error)) == capture_message(error),
        app_error_text(AppError::Ipc(text)) == "Virtual camera IPC: "@ + text@,
        app_error_text(AppError::Registration(text)) == text@,
        sample_status_text(SampleStatus::OnDemand) == "Samples are downloaded on demand."@,
        sample_status_text(SampleStatus::Downloading(text)) == "Downloading "@ + text@ + "…"@,
{
}

} // verus!
