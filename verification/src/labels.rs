//! What the window says and shows.

use crate::ar::{FaceTrack, ar_status_text};
use crate::camera::{CameraEvent, capture_message};
use crate::camera_app::{AppView, CameraApp, app_error_text, sample_status_text};
use crate::frame_update::after_events;
use crate::nextface::nextface_status_text;
use crate::text::{decimal, decimal_text, join2, join3, join4};
use vstd::prelude::*;

verus! {

/// What the middle of the window shows.
#[derive(Debug, Clone, Copy, PartialEq, Eq, Structural)]
pub enum Preview {
    /// No picture yet.
    Waiting,
    /// The raw and the enhanced picture, side by side.
    Comparison,
    /// The enhanced picture, and the tracked faces on it if so.
    Enhanced { with_faces: bool },
}

/// What the middle of the window shows.
pub open spec fn preview_of(app: AppView) -> Preview {
    if !app.textures {
        Preview::Waiting
    } else if app.compare {
        Preview::Comparison
    } else {
        Preview::Enhanced { with_faces: app.ar_enabled && app.face_tracks.len() > 0 }
    }
}

/// A noun in the singular for one, else with an "s".
pub open spec fn counted(count: nat, noun: Seq<char>) -> Seq<char> {
    decimal(count) + " "@ + noun + if count == 1 {
        ""@
    } else {
        "s"@
    }
}

/// How many landmarks the faces have in all.
pub open spec fn landmark_count(tracks: Seq<FaceTrack>) -> nat
    decreases tracks.len(),
{
    if tracks.len() == 0 {
        0
    } else {
        landmark_count(tracks.drop_last()) + tracks.last().landmarks@.len()
    }
}

/// The width and height of the picture that is shown, or zeros.
pub open spec fn shown_size(app: AppView) -> (u32, u32) {
    match app.pair {
        Some(pair) => (pair.enhanced@.width, pair.enhanced@.height),
        None => (0, 0),
    }
}

/// The error that is shown among the controls.
pub open spec fn shown_error(app: AppView) -> Option<Seq<char>> {
    match app.error {
        Some(error) => Some("Camera: "@ + app_error_text(error)),
        None => None,
    }
}

/// What is told of the picture.
pub open spec fn live_label(app: AppView) -> Seq<char> {
    if app.frozen {
        "PAUSED"@
    } else {
        "LIVE"@
    }
}

/// What is told of face tracking.
pub open spec fn ar_label(app: AppView) -> Seq<char> {
    if app.ar_enabled {
        "AR ON"@
    } else {
        "AR OFF"@
    }
}

/// What is told of the virtual camera.
pub open spec fn virtual_camera_label(app: AppView) -> Seq<char> {
    if app.virtual_webcam {
        "VIRTUAL CAMERA ON"@
    } else {
        "VIRTUAL CAMERA OFF"@
    }
}

/// The button above the picture.
pub open spec fn compare_label(app: AppView) -> Seq<char> {
    if app.compare {
        "Enhanced view"@
    } else {
        "A/B compare"@
    }
}

/// The button among the quick controls.
pub open spec fn quick_compare_label(app: AppView) -> Seq<char> {
    if app.compare {
        "Enhanced"@
    } else {
        "Compare"@
    }
}

/// The button that freezes the picture.
pub open spec fn freeze_label(app: AppView) -> Seq<char> {
    if app.frozen {
        "Resume"@
    } else {
        "Freeze"@
    }
}

/// What is told of the output.
pub open spec fn output_label(app: AppView) -> Seq<char> {
    if app.compare {
        "A/B comparison"@
    } else {
        "Enhanced only"@
    }
}

/// The title of the picture.
pub open spec fn preview_label(app: AppView) -> Seq<char> {
    if app.compare {
        "Before / After"@
    } else {
        "Live enhanced preview"@
    }
}

/// What stands for the camera that is selected.
pub open spec fn camera_label(app: AppView) -> Seq<char> {
    if app.selected_camera < app.cameras.len() {
        app.cameras[app.selected_camera as int].name@
    } else {
        "Unknown camera"@
    }
}

/// What stands for the sample that is selected.
pub open spec fn sample_label(app: AppView) -> Seq<char> {
    if app.selected_face_sample < app.face_samples.len() {
        app.face_samples[app.selected_face_sample as int].name@
    } else {
        "No sample"@
    }
}

impl CameraApp {
    pub fn live_text(&self) -> (text: &'static str)
        ensures
            text@ == if self@.frozen {
                "PAUSED"@
            } else {
                "LIVE"@
            },
            text@ == live_label(self@),
    {
        if self.frozen {
            "PAUSED"
        } else {
            "LIVE"
        }
    }

    pub fn faces_text(&self) -> (text: String)
        ensures
            text@ == counted(self@.face_tracks.len(), "face"@),
    {
        let count: usize = self.face_tracks.len();
        join4(
            decimal_text(count as u64).as_str(),
            " ",
            "face",
            if count == 1 {
                ""
            } else {
                "s"
            },
        )
    }

    pub fn ar_text(&self) -> (text: &'static str)
        ensures
            text@ == if self@.ar_enabled {
                "AR ON"@
            } else {
                "AR OFF"@
            },
            text@ == ar_label(self@),
    {
        if self.ar_enabled {
            "AR ON"
        } else {
            "AR OFF"
        }
    }

    pub fn virtual_camera_text(&self) -> (text: &'static str)
        ensures
            text@ == if self@.virtual_webcam {
                "VIRTUAL CAMERA ON"@
            } else {
                "VIRTUAL CAMERA OFF"@
            },
            text@ == virtual_camera_label(self@),
    {
        if self.virtual_webcam {
            "VIRTUAL CAMERA ON"
        } else {
            "VIRTUAL CAMERA OFF"
        }
    }

    /// The button above the picture that switches the comparison.
    pub fn compare_button(&self) -> (text: &'static str)
        ensures
            text@ == if self@.compare {
                "Enhanced view"@
            } else {
                "A/B compare"@
            },
            text@ == compare_label(self@),
    {
        if self.compare {
            "Enhanced view"
        } else {
            "A/B compare"
        }
    }

    /// The button among the quick controls that switches the comparison.
    pub fn quick_compare_button(&self) -> (text: &'static str)
        ensures
            text@ == if self@.compare {
                "Enhanced"@
            } else {
                "Compare"@
            },
            text@ == quick_compare_label(self@),
    {
        if self.compare {
            "Enhanced"
        } else {
            "Compare"
        }
    }

    pub fn freeze_button(&self) -> (text: &'static str)
        ensures
            text@ == if self@.frozen {
                "Resume"@
            } else {
                "Freeze"@
            },
            text@ == freeze_label(self@),
    {
        if self.frozen {
            "Resume"
        } else {
            "Freeze"
        }
    }

    pub fn output_text(&self) -> (text: &'static str)
        ensures
            text@ == if self@.compare {
                "A/B comparison"@
            } else {
                "Enhanced only"@
            },
            text@ == output_label(self@),
    {
        if self.compare {
            "A/B comparison"
        } else {
            "Enhanced only"
        }
    }

    pub fn preview_title(&self) -> (text: &'static str)
        ensures
            text@ == if self@.compare {
                "Before / After"@
            } else {
                "Live enhanced preview"@
            },
            text@ == preview_label(self@),
    {
        if self.compare {
            "Before / After"
        } else {
            "Live enhanced preview"
        }
    }

    /// The dimensions of the picture that is shown.
    pub fn size_text(&self) -> (text: String)
        ensures
            text@ == decimal(shown_size(self@).0 as nat) + " × "@ + decimal(
                shown_size(self@).1 as nat,
            ),
    {
        let (width, height): (u32, u32) = match &self.pair {
            Some(pair) => (pair.enhanced.width(), pair.enhanced.height()),
            None => (0, 0),
        };
        join3(
            decimal_text(width as u64).as_str(),
            " × ",
            decimal_text(height as u64).as_str(),
        )
    }

    /// What stands for the list of cameras: nothing if the list can be shown, else that
    /// cameras are being looked for.
    pub fn detecting_text(&self) -> (text: Option<&'static str>)
        ensures
            match text {
                Some(t) => self@.cameras.len() == 0 && t@ == "Detecting cameras…"@,
                None => self@.cameras.len() > 0,
            },
    {
        if self.cameras.len() == 0 {
            Some("Detecting cameras…")
        } else {
            None
        }
    }

    /// The name of the selected camera.
    pub fn camera_name(&self) -> (name: &str)
        ensures
            name@ == if self@.selected_camera < self@.cameras.len() {
                self@.cameras[self@.selected_camera as int].name@
            } else {
                "Unknown camera"@
            },
            name@ == camera_label(self@),
    {
        if self.selected_camera < self.cameras.len() {
            self.cameras[self.selected_camera].name.as_str()
        } else {
            "Unknown camera"
        }
    }

    /// The name of the selected sample.
    pub fn sample_name(&self) -> (name: &str)
        ensures
            name@ == if self@.selected_face_sample < self@.face_samples.len() {
                self@.face_samples[self@.selected_face_sample as int].name@
            } else {
                "No sample"@
            },
            name@ == sample_label(self@),
    {
        if self.selected_face_sample < self.face_samples.len() {
            self.face_samples[self.selected_face_sample].name.as_str()
        } else {
            "No sample"
        }
    }

    pub fn ar_status_label(&self) -> (text: String)
        ensures
            text@ == "Status: "@ + ar_status_text(self@.ar_status),
    {
        join2("Status: ", self.ar_status.text().as_str())
    }

    pub fn nextface_status_label(&self) -> (text: String)
        ensures
            text@ == "Status: "@ + nextface_status_text(self@.nextface_status),
    {
        join2("Status: ", self.nextface_status.text().as_str())
    }

    pub fn sample_status_label(&self) -> (text: String)
        ensures
            text@ == "Status: "@ + sample_status_text(self@.face_sample_status),
    {
        join2("Status: ", self.face_sample_status.text().as_str())
    }

    pub fn frames_label(&self) -> (text: String)
        ensures
            text@ == "Frames processed: "@ + decimal(self@.frames as nat),
    {
        join2("Frames processed: ", decimal_text(self.frames).as_str())
    }

    /// How many landmarks the tracked faces have in all, if that can be counted.
    pub fn landmark_total(&self) -> (total: Option<usize>)
        ensures
            match total {
                Some(n) => n == landmark_count(self@.face_tracks),
                None => landmark_count(self@.face_tracks) > usize::MAX,
            },
    {
        let mut total: usize = 0;
        let mut i: usize = 0;
        while i < self.face_tracks.len()
            invariant
                i <= self.face_tracks@.len(),
                total == landmark_count(self.face_tracks@.take(i as int)),
            decreases self.face_tracks@.len() - i,
        {
            assert(self.face_tracks@.take(i + 1).drop_last() =~= self.face_tracks@.take(i as int));
            match total.checked_add(self.face_tracks[i].landmarks.len()) {
                Some(sum) => {
                    total = sum;
                },
                None => {
                    proof {
                        lemma_more_tracks_more_landmarks(self.face_tracks@, i + 1);
                    }
                    return None;
                },
            }
            i = i + 1;
        }
        assert(self.face_tracks@.take(i as int) =~= self.face_tracks@);
        Some(total)
    }

    /// How many faces and, with so many landmarks in all, landmarks are tracked.
    pub fn tracked_text(&self, landmarks: usize) -> (text: String)
        ensures
            text@ == decimal(self@.face_tracks.len()) + " tracked face(s), "@ + decimal(
                landmarks as nat,
            ) + " landmarks"@,
    {
        join4(
            decimal_text(self.face_tracks.len() as u64).as_str(),
            " tracked face(s), ",
            decimal_text(landmarks as u64).as_str(),
            " landmarks",
        )
    }

    /// The error that is shown among the controls, if there is one.
    pub fn error_label(&self) -> (text: Option<String>)
        ensures
            match text {
                Some(t) => shown_error(self@) == Some(t@),
                None => shown_error(self@) is None,
            },
    {
        match &self.error {
            Some(error) => Some(join2("Camera: ", error.text().as_str())),
            None => None,
        }
    }

    /// The error that is shown in place of a picture, if there is one.
    pub fn waiting_error(&self) -> (text: Option<String>)
        ensures
            match (text, self@.error) {
                (Some(t), Some(error)) => t@ == app_error_text(error),
                (None, None) => true,
                _ => false,
            },
    {
        match &self.error {
            Some(error) => Some(error.text()),
            None => None,
        }
    }

    /// What the middle of the window shows.
    pub fn preview(&self) -> (preview: Preview)
        ensures
            preview == preview_of(self@),
    {
        if !self.textures {
            Preview::Waiting
        } else if self.compare {
            Preview::Comparison
        } else {
            Preview::Enhanced { with_faces: self.ar_enabled && self.face_tracks.len() > 0 }
        }
    }
}

impl FaceTrack {
    /// What is written at the face's box.
    pub fn label(&self) -> (text: String)
        ensures
            text@ == "FACE · "@ + decimal(self.landmarks@.len()) + " landmarks"@,
    {
        join3("FACE · ", decimal_text(self.landmarks.len() as u64).as_str(), " landmarks")
    }
}

proof fn lemma_more_tracks_more_landmarks(tracks: Seq<FaceTrack>, n: int)
    requires
        0 <= n <= tracks.len(),
    ensures
        landmark_count(tracks.take(n)) <= landmark_count(tracks),
    decreases tracks.len(),
{
    if n < tracks.len() {
        assert(tracks.take(n) =~= tracks.drop_last().take(n));
        lemma_more_tracks_more_landmarks(tracks.drop_last(), n);
    } else {
        assert(tracks.take(n) =~= tracks);
    }
}

/// While there is a picture it is shown, and while there is none the window waits.
pub proof fn law_picture_is_shown(app: AppView)
    requires
        app.wf(),
    ensures
        preview_of(app) == Preview::Waiting <==> app.pair is None,
{
}

/// An error of the camera is shown from when it is told until a later one is.
pub proof fn law_camera_errors_are_shown(app: AppView, events: Seq<CameraEvent>, k: int)
    requires
        0 <= k < events.len(),
        events[k] is Error,
        forall|j: int| k < j < events.len() ==> !(#[trigger] events[j] is Error),
    ensures
        shown_error(after_events(app, events).0) == Some(
            "Camera: "@ + capture_message(events[k]->Error_0),
        ),
{
    crate::frame_update::law_last_error_is_kept(app, events, k);
}

/// The window never speaks of an unknown camera while there are cameras to choose from.
pub proof fn law_selected_camera_is_known(app: AppView)
    requires
        app.wf(),
        app.cameras.len() > 0,
    ensures
        app.selected_camera < app.cameras.len(),
{
}

/// While there is a picture, the raw and the enhanced one stand side by side exactly while
/// the comparison is on, and otherwise the enhanced one is shown, with faces on it exactly
/// while they are tracked and there is at least one. Without a picture the window waits.
pub proof fn law_preview_follows_the_comparison(app: AppView)
    ensures
        app.textures ==> (preview_of(app) == Preview::Comparison <==> app.compare),
        app.textures && !app.compare ==> preview_of(app) is Enhanced,
        app.textures && !app.compare ==> (preview_of(app) == (Preview::Enhanced {
            with_faces: true,
        }) <==> app.ar_enabled && app.face_tracks.len() >= 1),
        !app.textures ==> preview_of(app) == Preview::Waiting,
{
}

/// Switching the comparison changes what is shown whenever there is a picture, and twice
/// changes nothing; faces are of no account to the comparison.
pub proof fn law_comparison_can_be_seen(app: AppView, other: AppView)
    requires
        app.textures,
        other == (AppView { compare: !app.compare, ..app }),
    ensures
        preview_of(app) != preview_of(other),
        preview_of(AppView { ar_enabled: !app.ar_enabled, compare: true, ..app })
            == Preview::Comparison,
        preview_of(AppView { face_tracks: seq![], compare: true, ..app }) == Preview::Comparison,
{
}

/// A count is written with its number, and its noun has an "s" unless there is just one.
pub proof fn law_counted(count: nat, noun: Seq<char>)
    ensures
        count == 1 ==> counted(count, noun) == decimal(1) + " "@ + noun,
        count != 1 ==> counted(count, noun) == decimal(count) + " "@ + noun + "s"@,
{
    reveal_strlit("");
    assert(decimal(1) + " "@ + noun + ""@ =~= decimal(1) + " "@ + noun);
}

/// The landmarks of two groups of faces are counted together, and those of a single face are
/// its own.
pub proof fn law_landmarks_add_up(first: Seq<FaceTrack>, second: Seq<FaceTrack>, track: FaceTrack)
    ensures
        landmark_count(first + second) == landmark_count(first) + landmark_count(second),
        landmark_count(seq![track]) == track.landmarks@.len(),
        landmark_count(seq![]) == 0,
    decreases second.len(),
{
    reveal_with_fuel(landmark_count, 2);
    assert(seq![track].drop_last() =~= Seq::<FaceTrack>::empty());
    if second.len() == 0 {
        assert(first + second =~= first);
    } else {
        assert((first + second).drop_last() =~= first + second.drop_last());
        assert((first + second).last() == second.last());
        law_landmarks_add_up(first, second.drop_last(), track);
    }
}

/// The size that is shown is that of the enhanced frame, and nought by nought without one.
pub proof fn law_shown_size(app: AppView)
    ensures
        app.pair matches Some(pair) ==> shown_size(app).0 == pair.enhanced@.width && shown_size(
            app,
        ).1 == pair.enhanced@.height,
        app.pair is None ==> shown_size(app) == (0u32, 0u32),
{
}

/// An error is shown exactly while there is one, in its own words after "Camera: ".
pub proof fn law_errors_are_shown(app: AppView)
    ensures
        shown_error(app) is Some <==> app.error is Some,
        app.error matches Some(error) ==> shown_error(app) == Some(
            "Camera: "@ + app_error_text(error),
        ),
{
}

/// Each label follows its own switch, whatever the others are.
pub proof fn law_labels_follow_their_switches(app: AppView)
    ensures
        app.frozen ==> live_label(app) == "PAUSED"@,
        !app.frozen ==> live_label(app) == "LIVE"@,
        app.ar_enabled ==> ar_label(app) == "AR ON"@,
        !app.ar_enabled ==> ar_label(app) == "AR OFF"@,
        app.virtual_webcam ==> virtual_camera_label(app) == "VIRTUAL CAMERA ON"@,
        !app.virtual_webcam ==> virtual_camera_label(app) == "VIRTUAL CAMERA OFF"@,
        app.compare ==> compare_label(app) == "Enhanced view"@,
        !app.compare ==> compare_label(app) == "A/B compare"@,
        app.compare ==> quick_compare_label(app) == "Enhanced"@,
        !app.compare ==> quick_compare_label(app) == "Compare"@,
        app.frozen ==> freeze_label(app) == "Resume"@,
        !app.frozen ==> freeze_label(app) == "Freeze"@,
        app.compare ==> output_label(app) == "A/B comparison"@,
        !app.compare ==> output_label(app) == "Enhanced only"@,
        app.compare ==> preview_label(app) == "Before / After"@,
        !app.compare ==> preview_label(app) == "Live enhanced preview"@,
{
}

/// A selection within the list has the name that stands there, and one beyond it none.
pub proof fn law_selections_have_names(app: AppView, name: Seq<char>)
    ensures
        app.selected_camera < app.cameras.len() ==> (camera_label(app) == name
            <==> app.cameras[app.selected_camera as int].name@ == name),
        app.selected_camera >= app.cameras.len() ==> camera_label(app) == "Unknown camera"@,
        app.selected_face_sample < app.face_samples.len() ==> (sample_label(app) == name
            <==> app.face_samples[app.selected_face_sample as int].name@ == name),
        app.selected_face_sample >= app.face_samples.len() ==> sample_label(app) == "No sample"@,
{
}

} // verus!
