//! What the user's actions, and what comes of them, make of the application's state.

use crate::ar::ArStatus;
use crate::camera::CameraCommand;
use crate::camera_app::{AppError, AppView, CameraApp, FaceSample, SampleStatus};
use crate::nextface::{NextFaceStatus, output_name};
use crate::text::{decimal, is_stem_char, is_trimmed, lowercase, picture_file_name, slug, trim};
use vstd::prelude::*;

verus! {

/// A reconstruction to begin with the present frame.
#[derive(Debug, PartialEq, Eq)]
pub struct Reconstruction {
    /// NextFace's directory.
    pub root: String,
    /// The Python interpreter.
    pub python: String,
    /// The name of the output's directory.
    pub output: String,
}

/// A sample to download.
#[derive(Debug, PartialEq, Eq)]
pub struct SampleRequest {
    pub file: String,
    pub url: String,
}

/// The state once the comparison is switched on or off.
pub open spec fn compare_toggled(app: AppView) -> AppView {
    AppView { compare: !app.compare, ..app }
}

/// The state once the picture is frozen or released.
pub open spec fn frozen_toggled(app: AppView) -> AppView {
    AppView { frozen: !app.frozen, ..app }
}

/// The state once the camera at `index` of the list is selected. If there is one, the
/// picture and the error of the camera before go.
pub open spec fn camera_selected(app: AppView, index: usize) -> AppView {
    let selected = AppView { selected_camera: index, ..app };
    if index < app.cameras.len() {
        AppView { pair: None, textures: false, error: None, ..selected }
    } else {
        selected
    }
}

/// What the capture loop is told when the camera at `index` of the list is selected.
pub open spec fn selection_command(app: AppView, index: usize) -> Option<CameraCommand> {
    if index < app.cameras.len() {
        Some(CameraCommand::Select(app.cameras[index as int].index))
    } else {
        None
    }
}

/// The state once face tracking is switched on or off.
pub open spec fn ar_switched(app: AppView, enabled: bool) -> AppView {
    if enabled {
        AppView { ar_enabled: true, ar_status: ArStatus::Starting, ..app }
    } else {
        AppView { ar_enabled: false, ar_status: ArStatus::Off, face_tracks: seq![], ..app }
    }
}

/// The state once the virtual camera was to be registered.
pub open spec fn registration_done(app: AppView, outcome: Result<(), String>) -> AppView {
    match outcome {
        Ok(_) => AppView { error: None, ..app },
        Err(text) => AppView { error: Some(AppError::Registration(text)), ..app },
    }
}

/// The state once the virtual camera was to be unregistered.
pub open spec fn unregistration_done(app: AppView, outcome: Result<(), String>) -> AppView {
    match outcome {
        Ok(_) => AppView { virtual_webcam: false, ..app },
        Err(text) => AppView { error: Some(AppError::Registration(text)), ..app },
    }
}

/// The state once a reconstruction is asked for: an earlier mesh goes, and where there is
/// no frame the status says so.
pub open spec fn reconstruction_asked(app: AppView) -> AppView {
    let cleared = AppView { nextface_mesh: None, ..app };
    if app.pair is Some {
        cleared
    } else {
        AppView { nextface_status: NextFaceStatus::NoFrame, ..cleared }
    }
}

/// The state once the frame was to be saved for a reconstruction with this output.
pub open spec fn frame_stored(
    app: AppView,
    outcome: Result<(), String>,
    output: String,
) -> AppView {
    AppView {
        nextface_status: match outcome {
            Ok(_) => NextFaceStatus::Starting(output),
            Err(text) => NextFaceStatus::SaveFailed(text),
        },
        ..app
    }
}

/// The sample that is selected, if there is one.
pub open spec fn selected_sample(app: AppView) -> Option<FaceSample> {
    if app.selected_face_sample < app.face_samples.len() {
        Some(app.face_samples[app.selected_face_sample as int])
    } else {
        None
    }
}

/// Whether `file` is the file name of the picture called `name`: its slug in lower case,
/// which holds nothing but lower-case ASCII letters, digits and hyphens, and an extension.
pub open spec fn names_picture(file: Seq<char>, name: Seq<char>) -> bool {
    &&& file == slug(lowercase(name)) + ".jpg"@
    &&& forall|i: int|
        0 <= i < slug(lowercase(name)).len() ==> is_stem_char(#[trigger] slug(lowercase(name))[i])
}

/// The state once the selected sample is asked for.
pub open spec fn sample_asked(app: AppView) -> AppView {
    match selected_sample(app) {
        Some(sample) => AppView {
            face_sample_status: SampleStatus::Downloading(sample.name),
            ..app
        },
        None => app,
    }
}

impl CameraApp {
    /// Switches the comparison on or off.
    pub fn toggle_compare(&mut self)
        ensures
            final(self)@ == compare_toggled(old(self)@),
    {
        self.compare = !self.compare;
    }

    /// Freezes the picture or releases it.
    pub fn toggle_frozen(&mut self)
        ensures
            final(self)@ == frozen_toggled(old(self)@),
    {
        self.frozen = !self.frozen;
    }

    /// Selects the camera at `index` of the list. The command that is returned goes to
    /// the capture loop, and the textures go with the picture.
    pub fn select_camera(&mut self, index: usize) -> (command: Option<CameraCommand>)
        ensures
            final(self)@ == camera_selected(old(self)@, index),
            command == (if index < old(self)@.cameras.len() {
                Some(CameraCommand::Select(old(self)@.cameras[index as int].index))
            } else {
                None
            }),
            command == selection_command(old(self)@, index),
    {
        self.selected_camera = index;
        if index < self.cameras.len() {
            self.pair = None;
            self.textures = false;
            self.error = None;
            Some(CameraCommand::Select(self.cameras[index].index.duplicate()))
        } else {
            None
        }
    }

    /// Switches face tracking on or off.
    pub fn set_ar_enabled(&mut self, enabled: bool)
        ensures
            final(self)@ == ar_switched(old(self)@, enabled),
    {
        self.ar_enabled = enabled;
        if enabled {
            self.ar_status = ArStatus::Starting;
        } else {
            self.face_tracks = Vec::new();
            self.ar_status = ArStatus::Off;
        }
    }

    /// Takes note that a frame could not be handed to the virtual camera.
    pub fn publish_failed(&mut self, text: String)
        ensures
            final(self)@ == (AppView { error: Some(AppError::Ipc(text)), ..old(self)@ }),
    {
        self.error = Some(AppError::Ipc(text));
    }

    /// Takes note of what came of registering the virtual camera.
    pub fn registered(&mut self, outcome: Result<(), String>)
        ensures
            final(self)@ == registration_done(old(self)@, outcome),
    {
        match outcome {
            Ok(_) => {
                self.error = None;
            },
            Err(text) => {
                self.error = Some(AppError::Registration(text));
            },
        }
    }

    /// Takes note of what came of unregistering the virtual camera.
    pub fn unregistered(&mut self, outcome: Result<(), String>)
        ensures
            final(self)@ == unregistration_done(old(self)@, outcome),
    {
        match outcome {
            Ok(_) => {
                self.virtual_webcam = false;
            },
            Err(text) => {
                self.error = Some(AppError::Registration(text));
            },
        }
    }

    /// Asks for a reconstruction, so many seconds after the beginning of 1970. If there
    /// is a frame, the raw one of the present pair is to be saved for it.
    pub fn begin_reconstruction(&mut self, stamp: u64) -> (reconstruction: Option<Reconstruction>)
        ensures
            final(self)@ == reconstruction_asked(old(self)@),
            reconstruction is Some <==> old(self)@.pair is Some,
            reconstruction matches Some(r) ==> is_trimmed(old(self)@.nextface_root, r.root@)
                && is_trimmed(old(self)@.nextface_python, r.python@) && r.output@
                == "reconstruction-"@ + decimal(stamp as nat),
    {
        self.nextface_mesh = None;
        if self.pair.is_some() {
            Some(
                Reconstruction {
                    root: trim(self.nextface_root.as_str()),
                    python: trim(self.nextface_python.as_str()),
                    output: output_name(stamp),
                },
            )
        } else {
            self.nextface_status = NextFaceStatus::NoFrame;
            None
        }
    }

    /// Takes note of whether the frame for a reconstruction was saved. If so, the
    /// reconstruction is to be started, with this output.
    pub fn frame_saved(&mut self, outcome: Result<(), String>, output: String) -> (start: bool)
        ensures
            final(self)@ == frame_stored(old(self)@, outcome, output),
            start == (outcome is Ok),
    {
        match outcome {
            Ok(_) => {
                self.nextface_status = NextFaceStatus::Starting(output);
                true
            },
            Err(text) => {
                self.nextface_status = NextFaceStatus::SaveFailed(text);
                false
            },
        }
    }

    /// Selects the sample at `index` of the list.
    pub fn select_face_sample(&mut self, index: usize)
        ensures
            final(self)@ == (AppView { selected_face_sample: index, ..old(self)@ }),
    {
        self.selected_face_sample = index;
    }

    /// Asks for the selected sample.
    pub fn request_face_sample(&mut self) -> (request: Option<SampleRequest>)
        ensures
            final(self)@ == sample_asked(old(self)@),
            match (request, selected_sample(old(self)@)) {
                (Some(r), Some(sample)) => r.url == sample.url && names_picture(
                    r.file@,
                    sample.name@,
                ),
                (None, None) => true,
                _ => false,
            },
    {
        if self.selected_face_sample < self.face_samples.len() {
            let sample = &self.face_samples[self.selected_face_sample];
            let request = SampleRequest {
                file: picture_file_name(sample.name.as_str()),
                url: sample.url.clone(),
            };
            self.face_sample_status = SampleStatus::Downloading(sample.name.clone());
            Some(request)
        } else {
            None
        }
    }
}

/// Switching the comparison, or freezing the picture, twice leaves all as it was, and
/// the order of the two does not matter.
pub proof fn law_toggles_undo_themselves(app: AppView)
    ensures
        compare_toggled(compare_toggled(app)) == app,
        frozen_toggled(frozen_toggled(app)) == app,
        compare_toggled(frozen_toggled(app)) == frozen_toggled(compare_toggled(app)),
{
}

/// The user's actions leave the state well-formed, among them the selection of any camera
/// that was found.
pub proof fn law_actions_keep_the_state_well_formed(
    app: AppView,
    index: usize,
    flag: bool,
    outcome: Result<(), String>,
    text: String,
)
    requires
        app.wf(),
    ensures
        compare_toggled(app).wf(),
        frozen_toggled(app).wf(),
        index < app.cameras.len() ==> camera_selected(app, index).wf(),
        ar_switched(app, flag).wf(),
        registration_done(app, outcome).wf(),
        unregistration_done(app, outcome).wf(),
        reconstruction_asked(app).wf(),
        frame_stored(app, outcome, text).wf(),
        sample_asked(app).wf(),
{
}

/// Face tracking that is switched on and off again leaves no faces and no status behind.
pub proof fn law_ar_off_clears(app: AppView)
    ensures
        ar_switched(ar_switched(app, true), false) == ar_switched(app, false),
        ar_switched(app, false).face_tracks.len() == 0,
{
}

/// Unregistering the virtual camera stops the frames to it, and keeps an error that is
/// shown; registering it takes the error away and leaves the frames as they are.
pub proof fn law_registration(app: AppView, text: String)
    ensures
        !unregistration_done(app, Ok(())).virtual_webcam,
        unregistration_done(app, Ok(())).error == app.error,
        registration_done(app, Ok(())).error is None,
        registration_done(app, Ok(())).virtual_webcam == app.virtual_webcam,
        registration_done(app, Err(text)).error == Some(AppError::Registration(text)),
        unregistration_done(app, Err(text)) == registration_done(app, Err(text)),
{
}

/// The switches of the comparison and of the frozen picture turn one thing each.
pub proof fn law_toggles_turn_one_thing(app: AppView)
    ensures
        compare_toggled(app).compare != app.compare,
        compare_toggled(app) == (AppView { compare: compare_toggled(app).compare, ..app }),
        frozen_toggled(app).frozen != app.frozen,
        frozen_toggled(app) == (AppView { frozen: frozen_toggled(app).frozen, ..app }),
{
}

/// Selecting a camera selects it. If it is in the list, the picture, its textures and the
/// error go, whatever the state; if not, they stay. All else stays.
pub proof fn law_selecting_a_camera(app: AppView, index: usize)
    ensures
        ({
            let after = camera_selected(app, index);
            &&& after.selected_camera == index
            &&& index < app.cameras.len() ==> after.pair is None && !after.textures && after.error is None
            &&& index >= app.cameras.len() ==> after.pair == app.pair && after.textures
                == app.textures && after.error == app.error
            &&& after == (AppView {
                selected_camera: after.selected_camera,
                pair: after.pair,
                textures: after.textures,
                error: after.error,
                ..app
            })
        }),
{
}

/// Switching face tracking leaves it as asked: starting, with the faces as they were, or off,
/// with none. All else stays.
pub proof fn law_switching_face_tracking(app: AppView, enabled: bool)
    ensures
        ({
            let after = ar_switched(app, enabled);
            &&& after.ar_enabled == enabled
            &&& enabled ==> after.ar_status == ArStatus::Starting && after.face_tracks
                == app.face_tracks
            &&& !enabled ==> after.ar_status == ArStatus::Off && after.face_tracks.len() == 0
            &&& after == (AppView {
                ar_enabled: after.ar_enabled,
                ar_status: after.ar_status,
                face_tracks: after.face_tracks,
                ..app
            })
        }),
{
}

/// Registering touches nothing but the error, and unregistering nothing but the error and
/// the switch of the virtual camera: a failure is shown and turns no switch, a success takes
/// the error away or turns the switch off.
pub proof fn law_registration_outcomes(app: AppView, outcome: Result<(), String>)
    ensures
        ({
            let on = registration_done(app, outcome);
            let off = unregistration_done(app, outcome);
            &&& outcome is Ok ==> on.error is None
            &&& outcome is Ok ==> !off.virtual_webcam && off.error == app.error
            &&& outcome matches Err(text) ==> on.error == Some(AppError::Registration(text))
            &&& outcome matches Err(text) ==> off.error == Some(AppError::Registration(text))
                && off.virtual_webcam == app.virtual_webcam
            &&& on == (AppView { error: on.error, ..app })
            &&& off == (AppView { error: off.error, virtual_webcam: off.virtual_webcam, ..app })
        }),
{
}

/// Asking for a reconstruction takes an earlier mesh away, and touches the status only where
/// there is no frame to begin with.
pub proof fn law_asking_for_a_reconstruction(app: AppView)
    ensures
        ({
            let after = reconstruction_asked(app);
            &&& after.nextface_mesh is None
            &&& app.pair is Some ==> after.nextface_status == app.nextface_status
            &&& app.pair is None ==> after.nextface_status == NextFaceStatus::NoFrame
            &&& after == (AppView {
                nextface_mesh: after.nextface_mesh,
                nextface_status: after.nextface_status,
                ..app
            })
        }),
{
}

/// Whether the frame was saved is told, with the output's path or with the failure, and
/// touches nothing else.
pub proof fn law_saving_is_told(app: AppView, outcome: Result<(), String>, output: String)
    ensures
        ({
            let after = frame_stored(app, outcome, output);
            &&& outcome is Ok ==> after.nextface_status == NextFaceStatus::Starting(output)
            &&& outcome matches Err(text) ==> after.nextface_status == NextFaceStatus::SaveFailed(
                text,
            )
            &&& after == (AppView { nextface_status: after.nextface_status, ..app })
        }),
{
}

/// The sample that is asked for is the selected one of the list, under its own name, and none
/// where the selection is beyond the list. Nothing but what is told of the samples changes.
pub proof fn law_asking_for_a_sample(app: AppView)
    ensures
        ({
            let after = sample_asked(app);
            let index = app.selected_face_sample as int;
            &&& index < app.face_samples.len() ==> selected_sample(app) == Some(
                app.face_samples[index],
            ) && after.face_sample_status == SampleStatus::Downloading(
                app.face_samples[index].name,
            )
            &&& index >= app.face_samples.len() ==> selected_sample(app) is None && after == app
            &&& after == (AppView { face_sample_status: after.face_sample_status, ..app })
        }),
{
}

/// A picture's file is its name's slug in lower case and ".jpg", so that it begins with the
/// slug and ends with the extension, and has nothing besides.
pub proof fn law_picture_file(file: Seq<char>, name: Seq<char>)
    requires
        names_picture(file, name),
    ensures
        file.len() == slug(lowercase(name)).len() + 4,
        file.take(slug(lowercase(name)).len() as int) == slug(lowercase(name)),
        file.skip(slug(lowercase(name)).len() as int) == seq!['.', 'j', 'p', 'g'],
{
    reveal_strlit(".jpg");
    assert(file.take(slug(lowercase(name)).len() as int) =~= slug(lowercase(name)));
    assert(file.skip(slug(lowercase(name)).len() as int) =~= seq!['.', 'j', 'p', 'g']);
}

/// The capture loop is told of each selection from the list, by the reference of the camera
/// that stands there, and of no other.
pub proof fn law_selection_is_told(app: AppView, index: usize)
    ensures
        selection_command(app, index) is Some <==> index < app.cameras.len(),
        selection_command(app, index) matches Some(CameraCommand::Select(told)) ==> told
            == app.cameras[index as int].index,
{
}

} // verus!
