//! Face tracking: what is found in a frame, and the worker that looks for it.
//!
//! The program fetches and loads the model, writes frames to disk and runs the
//! detector. It reports what came of each step, and the worker says which is next.

use crate::frame::{FrameView, RgbFrame, SingleBits, scalable, scale, scaled_rgb};
use crate::text::{decimal, decimal_text, join2, join3};
use vstd::prelude::*;

verus! {

/// How many faces are looked for in a frame.
pub const MAX_FACES: u32 = 4;

/// Wider frames are scaled down to this width before faces are looked for.
pub const MAX_WIDTH: u32 = 640;

/// The time between two frames, as the detector is told, in milliseconds.
pub const FRAME_MILLISECONDS: i64 = 33;

/// A tracked face: its box in the source frame (left, top, width, height), and its
/// landmarks, relative to the frame's sides.
#[derive(Debug, PartialEq, Eq)]
pub struct FaceTrack {
    pub bbox: (SingleBits, SingleBits, SingleBits, SingleBits),
    pub landmarks: Vec<(SingleBits, SingleBits, SingleBits)>,
}

/// How face tracking is getting on.
#[derive(Debug, PartialEq, Eq)]
pub enum ArStatus {
    Off,
    Starting,
    Downloading,
    Unavailable(String),
    LoadFailed(String),
    Ready,
    PreparationFailed(String),
    /// With the number of faces.
    Active(usize),
    InferenceFailed(String),
}

/// The text that tells of a status.
pub open spec fn ar_status_text(status: ArStatus) -> Seq<char> {
    match status {
        ArStatus::Off => "AR off"@,
        ArStatus::Starting => "Starting MediaPipe Face Landmarker…"@,
        ArStatus::Downloading => "AR: downloading Face Landmarker model…"@,
        ArStatus::Unavailable(error) => "AR unavailable: "@ + error@,
        ArStatus::LoadFailed(error) => "AR Face Landmarker load failed: "@ + error@,
        ArStatus::Ready => "AR ready · dense face tracking"@,
        ArStatus::PreparationFailed(error) => "AR frame preparation failed: "@ + error@,
        ArStatus::Active(count) => "AR active · "@ + decimal(count as nat)
            + " face(s) · dense landmarks"@,
        ArStatus::InferenceFailed(error) => "AR inference failed: "@ + error@,
    }
}

impl ArStatus {
    pub fn text(&self) -> (text: String)
        ensures
            text@ == ar_status_text(*self),
    {
        match self {
            ArStatus::Off => "AR off".to_owned(),
            ArStatus::Starting => "Starting MediaPipe Face Landmarker…".to_owned(),
            ArStatus::Downloading => "AR: downloading Face Landmarker model…".to_owned(),
            ArStatus::Unavailable(error) => join2("AR unavailable: ", error.as_str()),
            ArStatus::LoadFailed(error) => join2("AR Face Landmarker load failed: ", error.as_str()),
            ArStatus::Ready => "AR ready · dense face tracking".to_owned(),
            ArStatus::PreparationFailed(error) => join2(
                "AR frame preparation failed: ",
                error.as_str(),
            ),
            ArStatus::Active(count) => join3(
                "AR active · ",
                decimal_text(*count as u64).as_str(),
                " face(s) · dense landmarks",
            ),
            ArStatus::InferenceFailed(error) => join2("AR inference failed: ", error.as_str()),
        }
    }
}

/// What the worker tells the application.
#[derive(Debug, PartialEq, Eq)]
pub enum ArReport {
    /// No faces are tracked, and this is why.
    Cleared(ArStatus),
    /// These faces are tracked.
    Found(Vec<FaceTrack>),
}

impl ArReport {
    /// The faces that are tracked.
    pub open spec fn tracks(self) -> Seq<FaceTrack> {
        match self {
            ArReport::Cleared(_) => seq![],
            ArReport::Found(tracks) => tracks@,
        }
    }

    /// How face tracking is getting on.
    pub open spec fn status(self) -> ArStatus {
        match self {
            ArReport::Cleared(status) => status,
            ArReport::Found(tracks) => ArStatus::Active(tracks@.len() as usize),
        }
    }

    /// The tracked faces and the status.
    pub fn into_parts(self) -> (parts: (Vec<FaceTrack>, ArStatus))
        ensures
            parts.0@ == self.tracks(),
            parts.1 == self.status(),
    {
        match self {
            ArReport::Cleared(status) => (Vec::new(), status),
            ArReport::Found(tracks) => {
                let count: usize = tracks.len();
                (tracks, ArStatus::Active(count))
            },
        }
    }
}

/// The worker: the time of the last frame that the detector was given.
#[derive(Debug, Clone, Copy, PartialEq, Eq, Structural)]
pub struct ArWorker {
    pub timestamp_ms: i64,
}

/// What came of a step of the worker.
#[derive(Debug, PartialEq, Eq)]
pub enum ArEvent {
    /// The worker begins; whether the model is on disk.
    Started { model_exists: bool },
    /// The model was downloaded, or not.
    Downloaded(Result<(), String>),
    /// The model was loaded, or not.
    Loaded(Result<(), String>),
    /// A frame was received, or there will be no more.
    Received { frame: bool },
    /// The frame was scaled and written to disk, or not.
    Saved(Result<(), String>),
    /// Faces were looked for.
    Detected(Result<Vec<FaceTrack>, String>),
}

/// What the worker does next.
#[derive(Debug, Clone, Copy, PartialEq, Eq, Structural)]
pub enum ArAction {
    Download,
    Load,
    /// Wait for a frame.
    Receive,
    /// Scale the frame and write it to disk.
    Prepare,
    /// Look for faces in the frame on disk, as of this time, and delete it.
    Detect { timestamp_ms: i64 },
    Finish,
}

/// What the program reports for the worker, and does next for it.
#[derive(Debug, PartialEq, Eq)]
pub struct ArStep {
    /// Told to the application first.
    pub report: Option<ArReport>,
    /// Whether to wait until the report is taken; where not, it is dropped if there is
    /// no room for it.
    pub wait: bool,
    pub action: ArAction,
}

/// What `event` makes of the worker, and the step that follows it.
pub open spec fn ar_next(w: ArWorker, event: ArEvent) -> (ArWorker, ArStep) {
    match event {
        ArEvent::Started { model_exists } => if model_exists {
            (w, quiet(ArAction::Load))
        } else {
            (w, told(ArStatus::Downloading, ArAction::Download))
        },
        ArEvent::Downloaded(Ok(_)) => (w, quiet(ArAction::Load)),
        ArEvent::Downloaded(Err(error)) => (
            w,
            told(ArStatus::Unavailable(error), ArAction::Finish),
        ),
        ArEvent::Loaded(Ok(_)) => (
            ArWorker { timestamp_ms: 0 },
            told(ArStatus::Ready, ArAction::Receive),
        ),
        ArEvent::Loaded(Err(error)) => (w, told(ArStatus::LoadFailed(error), ArAction::Finish)),
        ArEvent::Received { frame } => (
            w,
            quiet(
                if frame {
                    ArAction::Prepare
                } else {
                    ArAction::Finish
                },
            ),
        ),
        ArEvent::Saved(Ok(_)) => {
            let timestamp_ms = (w.timestamp_ms + FRAME_MILLISECONDS) as i64;
            (ArWorker { timestamp_ms }, quiet(ArAction::Detect { timestamp_ms }))
        },
        ArEvent::Saved(Err(error)) => (
            w,
            offered(ArReport::Cleared(ArStatus::PreparationFailed(error))),
        ),
        ArEvent::Detected(Ok(tracks)) => (w, offered(ArReport::Found(tracks))),
        ArEvent::Detected(Err(error)) => (
            w,
            offered(ArReport::Cleared(ArStatus::InferenceFailed(error))),
        ),
    }
}

/// A step without a report.
pub open spec fn quiet(action: ArAction) -> ArStep {
    ArStep { report: None, wait: false, action }
}

/// A step whose report must be taken.
pub open spec fn told(status: ArStatus, action: ArAction) -> ArStep {
    ArStep { report: Some(ArReport::Cleared(status)), wait: true, action }
}

/// A step whose report may be dropped, and after which the next frame is awaited.
pub open spec fn offered(report: ArReport) -> ArStep {
    ArStep { report: Some(report), wait: false, action: ArAction::Receive }
}

impl ArWorker {
    pub fn new() -> (worker: ArWorker)
        ensures
            worker == (ArWorker { timestamp_ms: 0 }),
    {
        ArWorker { timestamp_ms: 0 }
    }

    /// Takes one step of tracking faces.
    pub fn advance(&mut self, event: ArEvent) -> (step: ArStep)
        requires
            event matches ArEvent::Saved(Ok(_)) ==> old(self).timestamp_ms + FRAME_MILLISECONDS
                <= i64::MAX,
        ensures
            (*final(self), step) == ar_next(*old(self), event),
    {
        match event {
            ArEvent::Started { model_exists } => if model_exists {
                ArStep { report: None, wait: false, action: ArAction::Load }
            } else {
                ArStep {
                    report: Some(ArReport::Cleared(ArStatus::Downloading)),
                    wait: true,
                    action: ArAction::Download,
                }
            },
            ArEvent::Downloaded(outcome) => match outcome {
                Ok(_) => ArStep { report: None, wait: false, action: ArAction::Load },
                Err(error) => ArStep {
                    report: Some(ArReport::Cleared(ArStatus::Unavailable(error))),
                    wait: true,
                    action: ArAction::Finish,
                },
            },
            ArEvent::Loaded(outcome) => match outcome {
                Ok(_) => {
                    self.timestamp_ms = 0;
                    ArStep {
                        report: Some(ArReport::Cleared(ArStatus::Ready)),
                        wait: true,
                        action: ArAction::Receive,
                    }
                },
                Err(error) => ArStep {
                    report: Some(ArReport::Cleared(ArStatus::LoadFailed(error))),
                    wait: true,
                    action: ArAction::Finish,
                },
            },
            ArEvent::Received { frame } => ArStep {
                report: None,
                wait: false,
                action: if frame {
                    ArAction::Prepare
                } else {
                    ArAction::Finish
                },
            },
            ArEvent::Saved(outcome) => match outcome {
                Ok(_) => {
                    self.timestamp_ms = self.timestamp_ms + FRAME_MILLISECONDS;
                    ArStep {
                        report: None,
                        wait: false,
                        action: ArAction::Detect { timestamp_ms: self.timestamp_ms },
                    }
                },
                Err(error) => ArStep {
                    report: Some(ArReport::Cleared(ArStatus::PreparationFailed(error))),
                    wait: false,
                    action: ArAction::Receive,
                },
            },
            ArEvent::Detected(outcome) => match outcome {
                Ok(tracks) => ArStep {
                    report: Some(ArReport::Found(tracks)),
                    wait: false,
                    action: ArAction::Receive,
                },
                Err(error) => ArStep {
                    report: Some(ArReport::Cleared(ArStatus::InferenceFailed(error))),
                    wait: false,
                    action: ArAction::Receive,
                },
            },
        }
    }
}

/// The frame in which faces are looked for: a narrow frame itself, a wide one scaled
/// down to [`MAX_WIDTH`] and to `height`, but at least one row.
pub open spec fn prepared(source: FrameView, height: u32) -> FrameView {
    if source.width > MAX_WIDTH {
        let rows = if height == 0 {
            1
        } else {
            height
        };
        FrameView {
            width: MAX_WIDTH,
            height: rows,
            pixels: scaled_rgb(source.width, source.height, source.rgb(), MAX_WIDTH, rows),
        }
    } else {
        source
    }
}

/// The frame in which faces are looked for. `height` is what the frame's height comes
/// to when its width is scaled to [`MAX_WIDTH`].
pub fn prepare_frame(source: &RgbFrame, height: u32) -> (small: RgbFrame)
    requires
        source@.width > MAX_WIDTH ==> scalable(
            source@.width,
            source@.height,
            MAX_WIDTH,
            if height == 0 {
                1
            } else {
                height
            },
        ),
    ensures
        small@ == prepared(source@, height),
        small@.wf(),
        source@.width > 0 ==> 0 < small@.width <= MAX_WIDTH,
{
    if source.width() > MAX_WIDTH {
        let rows: u32 = if height == 0 {
            1
        } else {
            height
        };
        scale(source, MAX_WIDTH, rows)
    } else {
        source.duplicate()
    }
}

/// The worker after a number of events.
pub open spec fn ar_run(w: ArWorker, events: Seq<ArEvent>) -> ArWorker
    decreases events.len(),
{
    if events.len() == 0 {
        w
    } else {
        ar_next(ar_run(w, events.drop_last()), events.last()).0
    }
}

/// How many of the events tell of a frame that was written to disk.
pub open spec fn saved_count(events: Seq<ArEvent>) -> nat
    decreases events.len(),
{
    if events.len() == 0 {
        0
    } else {
        saved_count(events.drop_last()) + if events.last() matches ArEvent::Saved(Ok(_)) {
            1nat
        } else {
            0nat
        }
    }
}

/// Once the model is loaded, the detector's time is the number of frames that reached
/// it, times the time between two frames. So it grows from each of them to the next,
/// and frames that could not be prepared leave it as it is.
pub proof fn law_detector_time(w: ArWorker, events: Seq<ArEvent>)
    requires
        forall|i: int| 0 <= i < events.len() ==> !(#[trigger] events[i] is Loaded),
        w.timestamp_ms == 0,
        saved_count(events) * FRAME_MILLISECONDS <= i64::MAX,
    ensures
        ar_run(w, events).timestamp_ms == saved_count(events) * FRAME_MILLISECONDS,
    decreases events.len(),
{
    if events.len() > 0 {
        let before = events.drop_last();
        assert forall|i: int| 0 <= i < before.len() implies !(#[trigger] before[i] is Loaded) by {
            assert(before[i] == events[i]);
        }
        assert(saved_count(before) <= saved_count(events));
        law_detector_time(w, before);
        assert(!(events[events.len() - 1] is Loaded));
    }
}

/// A worker that cannot get or load its model says why and ends; in every other state
/// a failure is told and the next frame is awaited.
pub proof fn law_failures_are_told(w: ArWorker, error: String)
    ensures
        ar_next(w, ArEvent::Downloaded(Err(error))).1 == told(
            ArStatus::Unavailable(error),
            ArAction::Finish,
        ),
        ar_next(w, ArEvent::Loaded(Err(error))).1 == told(
            ArStatus::LoadFailed(error),
            ArAction::Finish,
        ),
        ar_next(w, ArEvent::Saved(Err(error))) == (
            w,
            offered(ArReport::Cleared(ArStatus::PreparationFailed(error))),
        ),
        ar_next(w, ArEvent::Detected(Err(error))) == (
            w,
            offered(ArReport::Cleared(ArStatus::InferenceFailed(error))),
        ),
{
}

/// The worker begins with its model: it loads the one on disk, and downloads one first, which
/// it tells, exactly where there is none. A model that is there or has come is loaded.
pub proof fn law_worker_gets_its_model(w: ArWorker, model_exists: bool)
    ensures
        ({
            let (next, step) = ar_next(w, ArEvent::Started { model_exists });
            &&& next == w
            &&& step.action == ArAction::Load <==> model_exists
            &&& step.action == ArAction::Download <==> !model_exists
            &&& model_exists ==> step.report is None
            &&& !model_exists ==> step.report == Some(ArReport::Cleared(ArStatus::Downloading))
                && step.wait
        }),
        ({
            let (next, step) = ar_next(w, ArEvent::Downloaded(Ok(())));
            next == w && step.action == ArAction::Load && step.report is None
        }),
        ({
            let (next, step) = ar_next(w, ArEvent::Loaded(Ok(())));
            &&& next.timestamp_ms == 0
            &&& step.action == ArAction::Receive
            &&& step.report == Some(ArReport::Cleared(ArStatus::Ready))
            &&& step.wait
        }),
{
}

/// A frame that is received is prepared, and the worker ends when there will be no more. A
/// frame that is on disk is looked at with a time that is later than the one before by the
/// time between two frames.
pub proof fn law_worker_takes_a_frame(w: ArWorker, frame: bool)
    requires
        w.timestamp_ms <= i64::MAX - 33,
    ensures
        ({
            let (next, step) = ar_next(w, ArEvent::Received { frame });
            &&& next == w
            &&& step.report is None
            &&& step.action == ArAction::Prepare <==> frame
            &&& step.action == ArAction::Finish <==> !frame
        }),
        ({
            let (next, step) = ar_next(w, ArEvent::Saved(Ok(())));
            &&& next.timestamp_ms == w.timestamp_ms + 33
            &&& step.action == (ArAction::Detect { timestamp_ms: next.timestamp_ms })
            &&& step.report is None
        }),
{
}

/// The faces that are found are offered as they are, without waiting, and the next frame is
/// awaited; no result of the detector changes its time.
pub proof fn law_worker_offers_what_it_finds(w: ArWorker, tracks: Vec<FaceTrack>)
    ensures
        ({
            let (next, step) = ar_next(w, ArEvent::Detected(Ok(tracks)));
            &&& next == w
            &&& step.report is Some
            &&& step.report->0.tracks() == tracks@
            &&& step.report->0.status() == ArStatus::Active(tracks@.len() as usize)
            &&& !step.wait
            &&& step.action == ArAction::Receive
        }),
{
}

/// Failures are told whole: those that end the worker wait to be taken, those of a single
/// frame do not, leave the detector's time, and are followed by the next frame.
pub proof fn law_worker_failures(w: ArWorker, error: String)
    ensures
        ({
            let (next, step) = ar_next(w, ArEvent::Downloaded(Err(error)));
            &&& next == w
            &&& step.report == Some(ArReport::Cleared(ArStatus::Unavailable(error)))
            &&& step.wait
            &&& step.action == ArAction::Finish
        }),
        ({
            let (next, step) = ar_next(w, ArEvent::Loaded(Err(error)));
            &&& next == w
            &&& step.report == Some(ArReport::Cleared(ArStatus::LoadFailed(error)))
            &&& step.wait
            &&& step.action == ArAction::Finish
        }),
        ({
            let (next, step) = ar_next(w, ArEvent::Saved(Err(error)));
            &&& next == w
            &&& step.report == Some(ArReport::Cleared(ArStatus::PreparationFailed(error)))
            &&& !step.wait
            &&& step.action == ArAction::Receive
        }),
        ({
            let (next, step) = ar_next(w, ArEvent::Detected(Err(error)));
            &&& next == w
            &&& step.report == Some(ArReport::Cleared(ArStatus::InferenceFailed(error)))
            &&& !step.wait
            &&& step.action == ArAction::Receive
        }),
{
}

/// A report without faces has none and its own status; one with faces has those and their
/// number.
pub proof fn law_report_contents(status: ArStatus, tracks: Vec<FaceTrack>)
    ensures
        ArReport::Cleared(status).tracks().len() == 0,
        ArReport::Cleared(status).status() == status,
        ArReport::Found(tracks).tracks() == tracks@,
        ArReport::Found(tracks).status() == ArStatus::Active(tracks@.len() as usize),
{
}

/// A frame of at most 640 columns is looked at as it is. A wider one is scaled to 640 columns
/// and to the given number of rows, or to one where none is given.
pub proof fn law_frames_are_prepared(source: FrameView, height: u32)
    ensures
        source.width <= 640 ==> prepared(source, height) == source,
        source.width > 640 ==> prepared(source, height).width == 640,
        source.width > 640 && height >= 1 ==> prepared(source, height).height == height,
        source.width > 640 && height == 0 ==> prepared(source, height).height == 1,
        source.width > 640 ==> prepared(source, height).pixels == scaled_rgb(
            source.width,
            source.height,
            source.rgb(),
            prepared(source, height).width,
            prepared(source, height).height,
        ),
{
}

/// Statuses are told in these words, with the text or the number that comes with them whole.
pub proof fn law_tracking_texts(text: String, count: usize)
    ensures
        ar_status_text(ArStatus::Off) == "AR off"@,
        ar_status_text(ArStatus::Starting) == "Starting MediaPipe Face Landmarker…"@,
        ar_status_text(ArStatus::Downloading) == "AR: downloading Face Landmarker model…"@,
        ar_status_text(ArStatus::Ready) == "AR ready · dense face tracking"@,
        ar_status_text(ArStatus::Unavailable(text)) == "AR unavailable: "@ + text@,
        ar_status_text(ArStatus::LoadFailed(text)) == "AR Face Landmarker load failed: "@ + text@,
        ar_status_text(ArStatus::PreparationFailed(text)) == "AR frame preparation failed: "@
            + text@,
        ar_status_text(ArStatus::InferenceFailed(text)) == "AR inference failed: "@ + text@,
        ar_status_text(ArStatus::Active(count)) == "AR active · "@ + decimal(count as nat)
            + " face(s) · dense landmarks"@,
{
}

} // verus!
