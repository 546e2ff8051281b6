//! Cameras, what they report, and the loop that captures from one of them.
//!
//! The program talks to the devices. It reports what came of each step, and the
//! loop says which step is next.

use crate::frame::{RgbFrame, SingleBits};
use crate::text::join2;
use vstd::prelude::*;

verus! {

/// How the system refers to a camera.
#[derive(Debug, PartialEq, Eq)]
pub enum CameraIndex {
    Number(u32),
    Name(String),
}

impl CameraIndex {
    pub fn duplicate(&self) -> (copy: CameraIndex)
        ensures
            copy == *self,
    {
        match self {
            CameraIndex::Number(number) => CameraIndex::Number(*number),
            CameraIndex::Name(name) => CameraIndex::Name(name.clone()),
        }
    }
}

/// A camera that was found.
#[derive(Debug, PartialEq, Eq)]
pub struct CameraInfo {
    pub index: CameraIndex,
    pub name: String,
}

/// Why capturing, or changing the camera, failed. The texts are the device's.
#[derive(Debug, PartialEq, Eq)]
pub enum CaptureError {
    NoBackend,
    Query(String),
    NoCameras,
    /// The first camera could not be started.
    Start(String),
    CreateSelected(String),
    OpenSelected(String),
    /// No frame could be read or decoded.
    Frame(String),
}

/// What the capture loop tells the application.
#[derive(Debug, PartialEq, Eq)]
pub enum CameraEvent {
    Cameras(Vec<CameraInfo>),
    /// A decoded frame, and how many milliseconds it took.
    Frame(RgbFrame, SingleBits),
    Error(CaptureError),
}

/// What the application tells the capture loop.
#[derive(Debug, PartialEq, Eq)]
pub enum CameraCommand {
    Select(CameraIndex),
}

/// The text that tells of a capture error.
pub open spec fn capture_message(error: CaptureError) -> Seq<char> {
    match error {
        CaptureError::NoBackend => "No camera backend is available on this system."@,
        CaptureError::Query(text) => text@,
        CaptureError::NoCameras => "No cameras were detected."@,
        CaptureError::Start(text) => text@,
        CaptureError::CreateSelected(text) => "Could not create selected camera: "@ + text@,
        CaptureError::OpenSelected(text) => "Could not open selected camera: "@ + text@,
        CaptureError::Frame(text) => text@,
    }
}

impl CaptureError {
    pub fn message(&self) -> (text: String)
        ensures
            text@ == capture_message(*self),
    {
        match self {
            CaptureError::NoBackend => "No camera backend is available on this system.".to_owned(),
            CaptureError::Query(text) => text.clone(),
            CaptureError::NoCameras => "No cameras were detected.".to_owned(),
            CaptureError::Start(text) => text.clone(),
            CaptureError::CreateSelected(text) => join2(
                "Could not create selected camera: ",
                text.as_str(),
            ),
            CaptureError::OpenSelected(text) => join2(
                "Could not open selected camera: ",
                text.as_str(),
            ),
            CaptureError::Frame(text) => text.clone(),
        }
    }
}

/// The capture loop: the camera that frames come from, and the one that is to take
/// its place.
#[derive(Debug, PartialEq, Eq)]
pub struct CaptureLoop {
    pub active: Option<CameraIndex>,
    pub candidate: Option<CameraIndex>,
}

/// What came of a step of the capture loop.
#[derive(Debug, PartialEq, Eq)]
pub enum CaptureEvent {
    /// The loop begins; whether the system has a camera backend.
    Started { backend: bool },
    Queried(Result<Vec<CameraInfo>, String>),
    Announced,
    /// The candidate was created, or not.
    Created(Result<(), String>),
    /// The candidate's stream was opened, or not.
    Opened(Result<(), String>),
    /// A command was waiting, or not.
    Polled(Option<CameraCommand>),
    Stopped,
    Reported,
    /// A frame was read and decoded, in so many milliseconds, or not.
    Captured(Result<(RgbFrame, SingleBits), String>),
    /// Whether anyone still takes frames.
    Sent { delivered: bool },
}

/// What the program does next to capture.
#[derive(Debug, PartialEq, Eq)]
pub enum CaptureStep {
    Query,
    /// Tell the application which cameras there are.
    Announce(Vec<CameraInfo>),
    /// Create the camera, for frames at the highest rate it offers.
    Create(CameraIndex),
    /// Open the stream of the camera that was created. If it opens, that camera is
    /// the one that frames come from.
    OpenStream,
    /// See whether a command is waiting.
    Poll,
    /// Stop the stream of the camera that frames come from.
    Stop,
    /// Tell the application of an error, and go on.
    Report(CaptureError),
    /// Read and decode a frame.
    Capture,
    /// Hand a frame to the application.
    Send(RgbFrame, SingleBits),
    /// The loop is over: tell the application of the error, if there is one.
    Finish(Option<CaptureError>),
}

/// The first camera of a list.
pub open spec fn first_camera(cameras: Seq<CameraInfo>) -> Option<CameraIndex> {
    if cameras.len() == 0 {
        None
    } else {
        Some(cameras[0].index)
    }
}

/// What `event` makes of the capture loop, and the step that follows it.
pub open spec fn capture_next(c: CaptureLoop, event: CaptureEvent) -> (CaptureLoop, CaptureStep) {
    let dropped = CaptureLoop { active: c.active, candidate: None };
    match event {
        CaptureEvent::Started { backend } => if backend {
            (c, CaptureStep::Query)
        } else {
            (c, CaptureStep::Finish(Some(CaptureError::NoBackend)))
        },
        CaptureEvent::Queried(Ok(cameras)) => (
            CaptureLoop { active: c.active, candidate: first_camera(cameras@) },
            CaptureStep::Announce(cameras),
        ),
        CaptureEvent::Queried(Err(text)) => (
            c,
            CaptureStep::Finish(Some(CaptureError::Query(text))),
        ),
        CaptureEvent::Announced => match c.candidate {
            Some(index) => (c, CaptureStep::Create(index)),
            None => (c, CaptureStep::Finish(Some(CaptureError::NoCameras))),
        },
        CaptureEvent::Created(Ok(_)) => (c, CaptureStep::OpenStream),
        CaptureEvent::Created(Err(text)) => if c.active is None {
            (dropped, CaptureStep::Finish(Some(CaptureError::Start(text))))
        } else {
            (dropped, CaptureStep::Report(CaptureError::CreateSelected(text)))
        },
        CaptureEvent::Opened(Ok(_)) => (
            CaptureLoop { active: c.candidate, candidate: None },
            if c.active is None {
                CaptureStep::Poll
            } else {
                CaptureStep::Capture
            },
        ),
        CaptureEvent::Opened(Err(text)) => if c.active is None {
            (dropped, CaptureStep::Finish(Some(CaptureError::Start(text))))
        } else {
            (dropped, CaptureStep::Report(CaptureError::OpenSelected(text)))
        },
        CaptureEvent::Polled(Some(CameraCommand::Select(index))) => (
            CaptureLoop { active: c.active, candidate: Some(index) },
            CaptureStep::Stop,
        ),
        CaptureEvent::Polled(None) => (c, CaptureStep::Capture),
        CaptureEvent::Stopped => match c.candidate {
            Some(index) => (c, CaptureStep::Create(index)),
            None => (c, CaptureStep::Poll),
        },
        CaptureEvent::Reported => (c, CaptureStep::Poll),
        CaptureEvent::Captured(Ok((frame, ms))) => (c, CaptureStep::Send(frame, ms)),
        CaptureEvent::Captured(Err(text)) => (
            c,
            CaptureStep::Finish(Some(CaptureError::Frame(text))),
        ),
        CaptureEvent::Sent { delivered } => if delivered {
            (c, CaptureStep::Poll)
        } else {
            (c, CaptureStep::Finish(None))
        },
    }
}

impl CaptureLoop {
    /// A loop that has not begun.
    pub fn new() -> (capture: CaptureLoop)
        ensures
            capture == (CaptureLoop { active: None, candidate: None }),
    {
        CaptureLoop { active: None, candidate: None }
    }

    fn create_candidate(&self, otherwise: CaptureStep) -> (step: CaptureStep)
        ensures
            step == match self.candidate {
                Some(index) => CaptureStep::Create(index),
                None => otherwise,
            },
    {
        match &self.candidate {
            Some(index) => CaptureStep::Create(index.duplicate()),
            None => otherwise,
        }
    }

    /// Takes one step of capturing.
    pub fn advance(&mut self, event: CaptureEvent) -> (step: CaptureStep)
        ensures
            (*final(self), step) == capture_next(*old(self), event),
    {
        match event {
            CaptureEvent::Started { backend } => if backend {
                CaptureStep::Query
            } else {
                CaptureStep::Finish(Some(CaptureError::NoBackend))
            },
            CaptureEvent::Queried(outcome) => match outcome {
                Ok(cameras) => {
                    self.candidate = if cameras.len() == 0 {
                        None
                    } else {
                        Some(cameras[0].index.duplicate())
                    };
                    CaptureStep::Announce(cameras)
                },
                Err(text) => CaptureStep::Finish(Some(CaptureError::Query(text))),
            },
            CaptureEvent::Announced => self.create_candidate(
                CaptureStep::Finish(Some(CaptureError::NoCameras)),
            ),
            CaptureEvent::Created(outcome) => match outcome {
                Ok(_) => CaptureStep::OpenStream,
                Err(text) => {
                    self.candidate = None;
                    if self.active.is_none() {
                        CaptureStep::Finish(Some(CaptureError::Start(text)))
                    } else {
                        CaptureStep::Report(CaptureError::CreateSelected(text))
                    }
                },
            },
            CaptureEvent::Opened(outcome) => match outcome {
                Ok(_) => {
                    let first: bool = self.active.is_none();
                    self.active = self.candidate.take();
                    if first {
                        CaptureStep::Poll
                    } else {
                        CaptureStep::Capture
                    }
                },
                Err(text) => {
                    self.candidate = None;
                    if self.active.is_none() {
                        CaptureStep::Finish(Some(CaptureError::Start(text)))
                    } else {
                        CaptureStep::Report(CaptureError::OpenSelected(text))
                    }
                },
            },
            CaptureEvent::Polled(command) => match command {
                Some(CameraCommand::Select(index)) => {
                    self.candidate = Some(index);
                    CaptureStep::Stop
                },
                None => CaptureStep::Capture,
            },
            CaptureEvent::Stopped => self.create_candidate(CaptureStep::Poll),
            CaptureEvent::Reported => CaptureStep::Poll,
            CaptureEvent::Captured(outcome) => match outcome {
                Ok((frame, ms)) => CaptureStep::Send(frame, ms),
                Err(text) => CaptureStep::Finish(Some(CaptureError::Frame(text))),
            },
            CaptureEvent::Sent { delivered } => if delivered {
                CaptureStep::Poll
            } else {
                CaptureStep::Finish(None)
            },
        }
    }
}

/// Whether `event` reports what came of `step`.
pub open spec fn answers(step: CaptureStep, event: CaptureEvent) -> bool {
    match step {
        CaptureStep::Query => event is Queried,
        CaptureStep::Announce(_) => event is Announced,
        CaptureStep::Create(_) => event is Created,
        CaptureStep::OpenStream => event is Opened,
        CaptureStep::Poll => event is Polled,
        CaptureStep::Stop => event is Stopped,
        CaptureStep::Report(_) => event is Reported,
        CaptureStep::Capture => event is Captured,
        CaptureStep::Send(_, _) => event is Sent,
        CaptureStep::Finish(_) => false,
    }
}

/// What holds of the loop whenever `step` is the next one.
pub open spec fn in_order(c: CaptureLoop, step: CaptureStep) -> bool {
    match step {
        CaptureStep::Query => c.active is None,
        CaptureStep::Announce(cameras) => c.active is None && c.candidate == first_camera(cameras@),
        CaptureStep::Create(index) => c.candidate == Some(index),
        CaptureStep::OpenStream => c.candidate is Some,
        CaptureStep::Stop => c.active is Some && c.candidate is Some,
        CaptureStep::Poll | CaptureStep::Report(_) | CaptureStep::Capture | CaptureStep::Send(
            _,
            _,
        ) => c.active is Some && c.candidate is None,
        CaptureStep::Finish(_) => true,
    }
}

/// The loop begins in order.
pub proof fn law_capture_begins_in_order(backend: bool)
    ensures
        ({
            let fresh = CaptureLoop { active: None, candidate: None };
            let (begun, first) = capture_next(fresh, CaptureEvent::Started { backend });
            in_order(begun, first)
        }),
{
}

/// Whatever comes of the steps, the loop stays in order: it reads, hands out and looks
/// for commands only while there is a camera whose stream was opened, and creates only
/// the candidate.
pub proof fn law_capture_stays_in_order(c: CaptureLoop, step: CaptureStep, event: CaptureEvent)
    requires
        in_order(c, step),
        answers(step, event),
    ensures
        ({
            let (next, following) = capture_next(c, event);
            in_order(next, following)
        }),
{
}

/// What comes of the steps with which the loop begins.
pub struct StartReplies {
    pub backend: bool,
    pub cameras: Result<Vec<CameraInfo>, String>,
    pub created: Result<(), String>,
    pub opened: Result<(), String>,
}

/// The loop after `event`, and the steps so far with the one that follows it.
pub open spec fn capture_then(
    so_far: (CaptureLoop, Seq<CaptureStep>),
    event: CaptureEvent,
) -> (CaptureLoop, Seq<CaptureStep>) {
    let (c, steps) = so_far;
    if steps.len() > 0 && steps.last() is Finish {
        so_far
    } else {
        let (next, step) = capture_next(c, event);
        (next, steps.push(step))
    }
}

/// The loop once it has begun, and the steps of that, as far as they get.
pub open spec fn start_run(replies: StartReplies) -> (CaptureLoop, Seq<CaptureStep>) {
    let fresh = (CaptureLoop { active: None, candidate: None }, Seq::<CaptureStep>::empty());
    let begun = capture_then(fresh, CaptureEvent::Started { backend: replies.backend });
    let queried = capture_then(begun, CaptureEvent::Queried(replies.cameras));
    let announced = capture_then(queried, CaptureEvent::Announced);
    let created = capture_then(announced, CaptureEvent::Created(replies.created));
    capture_then(created, CaptureEvent::Opened(replies.opened))
}

/// The loop begins with the first camera that is found, after all of them are
/// announced; or it ends with the first thing that goes wrong, and tells of it.
pub proof fn law_start(replies: StartReplies)
    ensures
        start_run(replies) == ({
            let cameras = replies.cameras->Ok_0;
            let idle = CaptureLoop { active: None, candidate: None };
            let announce = CaptureStep::Announce(cameras);
            let create = CaptureStep::Create(cameras@[0].index);
            if !replies.backend {
                (idle, seq![CaptureStep::Finish(Some(CaptureError::NoBackend))])
            } else if replies.cameras is Err {
                let failed = CaptureError::Query(replies.cameras->Err_0);
                (idle, seq![CaptureStep::Query, CaptureStep::Finish(Some(failed))])
            } else if cameras@.len() == 0 {
                let failed = CaptureError::NoCameras;
                (idle, seq![CaptureStep::Query, announce, CaptureStep::Finish(Some(failed))])
            } else if replies.created is Err {
                let finish = CaptureStep::Finish(
                    Some(CaptureError::Start(replies.created->Err_0)),
                );
                (idle, seq![CaptureStep::Query, announce, create, finish])
            } else if replies.opened is Err {
                let finish = CaptureStep::Finish(
                    Some(CaptureError::Start(replies.opened->Err_0)),
                );
                (
                    idle,
                    seq![CaptureStep::Query, announce, create, CaptureStep::OpenStream, finish],
                )
            } else {
                (
                    CaptureLoop { active: Some(cameras@[0].index), candidate: None },
                    seq![
                        CaptureStep::Query,
                        announce,
                        create,
                        CaptureStep::OpenStream,
                        CaptureStep::Poll,
                    ],
                )
            }
        }),
{
    let cameras = replies.cameras->Ok_0;
    let fresh = (CaptureLoop { active: None, candidate: None }, Seq::<CaptureStep>::empty());
    let begun = capture_then(fresh, CaptureEvent::Started { backend: replies.backend });
    if replies.backend {
        assert(begun.1 =~= seq![CaptureStep::Query]);
        if replies.cameras is Ok {
            let queried = capture_then(begun, CaptureEvent::Queried(replies.cameras));
            assert(queried.1 =~= seq![CaptureStep::Query, CaptureStep::Announce(cameras)]);
        }
    }
}

/// Each frame that is read is handed out as it is, with the camera as before, and the
/// loop ends without an error once nobody takes frames any more.
pub proof fn law_frames_are_handed_out(
    c: CaptureLoop,
    frame: RgbFrame,
    ms: SingleBits,
    delivered: bool,
)
    ensures
        capture_next(c, CaptureEvent::Polled(None)) == (c, CaptureStep::Capture),
        capture_next(c, CaptureEvent::Captured(Ok((frame, ms)))) == (
            c,
            CaptureStep::Send(frame, ms),
        ),
        capture_next(c, CaptureEvent::Sent { delivered }) == (
            c,
            if delivered {
                CaptureStep::Poll
            } else {
                CaptureStep::Finish(None)
            },
        ),
{
}

/// The steps of changing to the camera `index`.
pub open spec fn selection_run(
    c: CaptureLoop,
    index: CameraIndex,
    created: Result<(), String>,
    opened: Result<(), String>,
) -> (CaptureLoop, Seq<CaptureStep>) {
    let (c1, s1) = capture_next(c, CaptureEvent::Polled(Some(CameraCommand::Select(index))));
    let (c2, s2) = capture_next(c1, CaptureEvent::Stopped);
    let (c3, s3) = capture_next(c2, CaptureEvent::Created(created));
    if created is Err {
        let (c4, s4) = capture_next(c3, CaptureEvent::Reported);
        (c4, seq![s1, s2, s3, s4])
    } else {
        let (c4, s4) = capture_next(c3, CaptureEvent::Opened(opened));
        if opened is Err {
            let (c5, s5) = capture_next(c4, CaptureEvent::Reported);
            (c5, seq![s1, s2, s3, s4, s5])
        } else {
            (c4, seq![s1, s2, s3, s4])
        }
    }
}

/// Selecting a camera stops the present one and then either changes to the selected
/// camera and reads from it, or reports why not and goes on with the present one.
pub proof fn law_selection(
    c: CaptureLoop,
    index: CameraIndex,
    created: Result<(), String>,
    opened: Result<(), String>,
)
    requires
        c.active is Some,
        c.candidate is None,
    ensures
        selection_run(c, index, created, opened) == ({
            let stop = CaptureStep::Stop;
            let create = CaptureStep::Create(index);
            if created is Err {
                let report = CaptureStep::Report(CaptureError::CreateSelected(created->Err_0));
                (c, seq![stop, create, report, CaptureStep::Poll])
            } else if opened is Err {
                let report = CaptureStep::Report(CaptureError::OpenSelected(opened->Err_0));
                (c, seq![stop, create, CaptureStep::OpenStream, report, CaptureStep::Poll])
            } else {
                (
                    CaptureLoop { active: Some(index), candidate: None },
                    seq![stop, create, CaptureStep::OpenStream, CaptureStep::Capture],
                )
            }
        }),
{
}

/// The loop begins by looking for cameras if and only if there is a backend, and what it
/// finds is announced whole, with the first of them to be opened.
pub proof fn law_looking_for_cameras(
    c: CaptureLoop,
    backend: bool,
    cameras: Vec<CameraInfo>,
    text: String,
)
    ensures
        capture_next(c, CaptureEvent::Started { backend }).1 == CaptureStep::Query <==> backend,
        !backend ==> capture_next(c, CaptureEvent::Started { backend }).1 == CaptureStep::Finish(
            Some(CaptureError::NoBackend),
        ),
        capture_next(c, CaptureEvent::Started { backend }).0 == c,
        ({
            let (next, step) = capture_next(c, CaptureEvent::Queried(Ok(cameras)));
            &&& step == CaptureStep::Announce(cameras)
            &&& next.active == c.active
            &&& next.candidate is Some <==> cameras@.len() > 0
            &&& cameras@.len() > 0 ==> next.candidate == Some(cameras@[0].index)
        }),
        capture_next(c, CaptureEvent::Queried(Err(text))) == (
            c,
            CaptureStep::Finish(Some(CaptureError::Query(text))),
        ),
{
}

/// A candidate is created as soon as the list is announced or the camera before it stopped.
/// Without one, the loop ends after the announcement and goes on after the stop.
pub proof fn law_candidate_is_created(c: CaptureLoop)
    ensures
        capture_next(c, CaptureEvent::Announced).0 == c,
        capture_next(c, CaptureEvent::Stopped).0 == c,
        c.candidate matches Some(index) ==> capture_next(c, CaptureEvent::Announced).1
            == CaptureStep::Create(index),
        c.candidate matches Some(index) ==> capture_next(c, CaptureEvent::Stopped).1
            == CaptureStep::Create(index),
        c.candidate is None ==> capture_next(c, CaptureEvent::Announced).1 == CaptureStep::Finish(
            Some(CaptureError::NoCameras),
        ),
        c.candidate is None ==> capture_next(c, CaptureEvent::Stopped).1 == CaptureStep::Poll,
{
}

/// A candidate that was created has its stream opened, and one whose stream was opened is the
/// camera that frames come from. One that fails is dropped, and the camera before stays. The
/// failure ends the loop where there is no camera before, and is reported where there is one.
pub proof fn law_candidate_is_opened(c: CaptureLoop, text: String)
    ensures
        capture_next(c, CaptureEvent::Created(Ok(()))) == (c, CaptureStep::OpenStream),
        ({
            let (next, step) = capture_next(c, CaptureEvent::Opened(Ok(())));
            &&& next.active == c.candidate
            &&& next.candidate is None
            &&& c.active is None ==> step == CaptureStep::Poll
            &&& c.active is Some ==> step == CaptureStep::Capture
        }),
        ({
            let (next, step) = capture_next(c, CaptureEvent::Created(Err(text)));
            &&& next.active == c.active
            &&& next.candidate is None
            &&& c.active is None ==> step == CaptureStep::Finish(Some(CaptureError::Start(text)))
            &&& c.active is Some ==> step == CaptureStep::Report(CaptureError::CreateSelected(text))
        }),
        ({
            let (next, step) = capture_next(c, CaptureEvent::Opened(Err(text)));
            &&& next.active == c.active
            &&& next.candidate is None
            &&& c.active is None ==> step == CaptureStep::Finish(Some(CaptureError::Start(text)))
            &&& c.active is Some ==> step == CaptureStep::Report(CaptureError::OpenSelected(text))
        }),
{
}

/// A command stops the present camera, which stays the one in use until the selected one is
/// open; a report is followed by the next look for commands; and a frame that cannot be read
/// ends the loop with its error.
pub proof fn law_commands_and_failures(c: CaptureLoop, index: CameraIndex, text: String)
    ensures
        ({
            let (next, step) = capture_next(
                c,
                CaptureEvent::Polled(Some(CameraCommand::Select(index))),
            );
            &&& step == CaptureStep::Stop
            &&& next.active == c.active
            &&& next.candidate == Some(index)
        }),
        capture_next(c, CaptureEvent::Reported) == (c, CaptureStep::Poll),
        capture_next(c, CaptureEvent::Captured(Err(text))) == (
            c,
            CaptureStep::Finish(Some(CaptureError::Frame(text))),
        ),
{
}

/// Capture errors are told in these words, with the text that comes with them whole.
pub proof fn law_capture_texts(text: String)
    ensures
        capture_message(CaptureError::NoBackend)
            == "No camera backend is available on this system."@,
        capture_message(CaptureError::NoCameras) == "No cameras were detected."@,
        capture_message(CaptureError::Query(text)) == text@,
        capture_message(CaptureError::Start(text)) == text@,
        capture_message(CaptureError::Frame(text)) == text@,
        capture_message(CaptureError::CreateSelected(text)) == "Could not create selected camera: "@
            + text@,
        capture_message(CaptureError::OpenSelected(text)) == "Could not open selected camera: "@
            + text@,
{
}

} // verus!
