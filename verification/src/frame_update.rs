//! From the events of the other threads to the picture that is shown.

use crate::ar::{ArReport, ArStatus};
use crate::camera::CameraEvent;
use crate::camera_app::{AppError, AppView, CameraApp, FramePair};
use crate::frame::{FrameView, RgbFrame, SingleBits, opaque_pixels, texture_image, texture_pixels,
    texture_size};
use crate::nextface::NextFaceStatus;
use crate::queue::Inbox;
use vstd::prelude::*;

verus! {

/// A frame to be enhanced.
#[derive(Debug, PartialEq, Eq)]
pub struct FrameJob {
    pub raw: RgbFrame,
    pub capture_ms: SingleBits,
    /// Whether the tuning is to be derived from this frame first.
    pub retune: bool,
    /// Whether the enhanced frame goes to the virtual camera.
    pub publish: bool,
}

/// The images to show for a pair of frames.
pub struct TextureUpdate {
    pub raw: eframe::egui::ColorImage,
    pub enhanced: eframe::egui::ColorImage,
    /// Whether there are textures already, whose images these replace.
    pub replace: bool,
}

/// What follows from a frame that was enhanced.
pub struct FrameOutcome {
    /// Offered to the face-tracking worker, and dropped if it is busy.
    pub ar_frame: Option<RgbFrame>,
    pub textures: TextureUpdate,
}

/// The image shows the frame.
pub open spec fn shows(image: eframe::egui::ColorImage, frame: FrameView) -> bool {
    &&& texture_size(image) == (frame.width as usize, frame.height as usize)
    &&& texture_pixels(image) == opaque_pixels(frame.pixels)
}

/// What an event makes of the state and of the newest frame so far.
pub open spec fn after_event(
    app: AppView,
    newest: Option<(RgbFrame, SingleBits)>,
    event: CameraEvent,
) -> (AppView, Option<(RgbFrame, SingleBits)>) {
    match event {
        CameraEvent::Cameras(cameras) => (
            AppView {
                cameras: cameras@,
                selected_camera: if app.selected_camera < cameras@.len() {
                    app.selected_camera
                } else {
                    0
                },
                ..app
            },
            newest,
        ),
        CameraEvent::Frame(raw, capture_ms) => (app, Some((raw, capture_ms))),
        CameraEvent::Error(error) => (
            AppView { error: Some(AppError::Capture(error)), ..app },
            newest,
        ),
    }
}

/// What events, one after the other, make of the state, and the newest frame among
/// them.
pub open spec fn after_events(app: AppView, events: Seq<CameraEvent>) -> (
    AppView,
    Option<(RgbFrame, SingleBits)>,
)
    decreases events.len(),
{
    if events.len() == 0 {
        (app, None)
    } else {
        let (before, newest) = after_events(app, events.drop_last());
        after_event(before, newest, events.last())
    }
}

/// The state after the worker's reports: the last one holds.
pub open spec fn after_reports(app: AppView, reports: Seq<ArReport>) -> AppView {
    if reports.len() == 0 {
        app
    } else {
        AppView {
            face_tracks: reports.last().tracks(),
            ar_status: reports.last().status(),
            ..app
        }
    }
}

/// The state after reports on NextFace: the last one holds.
pub open spec fn after_statuses(app: AppView, statuses: Seq<NextFaceStatus>) -> AppView {
    if statuses.len() == 0 {
        app
    } else {
        AppView { nextface_status: statuses.last(), ..app }
    }
}

/// Whether the tuning is to be renewed, so many seconds after it last was: automatic
/// tuning is on, and the interval, or a minute if that is longer, has passed.
pub open spec fn tuning_due(app: AppView, elapsed_secs: u64) -> bool {
    let minutes: int = if app.auto_tune_interval_minutes < 1 {
        1
    } else {
        app.auto_tune_interval_minutes as int
    };
    app.auto_tune_enabled && elapsed_secs >= minutes * 60
}

/// The state after all that the other threads had to tell, and the frame to enhance.
pub open spec fn after_updates(
    app: AppView,
    events: Seq<CameraEvent>,
    reports: Seq<ArReport>,
    statuses: Seq<NextFaceStatus>,
    elapsed_secs: u64,
) -> (AppView, Option<FrameJob>) {
    let (heard, newest) = after_events(app, events);
    let after = after_statuses(after_reports(heard, reports), statuses);
    (
        after,
        match newest {
            Some((raw, capture_ms)) => Some(
                FrameJob {
                    raw,
                    capture_ms,
                    retune: tuning_due(after, elapsed_secs),
                    publish: after.virtual_webcam,
                },
            ),
            None => None,
        },
    )
}

/// The state once a frame was enhanced.
pub open spec fn after_frame(
    app: AppView,
    job: FrameJob,
    enhanced: RgbFrame,
    process_ms: SingleBits,
) -> AppView {
    let shown = AppView {
        frames: (app.frames + 1) as u64,
        last_process_ms: process_ms,
        pair: Some(
            FramePair { raw: job.raw, enhanced, capture_ms: job.capture_ms, process_ms },
        ),
        textures: true,
        ..app
    };
    if app.ar_enabled {
        shown
    } else {
        AppView { face_tracks: seq![], ar_status: ArStatus::Off, ..shown }
    }
}

/// Whether the frame that is shown is offered to the face-tracking worker too.
pub open spec fn frame_is_offered(app: AppView) -> bool {
    app.ar_enabled
}

impl CameraApp {
    /// Whether the tuning is to be renewed, so many whole seconds after it last was.
    pub fn auto_tune_due(&self, elapsed_secs: u64) -> (due: bool)
        ensures
            due == tuning_due(self@, elapsed_secs),
    {
        let minutes: u64 = if self.auto_tune_interval_minutes < 1 {
            1
        } else {
            self.auto_tune_interval_minutes as u64
        };
        self.auto_tune_enabled && elapsed_secs >= minutes * 60
    }

    fn take_event(&mut self, newest: Option<(RgbFrame, SingleBits)>, event: CameraEvent) -> (now:
        Option<(RgbFrame, SingleBits)>)
        ensures
            (final(self)@, now) == after_event(old(self)@, newest, event),
    {
        match event {
            CameraEvent::Cameras(cameras) => {
                self.cameras = cameras;
                if self.selected_camera >= self.cameras.len() {
                    self.selected_camera = 0;
                }
                newest
            },
            CameraEvent::Frame(raw, capture_ms) => Some((raw, capture_ms)),
            CameraEvent::Error(error) => {
                self.error = Some(AppError::Capture(error));
                newest
            },
        }
    }

    fn take_events(&mut self, events: Vec<CameraEvent>) -> (newest: Option<(RgbFrame, SingleBits)>)
        ensures
            (final(self)@, newest) == after_events(old(self)@, events@),
    {
        let mut newest: Option<(RgbFrame, SingleBits)> = None;
        for event in it: events
            invariant
                it.seq() == events@,
                (self@, newest) == after_events(old(self)@, events@.take(it.index() as int)),
        {
            assert(events@.take(it.index() + 1).drop_last() =~= events@.take(it.index() as int));
            newest = self.take_event(newest, event);
        }
        assert(events@.take(events@.len() as int) =~= events@);
        newest
    }

    fn take_reports(&mut self, reports: Vec<ArReport>)
        ensures
            final(self)@ == after_reports(old(self)@, reports@),
    {
        for report in it: reports
            invariant
                it.seq() == reports@,
                self@ == after_reports(old(self)@, reports@.take(it.index() as int)),
        {
            let (tracks, status) = report.into_parts();
            self.face_tracks = tracks;
            self.ar_status = status;
            assert(reports@.take(it.index() + 1).last() == report);
        }
        assert(reports@.take(reports@.len() as int) =~= reports@);
    }

    fn take_statuses(&mut self, statuses: Vec<NextFaceStatus>)
        ensures
            final(self)@ == after_statuses(old(self)@, statuses@),
    {
        for status in it: statuses
            invariant
                it.seq() == statuses@,
                self@ == after_statuses(old(self)@, statuses@.take(it.index() as int)),
        {
            self.nextface_status = status;
            assert(statuses@.take(it.index() + 1).last() == status);
        }
        assert(statuses@.take(statuses@.len() as int) =~= statuses@);
    }

    /// Takes what the other threads had to tell, oldest first, and says which frame to
    /// enhance: the newest, if there is any. The tuning was last renewed so many whole
    /// seconds ago.
    pub fn apply_updates(
        &mut self,
        events: Vec<CameraEvent>,
        reports: Vec<ArReport>,
        statuses: Vec<NextFaceStatus>,
        elapsed_secs: u64,
    ) -> (job: Option<FrameJob>)
        ensures
            (final(self)@, job) == after_updates(
                old(self)@,
                events@,
                reports@,
                statuses@,
                elapsed_secs,
            ),
    {
        let newest = self.take_events(events);
        self.take_reports(reports);
        self.take_statuses(statuses);
        match newest {
            Some((raw, capture_ms)) => Some(
                FrameJob {
                    raw,
                    capture_ms,
                    retune: self.auto_tune_due(elapsed_secs),
                    publish: self.virtual_webcam,
                },
            ),
            None => None,
        }
    }

    /// Receives what the other threads have to tell and says which frame to enhance. What is
    /// applied is all that is taken from the three queues. While the picture is frozen nothing
    /// is taken from them.
    pub fn update_frame(
        &mut self,
        rx: &mut Inbox<CameraEvent>,
        ar_rx: &mut Inbox<ArReport>,
        nextface_rx: &mut Inbox<NextFaceStatus>,
        elapsed_secs: u64,
    ) -> (job: Option<FrameJob>)
        ensures
            old(self).frozen ==> job is None && *final(self) == *old(self) && *final(rx) == *old(rx)
                && *final(ar_rx) == *old(ar_rx) && *final(nextface_rx) == *old(nextface_rx),
            !old(self).frozen ==> exists|
                events: Vec<CameraEvent>,
                reports: Vec<ArReport>,
                statuses: Vec<NextFaceStatus>,
            |
                #[trigger] old(rx).gives(events, *final(rx)) && #[trigger] old(ar_rx).gives(
                    reports,
                    *final(ar_rx),
                ) && #[trigger] old(nextface_rx).gives(statuses, *final(nextface_rx)) && (
                    final(self)@,
                    job,
                ) == after_updates(old(self)@, events@, reports@, statuses@, elapsed_secs),
    {
        if self.frozen {
            return None;
        }
        let events = rx.take_all();
        let reports = ar_rx.take_all();
        let statuses = nextface_rx.take_all();
        self.apply_updates(events, reports, statuses, elapsed_secs)
    }

    /// The frame from which the tuning is derived when the user asks for it: the raw one of
    /// the present pair.
    pub fn tuning_frame(&self) -> (frame: Option<&RgbFrame>)
        ensures
            match (frame, self@.pair) {
                (Some(f), Some(pair)) => *f == pair.raw,
                (None, None) => true,
                _ => false,
            },
    {
        match &self.pair {
            Some(pair) => Some(&pair.raw),
            None => None,
        }
    }

    /// The images to show for the present pair, if there is one.
    pub fn refresh_textures(&mut self) -> (update: Option<TextureUpdate>)
        requires
            old(self)@.pair matches Some(pair) ==> pair.raw@.exact() && pair.enhanced@.exact(),
        ensures
            update is Some <==> old(self)@.pair is Some,
            update matches Some(u) ==> shows(u.raw, old(self)@.pair->0.raw@) && shows(
                u.enhanced,
                old(self)@.pair->0.enhanced@,
            ) && u.replace == old(self)@.textures,
            final(self)@ == (AppView {
                textures: old(self)@.textures || old(self)@.pair is Some,
                ..old(self)@
            }),
    {
        match &self.pair {
            Some(pair) => {
                let update = TextureUpdate {
                    raw: texture_image(&pair.raw),
                    enhanced: texture_image(&pair.enhanced),
                    replace: self.textures,
                };
                self.textures = true;
                Some(update)
            },
            None => None,
        }
    }

    /// Takes a frame that was enhanced, in so many milliseconds, as the one to show.
    pub fn finish_frame(&mut self, job: FrameJob, enhanced: RgbFrame, process_ms: SingleBits) -> (outcome:
        FrameOutcome)
        requires
            old(self).frames < u64::MAX,
            job.raw@.exact(),
            enhanced@.exact(),
        ensures
            final(self)@ == after_frame(old(self)@, job, enhanced, process_ms),
            outcome.ar_frame is Some <==> old(self).ar_enabled,
            outcome.ar_frame is Some <==> frame_is_offered(old(self)@),
            outcome.ar_frame matches Some(frame) ==> frame@ == job.raw@,
            shows(outcome.textures.raw, job.raw@),
            shows(outcome.textures.enhanced, enhanced@),
            outcome.textures.replace == old(self).textures,
    {
        let ar_frame = if self.ar_enabled {
            Some(job.raw.duplicate())
        } else {
            self.face_tracks = Vec::new();
            self.ar_status = ArStatus::Off;
            None
        };
        self.frames = self.frames + 1;
        self.last_process_ms = process_ms;
        self.pair = Some(
            FramePair { raw: job.raw, enhanced, capture_ms: job.capture_ms, process_ms },
        );
        let textures = self.refresh_textures().unwrap();
        FrameOutcome { ar_frame, textures }
    }
}

/// Of the frames that are waiting, the newest is the one that is enhanced.
pub proof fn law_newest_frame_wins(app: AppView, events: Seq<CameraEvent>, k: int)
    requires
        0 <= k < events.len(),
        events[k] is Frame,
        forall|j: int| k < j < events.len() ==> !(#[trigger] events[j] is Frame),
    ensures
        after_events(app, events).1 == Some((events[k]->Frame_0, events[k]->Frame_1)),
    decreases events.len(),
{
    let before = events.drop_last();
    if k < events.len() - 1 {
        assert forall|j: int| k < j < before.len() implies !(#[trigger] before[j] is Frame) by {
            assert(before[j] == events[j]);
        }
        law_newest_frame_wins(app, before, k);
        assert(!(events[events.len() - 1] is Frame));
    }
}

/// Where no frame is waiting, none is enhanced.
pub proof fn law_no_frame_no_job(app: AppView, events: Seq<CameraEvent>)
    requires
        forall|j: int| 0 <= j < events.len() ==> !(#[trigger] events[j] is Frame),
    ensures
        after_events(app, events).1 is None,
    decreases events.len(),
{
    if events.len() > 0 {
        let before = events.drop_last();
        assert forall|j: int| 0 <= j < before.len() implies !(#[trigger] before[j] is Frame) by {
            assert(before[j] == events[j]);
        }
        law_no_frame_no_job(app, before);
        assert(!(events[events.len() - 1] is Frame));
    }
}

/// A frame that waits behind a newer one is dropped without a trace: without it, all
/// would be the same. So the delay does not grow when frames come faster than they are
/// enhanced.
pub proof fn law_stale_frames_leave_no_trace(
    app: AppView,
    events: Seq<CameraEvent>,
    stale: int,
    newer: int,
)
    requires
        0 <= stale < newer < events.len(),
        events[stale] is Frame,
        events[newer] is Frame,
    ensures
        after_events(app, events) == after_events(app, events.remove(stale)),
    decreases events.len(),
{
    let before = events.drop_last();
    assert(events.remove(stale).drop_last() =~= before.remove(stale));
    assert(events.remove(stale).last() == events.last());
    if newer < events.len() - 1 {
        law_stale_frames_leave_no_trace(app, before, stale, newer);
    } else {
        lemma_frames_keep_the_state(app, before, stale);
    }
}

proof fn lemma_frames_keep_the_state(app: AppView, events: Seq<CameraEvent>, k: int)
    requires
        0 <= k < events.len(),
        events[k] is Frame,
    ensures
        after_events(app, events).0 == after_events(app, events.remove(k)).0,
    decreases events.len(),
{
    let before = events.drop_last();
    if k < events.len() - 1 {
        assert(events.remove(k).drop_last() =~= before.remove(k));
        assert(events.remove(k).last() == events.last());
        lemma_frames_keep_the_state(app, before, k);
    } else {
        assert(events.remove(k) =~= before);
    }
}

/// An error that is told is shown until a later one takes its place.
pub proof fn law_last_error_is_kept(app: AppView, events: Seq<CameraEvent>, k: int)
    requires
        0 <= k < events.len(),
        events[k] is Error,
        forall|j: int| k < j < events.len() ==> !(#[trigger] events[j] is Error),
    ensures
        after_events(app, events).0.error == Some(AppError::Capture(events[k]->Error_0)),
    decreases events.len(),
{
    let before = events.drop_last();
    if k < events.len() - 1 {
        assert forall|j: int| k < j < before.len() implies !(#[trigger] before[j] is Error) by {
            assert(before[j] == events[j]);
        }
        law_last_error_is_kept(app, before, k);
        assert(!(events[events.len() - 1] is Error));
    }
}

/// Without a new error the present one, or its absence, stays, and no event touches what
/// the user has chosen.
pub proof fn law_events_keep_the_rest(app: AppView, events: Seq<CameraEvent>)
    ensures
        ({
            let after = after_events(app, events).0;
            &&& (forall|j: int| 0 <= j < events.len() ==> !(#[trigger] events[j] is Error))
                ==> after.error == app.error
            &&& after == (AppView {
                cameras: after.cameras,
                selected_camera: after.selected_camera,
                error: after.error,
                ..app
            })
        }),
    decreases events.len(),
{
    if events.len() > 0 {
        let before = events.drop_last();
        law_events_keep_the_rest(app, before);
        if forall|j: int| 0 <= j < events.len() ==> !(#[trigger] events[j] is Error) {
            assert forall|j: int| 0 <= j < before.len() implies !(#[trigger] before[j] is Error) by {
                assert(before[j] == events[j]);
            }
            assert(!(events[events.len() - 1] is Error));
        }
    }
}

/// The state stays well-formed through all that the other threads tell: whichever
/// lists of cameras come, the selected one is among them.
pub proof fn law_updates_keep_the_state_well_formed(
    app: AppView,
    events: Seq<CameraEvent>,
    reports: Seq<ArReport>,
    statuses: Seq<NextFaceStatus>,
    elapsed_secs: u64,
)
    requires
        app.wf(),
    ensures
        after_updates(app, events, reports, statuses, elapsed_secs).0.wf(),
{
    lemma_events_keep_wf(app, events);
}

proof fn lemma_events_keep_wf(app: AppView, events: Seq<CameraEvent>)
    requires
        app.wf(),
    ensures
        after_events(app, events).0.wf(),
    decreases events.len(),
{
    if events.len() > 0 {
        lemma_events_keep_wf(app, events.drop_last());
    }
}

/// An enhanced frame leaves the state well-formed.
pub proof fn law_frames_keep_the_state_well_formed(
    app: AppView,
    job: FrameJob,
    enhanced: RgbFrame,
    process_ms: SingleBits,
)
    requires
        app.wf(),
    ensures
        after_frame(app, job, enhanced, process_ms).wf(),
{
}

/// The baseline of the comparison is the newest decoded frame, as it was before any
/// enhancement.
pub proof fn law_baseline_is_the_decoded_frame(
    app: AppView,
    events: Seq<CameraEvent>,
    reports: Seq<ArReport>,
    statuses: Seq<NextFaceStatus>,
    elapsed_secs: u64,
    k: int,
    enhanced: RgbFrame,
    process_ms: SingleBits,
)
    requires
        0 <= k < events.len(),
        events[k] is Frame,
        forall|j: int| k < j < events.len() ==> !(#[trigger] events[j] is Frame),
    ensures
        ({
            let (heard, job) = after_updates(app, events, reports, statuses, elapsed_secs);
            &&& job is Some
            &&& after_frame(heard, job->0, enhanced, process_ms).pair == Some(
                FramePair {
                    raw: events[k]->Frame_0,
                    enhanced,
                    capture_ms: events[k]->Frame_1,
                    process_ms,
                },
            )
        }),
{
    law_newest_frame_wins(app, events, k);
}

/// While automatic tuning is off it is never due; while it is on, it is not due within a
/// minute, and once due it stays so.
pub proof fn law_tuning_waits(app: AppView, earlier: u64, later: u64)
    requires
        earlier <= later,
    ensures
        !app.auto_tune_enabled ==> !tuning_due(app, later),
        tuning_due(app, earlier) ==> earlier >= 60 && tuning_due(app, later),
{
}

/// With automatic tuning on and the interval as it is at the beginning, the tuning is
/// due after two minutes and not before.
pub proof fn law_tuning_every_two_minutes(app: AppView, elapsed_secs: u64)
    requires
        app.auto_tune_enabled,
        app.auto_tune_interval_minutes == 2,
    ensures
        tuning_due(app, elapsed_secs) <==> elapsed_secs >= 120,
{
}

/// Frames that come while face tracking is off leave no faces behind, whatever the
/// worker still reports.
pub proof fn law_no_faces_while_off(
    app: AppView,
    reports: Seq<ArReport>,
    job: FrameJob,
    enhanced: RgbFrame,
    process_ms: SingleBits,
)
    requires
        !app.ar_enabled,
    ensures
        after_frame(after_reports(app, reports), job, enhanced, process_ms).face_tracks.len() == 0,
        after_frame(after_reports(app, reports), job, enhanced, process_ms).ar_status
            == ArStatus::Off,
{
}

/// Frames go to the virtual camera exactly while the user has them go there, whatever else
/// is switched on, and nothing that the other threads tell changes that choice.
pub proof fn law_publishing_follows_its_switch(
    app: AppView,
    events: Seq<CameraEvent>,
    reports: Seq<ArReport>,
    statuses: Seq<NextFaceStatus>,
    elapsed_secs: u64,
)
    ensures
        ({
            let (after, job) = after_updates(app, events, reports, statuses, elapsed_secs);
            &&& job matches Some(j) ==> (j.publish <==> app.virtual_webcam)
            &&& after.virtual_webcam == app.virtual_webcam
        }),
{
    law_events_keep_the_rest(app, events);
}

/// While automatic tuning is on, it is due exactly when the chosen number of minutes has
/// passed, and where none is chosen when one minute has.
pub proof fn law_tuning_at_the_chosen_interval(app: AppView, elapsed_secs: u64)
    ensures
        app.auto_tune_enabled && app.auto_tune_interval_minutes >= 1 ==> (tuning_due(
            app,
            elapsed_secs,
        ) <==> elapsed_secs >= 60 * app.auto_tune_interval_minutes),
        app.auto_tune_enabled && app.auto_tune_interval_minutes == 0 ==> (tuning_due(
            app,
            elapsed_secs,
        ) <==> elapsed_secs >= 60),
        !app.auto_tune_enabled ==> !tuning_due(app, elapsed_secs),
{
}

/// The longer the interval, the later the tuning is due, and nothing but the interval and
/// the switch counts.
pub proof fn law_longer_interval_waits_longer(sooner: AppView, later: AppView, elapsed_secs: u64)
    requires
        sooner.auto_tune_enabled == later.auto_tune_enabled,
        sooner.auto_tune_interval_minutes <= later.auto_tune_interval_minutes,
    ensures
        tuning_due(later, elapsed_secs) ==> tuning_due(sooner, elapsed_secs),
        sooner.auto_tune_interval_minutes == later.auto_tune_interval_minutes ==> (tuning_due(
            later,
            elapsed_secs,
        ) <==> tuning_due(sooner, elapsed_secs)),
{
}

/// The job of a batch in which the frame at `k` is the newest: that frame, its time, a new
/// tuning if the interval has passed, and the virtual camera if frames go there.
pub proof fn law_job_of_the_newest_frame(
    app: AppView,
    events: Seq<CameraEvent>,
    reports: Seq<ArReport>,
    statuses: Seq<NextFaceStatus>,
    elapsed_secs: u64,
    k: int,
)
    requires
        0 <= k < events.len(),
        events[k] is Frame,
        forall|j: int| k < j < events.len() ==> !(#[trigger] events[j] is Frame),
    ensures
        ({
            let job = after_updates(app, events, reports, statuses, elapsed_secs).1;
            &&& job is Some
            &&& job->0.raw == events[k]->Frame_0
            &&& job->0.capture_ms == events[k]->Frame_1
            &&& job->0.publish == app.virtual_webcam
            &&& job->0.retune <==> app.auto_tune_enabled && elapsed_secs >= 60 && elapsed_secs
                >= 60 * app.auto_tune_interval_minutes
        }),
{
    law_newest_frame_wins(app, events, k);
    law_events_keep_the_rest(app, events);
}

/// A batch without a frame gives no job.
pub proof fn law_no_job_without_a_frame(
    app: AppView,
    events: Seq<CameraEvent>,
    reports: Seq<ArReport>,
    statuses: Seq<NextFaceStatus>,
    elapsed_secs: u64,
)
    requires
        forall|j: int| 0 <= j < events.len() ==> !(#[trigger] events[j] is Frame),
    ensures
        after_updates(app, events, reports, statuses, elapsed_secs).1 is None,
{
    law_no_frame_no_job(app, events);
}

/// What a single event does: a list of cameras takes the place of the one before, and the
/// selection stays where the list is long enough, else goes to the first; a frame is the
/// newest and changes nothing; an error is the one that is shown.
pub proof fn law_single_event(app: AppView, event: CameraEvent)
    ensures
        ({
            let (after, newest) = after_events(app, seq![event]);
            match event {
                CameraEvent::Cameras(cameras) => {
                    &&& newest is None
                    &&& after.cameras == cameras@
                    &&& app.selected_camera < cameras@.len() ==> after.selected_camera
                        == app.selected_camera
                    &&& app.selected_camera >= cameras@.len() ==> after.selected_camera == 0
                    &&& after.error == app.error
                },
                CameraEvent::Frame(raw, capture_ms) => newest == Some((raw, capture_ms)) && after
                    == app,
                CameraEvent::Error(error) => {
                    &&& newest is None
                    &&& after.error == Some(AppError::Capture(error))
                    &&& after.cameras == app.cameras
                    &&& after.selected_camera == app.selected_camera
                },
            }
        }),
{
    reveal_with_fuel(after_events, 2);
    let events = seq![event];
    assert(events.drop_last() =~= Seq::<CameraEvent>::empty());
    assert(events.last() == event);
}

/// It does not matter how events are divided into batches: the second batch goes on from
/// where the first ended, and its newest frame counts if it has one.
pub proof fn law_batches(app: AppView, first: Seq<CameraEvent>, second: Seq<CameraEvent>)
    ensures
        ({
            let (between, earlier) = after_events(app, first);
            let (after, later) = after_events(between, second);
            after_events(app, first + second) == (
                after,
                if later is Some {
                    later
                } else {
                    earlier
                },
            )
        }),
        after_events(app, seq![]) == (app, None::<(RgbFrame, SingleBits)>),
    decreases second.len(),
{
    if second.len() == 0 {
        assert(first + second =~= first);
    } else {
        assert((first + second).drop_last() =~= first + second.drop_last());
        assert((first + second).last() == second.last());
        law_batches(app, first, second.drop_last());
    }
}

/// Of the worker's reports the last one holds: without faces it clears them, with faces it
/// shows them and their number. All else stays.
pub proof fn law_last_report_holds(app: AppView, reports: Seq<ArReport>)
    ensures
        ({
            let after = after_reports(app, reports);
            &&& reports.len() == 0 ==> after == app
            &&& reports.len() > 0 ==> match reports[reports.len() - 1] {
                ArReport::Cleared(status) => after.face_tracks.len() == 0 && after.ar_status
                    == status,
                ArReport::Found(tracks) => after.face_tracks == tracks@ && after.ar_status
                    == ArStatus::Active(tracks@.len() as usize),
            }
            &&& after == (AppView {
                face_tracks: after.face_tracks,
                ar_status: after.ar_status,
                ..app
            })
        }),
{
}

/// Of the reports on NextFace the last one holds, and all else stays.
pub proof fn law_last_status_holds(app: AppView, statuses: Seq<NextFaceStatus>)
    ensures
        ({
            let after = after_statuses(app, statuses);
            &&& statuses.len() == 0 ==> after == app
            &&& statuses.len() > 0 ==> after.nextface_status == statuses[statuses.len() - 1]
            &&& after == (AppView { nextface_status: after.nextface_status, ..app })
        }),
{
}

/// The three queues do not touch each other's part of the state, and what none of them is
/// about stays.
pub proof fn law_queues_are_independent(
    app: AppView,
    events: Seq<CameraEvent>,
    reports: Seq<ArReport>,
    statuses: Seq<NextFaceStatus>,
    elapsed_secs: u64,
)
    ensures
        ({
            let after = after_updates(app, events, reports, statuses, elapsed_secs).0;
            let heard = after_events(app, events).0;
            let reported = after_reports(app, reports);
            let told = after_statuses(app, statuses);
            after == (AppView {
                cameras: heard.cameras,
                selected_camera: heard.selected_camera,
                error: heard.error,
                face_tracks: reported.face_tracks,
                ar_status: reported.ar_status,
                nextface_status: told.nextface_status,
                ..app
            })
        }),
{
    law_events_keep_the_rest(app, events);
}

/// A frame that was enhanced is shown and counted, with the times that it took. The faces and
/// the status of the tracking stay while it is on and go while it is off. All else stays.
pub proof fn law_enhanced_frame_is_shown(
    app: AppView,
    job: FrameJob,
    enhanced: RgbFrame,
    process_ms: SingleBits,
)
    requires
        app.frames < u64::MAX,
    ensures
        ({
            let after = after_frame(app, job, enhanced, process_ms);
            &&& after.pair is Some
            &&& after.pair->0.raw == job.raw
            &&& after.pair->0.enhanced == enhanced
            &&& after.pair->0.capture_ms == job.capture_ms
            &&& after.pair->0.process_ms == process_ms
            &&& after.textures
            &&& after.frames == app.frames + 1
            &&& after.last_process_ms == process_ms
            &&& app.ar_enabled ==> after.face_tracks == app.face_tracks && after.ar_status
                == app.ar_status
            &&& !app.ar_enabled ==> after.face_tracks.len() == 0 && after.ar_status
                == ArStatus::Off
            &&& after == (AppView {
                pair: after.pair,
                textures: after.textures,
                frames: after.frames,
                last_process_ms: after.last_process_ms,
                face_tracks: after.face_tracks,
                ar_status: after.ar_status,
                ..app
            })
        }),
{
}

/// An image that shows a frame has its size and, at each place, the frame's colour there,
/// fully opaque.
pub proof fn law_texture_shows_each_pixel(
    image: eframe::egui::ColorImage,
    frame: FrameView,
    x: int,
    y: int,
)
    requires
        shows(image, frame),
        frame.exact(),
        0 <= x < frame.width,
        0 <= y < frame.height,
    ensures
        texture_size(image).0 == frame.width,
        texture_size(image).1 == frame.height,
        texture_pixels(image)[y * frame.width + x] == (
            frame.channel(x, y, 0),
            frame.channel(x, y, 1),
            frame.channel(x, y, 2),
            255u8,
        ),
{
    let w = frame.width as int;
    let h = frame.height as int;
    assert(0 <= y * w + x < w * h) by (nonlinear_arith)
        requires
            0 <= x < w,
            0 <= y < h,
    ;
}

/// Frames are offered to the face-tracking worker exactly while face tracking is on, whatever
/// else is switched on.
pub proof fn law_frames_are_offered_while_on(app: AppView)
    ensures
        app.ar_enabled ==> frame_is_offered(app),
        !app.ar_enabled ==> !frame_is_offered(app),
{
}

} // verus!
