//! Downloads of the face-tracking model and of sample portraits.
//!
//! The program reaches the network and the disk. It reports what came of each step,
//! and the download says which is next.

use crate::text::join2;
use vstd::prelude::*;

verus! {

/// Where the face-tracking model is downloaded from.
pub const MODEL_URL: &'static str =
    "https://storage.googleapis.com/mediapipe-models/face_landmarker/face_landmarker/float16/1/face_landmarker.task";

/// The directory of the model, beside the application.
pub const MODEL_DIRECTORY: &'static str = "models";

/// The file name of the model.
pub const MODEL_FILE: &'static str = "face_landmarker.task";

/// The file extension of a model that is not yet complete.
pub const PART_EXTENSION: &'static str = "part";

/// What is downloaded.
#[derive(Debug, Clone, Copy, PartialEq, Eq, Structural)]
pub enum Download {
    /// The face-tracking model.
    Model,
    /// A portrait to try the reconstruction with.
    FaceSample,
}

/// The most bytes that are read.
pub open spec fn download_limit(kind: Download) -> u64 {
    match kind {
        Download::Model => 31_457_280,
        Download::FaceSample => 12_582_912,
    }
}

/// The fewest bytes that are believed to be the whole file.
pub open spec fn download_minimum(kind: Download) -> int {
    match kind {
        Download::Model => 1_000_000,
        Download::FaceSample => 10_000,
    }
}

/// Why a download failed.
#[derive(Debug, PartialEq, Eq)]
pub enum DownloadError {
    /// The disk did not do as it was told.
    Disk(String),
    /// The network did not deliver.
    Network(Download, String),
    TooSmall(Download),
}

/// The text that tells why a download failed.
pub open spec fn download_message(error: DownloadError) -> Seq<char> {
    match error {
        DownloadError::Disk(text) => text@,
        DownloadError::Network(Download::Model, text) => "model download failed: "@ + text@,
        DownloadError::Network(Download::FaceSample, text) => "sample download failed: "@ + text@,
        DownloadError::TooSmall(Download::Model) =>
            "downloaded Face Landmarker model is unexpectedly small"@,
        DownloadError::TooSmall(Download::FaceSample) => "downloaded sample is unexpectedly small"@,
    }
}

impl DownloadError {
    pub fn message(&self) -> (text: String)
        ensures
            text@ == download_message(*self),
    {
        match self {
            DownloadError::Disk(text) => text.clone(),
            DownloadError::Network(Download::Model, text) => join2(
                "model download failed: ",
                text.as_str(),
            ),
            DownloadError::Network(Download::FaceSample, text) => join2(
                "sample download failed: ",
                text.as_str(),
            ),
            DownloadError::TooSmall(Download::Model) =>
                "downloaded Face Landmarker model is unexpectedly small".to_owned(),
            DownloadError::TooSmall(Download::FaceSample) =>
                "downloaded sample is unexpectedly small".to_owned(),
        }
    }
}

/// What came of a step of a download.
#[derive(Debug, PartialEq, Eq)]
pub enum DownloadEvent {
    /// The download begins; whether its file is to lie in some directory.
    Started { in_directory: bool },
    DirectoryCreated(Result<(), String>),
    Fetched(Result<Vec<u8>, String>),
    Written(Result<(), String>),
    Renamed(Result<(), String>),
}

/// What the program does next to download.
#[derive(Debug, PartialEq, Eq)]
pub enum DownloadStep {
    /// Create the directory of the file, and those that it lies in.
    CreateDirectory,
    /// Fetch the file, but no more than `limit` bytes.
    Fetch { limit: u64 },
    /// Write the bytes: to the file with [`PART_EXTENSION`] where `partial`, else to the
    /// file itself.
    Write { bytes: Vec<u8>, partial: bool },
    /// Rename the file with [`PART_EXTENSION`] to the file itself.
    Rename,
    Finish(Result<(), DownloadError>),
}

/// The step that follows `event`.
pub open spec fn download_next(kind: Download, event: DownloadEvent) -> DownloadStep {
    match event {
        DownloadEvent::Started { in_directory } => if in_directory {
            DownloadStep::CreateDirectory
        } else {
            DownloadStep::Fetch { limit: download_limit(kind) }
        },
        DownloadEvent::DirectoryCreated(Ok(_)) => DownloadStep::Fetch {
            limit: download_limit(kind),
        },
        DownloadEvent::Fetched(Ok(bytes)) => if bytes@.len() < download_minimum(kind) {
            DownloadStep::Finish(Err(DownloadError::TooSmall(kind)))
        } else {
            DownloadStep::Write { bytes, partial: kind == Download::Model }
        },
        DownloadEvent::Fetched(Err(text)) => DownloadStep::Finish(
            Err(DownloadError::Network(kind, text)),
        ),
        DownloadEvent::Written(Ok(_)) => if kind == Download::Model {
            DownloadStep::Rename
        } else {
            DownloadStep::Finish(Ok(()))
        },
        DownloadEvent::Renamed(Ok(_)) => DownloadStep::Finish(Ok(())),
        DownloadEvent::DirectoryCreated(Err(text)) | DownloadEvent::Written(Err(text))
        | DownloadEvent::Renamed(Err(text)) => DownloadStep::Finish(
            Err(DownloadError::Disk(text)),
        ),
    }
}

impl Download {
    /// The most bytes that are read.
    pub fn limit(self) -> (bytes: u64)
        ensures
            bytes == download_limit(self),
    {
        match self {
            Download::Model => 30 * 1024 * 1024,
            Download::FaceSample => 12 * 1024 * 1024,
        }
    }

    /// The fewest bytes that are believed to be the whole file.
    pub fn minimum(self) -> (bytes: usize)
        ensures
            bytes == download_minimum(self),
    {
        match self {
            Download::Model => 1_000_000,
            Download::FaceSample => 10_000,
        }
    }

    /// Takes one step of the download.
    pub fn advance(self, event: DownloadEvent) -> (step: DownloadStep)
        ensures
            step == download_next(self, event),
    {
        match event {
            DownloadEvent::Started { in_directory } => if in_directory {
                DownloadStep::CreateDirectory
            } else {
                DownloadStep::Fetch { limit: self.limit() }
            },
            DownloadEvent::DirectoryCreated(outcome) => match outcome {
                Ok(_) => DownloadStep::Fetch { limit: self.limit() },
                Err(text) => DownloadStep::Finish(Err(DownloadError::Disk(text))),
            },
            DownloadEvent::Fetched(outcome) => match outcome {
                Ok(bytes) => if bytes.len() < self.minimum() {
                    DownloadStep::Finish(Err(DownloadError::TooSmall(self)))
                } else {
                    DownloadStep::Write { bytes, partial: self == Download::Model }
                },
                Err(text) => DownloadStep::Finish(Err(DownloadError::Network(self, text))),
            },
            DownloadEvent::Written(outcome) => match outcome {
                Ok(_) => if self == Download::Model {
                    DownloadStep::Rename
                } else {
                    DownloadStep::Finish(Ok(()))
                },
                Err(text) => DownloadStep::Finish(Err(DownloadError::Disk(text))),
            },
            DownloadEvent::Renamed(outcome) => match outcome {
                Ok(_) => DownloadStep::Finish(Ok(())),
                Err(text) => DownloadStep::Finish(Err(DownloadError::Disk(text))),
            },
        }
    }
}

/// What the disk and the network answer during a download.
pub struct DownloadReplies {
    pub in_directory: bool,
    pub directory: Result<(), String>,
    pub fetched: Result<Vec<u8>, String>,
    pub written: Result<(), String>,
    pub renamed: Result<(), String>,
}

/// How many steps may follow an event of a download.
pub open spec fn download_rank(event: DownloadEvent) -> nat {
    match event {
        DownloadEvent::Started { .. } => 4,
        DownloadEvent::DirectoryCreated(_) => 3,
        DownloadEvent::Fetched(_) => 2,
        DownloadEvent::Written(_) => 1,
        DownloadEvent::Renamed(_) => 0,
    }
}

/// The steps of a whole download, beginning with the one that follows `event`.
pub open spec fn download_run(
    kind: Download,
    event: DownloadEvent,
    replies: DownloadReplies,
) -> Seq<DownloadStep>
    decreases download_rank(event),
{
    let step = download_next(kind, event);
    match step {
        DownloadStep::CreateDirectory => seq![step] + download_run(
            kind,
            DownloadEvent::DirectoryCreated(replies.directory),
            replies,
        ),
        DownloadStep::Fetch { limit: _ } => seq![step] + download_run(
            kind,
            DownloadEvent::Fetched(replies.fetched),
            replies,
        ),
        DownloadStep::Write { bytes: _, partial: _ } => seq![step] + download_run(
            kind,
            DownloadEvent::Written(replies.written),
            replies,
        ),
        DownloadStep::Rename => seq![step] + download_run(
            kind,
            DownloadEvent::Renamed(replies.renamed),
            replies,
        ),
        DownloadStep::Finish(_) => seq![step],
    }
}

/// The steps of the download that the answers make.
pub open spec fn whole_download(kind: Download, replies: DownloadReplies) -> Seq<DownloadStep> {
    download_run(kind, DownloadEvent::Started { in_directory: replies.in_directory }, replies)
}

/// A download that succeeds has written exactly the bytes that were fetched, and there
/// were enough of them; a model appears under its own name only after that.
pub proof fn law_success_stores_the_file(kind: Download, replies: DownloadReplies)
    requires
        whole_download(kind, replies).last() == DownloadStep::Finish(Ok(())),
    ensures
        replies.fetched is Ok,
        replies.fetched->Ok_0@.len() >= download_minimum(kind),
        ({
            let steps = whole_download(kind, replies);
            let stored = steps.len() - if kind == Download::Model {
                3int
            } else {
                2int
            };
            &&& 0 <= stored
            &&& steps[stored] == DownloadStep::Write {
                bytes: replies.fetched->Ok_0,
                partial: kind == Download::Model,
            }
            &&& kind == Download::Model ==> steps[stored + 1] == DownloadStep::Rename
        }),
{
    reveal_with_fuel(download_run, 5);
}

/// Nothing is written that is smaller than the file can be, a model is never written
/// under its own name, and it is renamed only once all of it was written.
pub proof fn law_no_partial_file(kind: Download, replies: DownloadReplies, n: int)
    requires
        0 <= n < whole_download(kind, replies).len(),
    ensures
        whole_download(kind, replies)[n] matches DownloadStep::Write { bytes, partial } ==> bytes@.len()
            >= download_minimum(kind) && (kind == Download::Model ==> partial),
        whole_download(kind, replies)[n] == DownloadStep::Rename ==> n > 0
            && whole_download(kind, replies)[n - 1] is Write && replies.written is Ok,
{
    reveal_with_fuel(download_run, 5);
}

/// A download fails with the first thing that went wrong.
pub proof fn law_download_outcome(kind: Download, replies: DownloadReplies)
    ensures
        whole_download(kind, replies).len() > 0,
        whole_download(kind, replies).last() == DownloadStep::Finish(
            if replies.in_directory && replies.directory is Err {
                Err(DownloadError::Disk(replies.directory->Err_0))
            } else if replies.fetched is Err {
                Err(DownloadError::Network(kind, replies.fetched->Err_0))
            } else if replies.fetched->Ok_0@.len() < download_minimum(kind) {
                Err(DownloadError::TooSmall(kind))
            } else if replies.written is Err {
                Err(DownloadError::Disk(replies.written->Err_0))
            } else if kind == Download::Model && replies.renamed is Err {
                Err(DownloadError::Disk(replies.renamed->Err_0))
            } else {
                Ok(())
            },
        ),
{
    reveal_with_fuel(download_run, 5);
}

/// A model has between a million bytes and thirty times 1024 times 1024, a sample between ten
/// thousand and twelve times as many.
pub proof fn law_download_bounds()
    ensures
        download_minimum(Download::Model) == 1_000_000,
        download_limit(Download::Model) == 30 * 1024 * 1024,
        download_minimum(Download::FaceSample) == 10_000,
        download_limit(Download::FaceSample) == 12 * 1024 * 1024,
{
}

/// A download creates the directory of its file exactly where it lies in one, and then fetches
/// no more than the most bytes that the file can have.
pub proof fn law_download_begins(kind: Download, in_directory: bool)
    ensures
        download_next(kind, DownloadEvent::Started { in_directory }) == DownloadStep::CreateDirectory
            <==> in_directory,
        !in_directory ==> download_next(kind, DownloadEvent::Started { in_directory }) == (
        DownloadStep::Fetch { limit: download_limit(kind) }),
        download_next(kind, DownloadEvent::DirectoryCreated(Ok(()))) == (DownloadStep::Fetch {
            limit: download_limit(kind),
        }),
{
}

/// What is fetched is written, byte for byte, exactly where it is as large as the file can be
/// at least: a model under a name of its own and then renamed, a sample under its name and
/// then done.
pub proof fn law_download_writes(kind: Download, bytes: Vec<u8>)
    ensures
        ({
            let step = download_next(kind, DownloadEvent::Fetched(Ok(bytes)));
            &&& step is Write <==> bytes@.len() >= download_minimum(kind)
            &&& step matches DownloadStep::Write { bytes: written, partial } ==> written == bytes
                && (partial <==> kind is Model)
            &&& bytes@.len() < download_minimum(kind) ==> step == DownloadStep::Finish(
                Err(DownloadError::TooSmall(kind)),
            )
        }),
        download_next(Download::Model, DownloadEvent::Written(Ok(()))) == DownloadStep::Rename,
        download_next(Download::FaceSample, DownloadEvent::Written(Ok(())))
            == DownloadStep::Finish(Ok(())),
        download_next(kind, DownloadEvent::Renamed(Ok(()))) == DownloadStep::Finish(Ok(())),
{
}

/// A failure of the disk or of the network ends a download with its own text.
pub proof fn law_download_failures(kind: Download, text: String)
    ensures
        download_next(kind, DownloadEvent::Fetched(Err(text))) == DownloadStep::Finish(
            Err(DownloadError::Network(kind, text)),
        ),
        download_next(kind, DownloadEvent::DirectoryCreated(Err(text))) == DownloadStep::Finish(
            Err(DownloadError::Disk(text)),
        ),
        download_next(kind, DownloadEvent::Written(Err(text))) == DownloadStep::Finish(
            Err(DownloadError::Disk(text)),
        ),
        download_next(kind, DownloadEvent::Renamed(Err(text))) == DownloadStep::Finish(
            Err(DownloadError::Disk(text)),
        ),
{
}

/// Failed downloads are told in these words, with the text that comes with them whole.
pub proof fn law_download_texts(text: String)
    ensures
        download_message(DownloadError::Disk(text)) == text@,
        download_message(DownloadError::Network(Download::Model, text))
            == "model download failed: "@ + text@,
        download_message(DownloadError::Network(Download::FaceSample, text))
            == "sample download failed: "@ + text@,
        download_message(DownloadError::TooSmall(Download::Model))
            == "downloaded Face Landmarker model is unexpectedly small"@,
        download_message(DownloadError::TooSmall(Download::FaceSample))
            == "downloaded sample is unexpectedly small"@,
{
}

} // verus!
