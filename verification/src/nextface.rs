//! The reconstruction of a face by NextFace, which runs as a program of its own.

use crate::download::{DownloadError, download_message};
use crate::text::{decimal, decimal_text, join2, join3};
use vstd::prelude::*;

verus! {

/// NextFace's script, in its directory.
pub const OPTIMIZER_FILE: &'static str = "optimizer.py";

/// The file, among the temporary ones, that holds the frame to reconstruct from.
pub const INPUT_FILE: &'static str = "4k-rust-camera-nextface-input.png";

/// The directory of all reconstructions.
pub const OUTPUT_DIRECTORY: &'static str = "nextface-output";

/// The directory that holds that of the samples, in the current one.
pub const ASSET_DIRECTORY: &'static str = "assets";

/// The directory of the samples.
pub const SAMPLE_DIRECTORY: &'static str = "face-samples";

/// How NextFace, or the download of a sample, is getting on.
#[derive(Debug, PartialEq, Eq)]
pub enum NextFaceStatus {
    Idle,
    NoFrame,
    SaveFailed(String),
    /// With the output's path.
    Starting(String),
    /// With the script's path.
    NotFound(String),
    OutputFailed(String),
    /// With the output's path.
    Complete(String),
    /// With the text of the exit status.
    Exited(String),
    StartFailed(String),
    /// With the sample's path.
    SampleReady(String),
    SampleFailed(DownloadError),
}

/// The text that tells of a status.
pub open spec fn nextface_status_text(status: NextFaceStatus) -> Seq<char> {
    match status {
        NextFaceStatus::Idle => "NextFace idle"@,
        NextFaceStatus::NoFrame => "Capture a frame before running reconstruction."@,
        NextFaceStatus::SaveFailed(error) => "Could not save frame: "@ + error@,
        NextFaceStatus::Starting(output) => "Starting NextFace… output: "@ + output@,
        NextFaceStatus::NotFound(path) => "NextFace not found: "@ + path@,
        NextFaceStatus::OutputFailed(error) => "NextFace output directory failed: "@ + error@,
        NextFaceStatus::Complete(output) => "NextFace complete · mesh/output: "@ + output@,
        NextFaceStatus::Exited(status) => "NextFace exited with "@ + status@,
        NextFaceStatus::StartFailed(error) => "Could not start NextFace: "@ + error@,
        NextFaceStatus::SampleReady(path) => "Sample ready: "@ + path@,
        NextFaceStatus::SampleFailed(error) => "Sample download failed: "@ + download_message(
            error,
        ),
    }
}

impl NextFaceStatus {
    pub fn text(&self) -> (text: String)
        ensures
            text@ == nextface_status_text(*self),
    {
        match self {
            NextFaceStatus::Idle => "NextFace idle".to_owned(),
            NextFaceStatus::NoFrame => "Capture a frame before running reconstruction.".to_owned(),
            NextFaceStatus::SaveFailed(error) => join2("Could not save frame: ", error.as_str()),
            NextFaceStatus::Starting(output) => join2(
                "Starting NextFace… output: ",
                output.as_str(),
            ),
            NextFaceStatus::NotFound(path) => join2("NextFace not found: ", path.as_str()),
            NextFaceStatus::OutputFailed(error) => join2(
                "NextFace output directory failed: ",
                error.as_str(),
            ),
            NextFaceStatus::Complete(output) => join2(
                "NextFace complete · mesh/output: ",
                output.as_str(),
            ),
            NextFaceStatus::Exited(status) => join2("NextFace exited with ", status.as_str()),
            NextFaceStatus::StartFailed(error) => join2(
                "Could not start NextFace: ",
                error.as_str(),
            ),
            NextFaceStatus::SampleReady(path) => join2("Sample ready: ", path.as_str()),
            NextFaceStatus::SampleFailed(error) => join2(
                "Sample download failed: ",
                error.message().as_str(),
            ),
        }
    }
}

/// What becomes of the download of a sample to `path`.
pub fn sample_status(outcome: Result<(), DownloadError>, path: String) -> (status: NextFaceStatus)
    ensures
        status == match outcome {
            Ok(_) => NextFaceStatus::SampleReady(path),
            Err(error) => NextFaceStatus::SampleFailed(error),
        },
{
    match outcome {
        Ok(_) => NextFaceStatus::SampleReady(path),
        Err(error) => NextFaceStatus::SampleFailed(error),
    }
}

/// The name of the directory of a reconstruction that began `stamp` seconds after the
/// beginning of 1970.
pub fn output_name(stamp: u64) -> (name: String)
    ensures
        name@ == "reconstruction-"@ + decimal(stamp as nat),
{
    join2("reconstruction-", decimal_text(stamp).as_str())
}

/// Reconstructions that began in different seconds have different directories.
pub proof fn law_outputs_are_apart(first: u64, second: u64)
    requires
        first != second,
    ensures
        "reconstruction-"@ + decimal(first as nat) != "reconstruction-"@ + decimal(second as nat),
{
    let prefix = "reconstruction-"@;
    let one = decimal(first as nat);
    let other = decimal(second as nat);
    if prefix + one == prefix + other {
        assert(one =~= (prefix + one).skip(prefix.len() as int));
        assert(other =~= (prefix + other).skip(prefix.len() as int));
        crate::text::law_decimal_tells_numbers_apart(first as nat, second as nat);
    }
}

/// What came of a step of a reconstruction.
#[derive(Debug, PartialEq, Eq)]
pub enum ReconstructionEvent {
    /// The reconstruction begins; whether the script exists, and its path.
    Checked { optimizer: String, exists: bool },
    OutputCreated(Result<(), String>),
    /// NextFace ended with a status of which the text is given, or could not be run; the
    /// output's path.
    Ran { output: String, outcome: Result<(bool, String), String> },
}

/// What the program does next to reconstruct.
#[derive(Debug, PartialEq, Eq)]
pub enum ReconstructionStep {
    /// Create the output's directory, and those that it lies in.
    CreateOutput,
    /// Run the script on the input and the output, in NextFace's directory, to its end.
    Run,
    /// Tell the application how it ended.
    Finish(NextFaceStatus),
}

/// The step that follows `event`.
pub open spec fn reconstruction_next(event: ReconstructionEvent) -> ReconstructionStep {
    match event {
        ReconstructionEvent::Checked { optimizer, exists } => if exists {
            ReconstructionStep::CreateOutput
        } else {
            ReconstructionStep::Finish(NextFaceStatus::NotFound(optimizer))
        },
        ReconstructionEvent::OutputCreated(Ok(_)) => ReconstructionStep::Run,
        ReconstructionEvent::OutputCreated(Err(error)) => ReconstructionStep::Finish(
            NextFaceStatus::OutputFailed(error),
        ),
        ReconstructionEvent::Ran { output, outcome: Ok((success, status)) } => if success {
            ReconstructionStep::Finish(NextFaceStatus::Complete(output))
        } else {
            ReconstructionStep::Finish(NextFaceStatus::Exited(status))
        },
        ReconstructionEvent::Ran { output: _, outcome: Err(error) } => ReconstructionStep::Finish(
            NextFaceStatus::StartFailed(error),
        ),
    }
}

/// Takes one step of a reconstruction.
pub fn advance_reconstruction(event: ReconstructionEvent) -> (step: ReconstructionStep)
    ensures
        step == reconstruction_next(event),
{
    match event {
        ReconstructionEvent::Checked { optimizer, exists } => if exists {
            ReconstructionStep::CreateOutput
        } else {
            ReconstructionStep::Finish(NextFaceStatus::NotFound(optimizer))
        },
        ReconstructionEvent::OutputCreated(outcome) => match outcome {
            Ok(_) => ReconstructionStep::Run,
            Err(error) => ReconstructionStep::Finish(NextFaceStatus::OutputFailed(error)),
        },
        ReconstructionEvent::Ran { output, outcome } => match outcome {
            Ok((success, status)) => if success {
                ReconstructionStep::Finish(NextFaceStatus::Complete(output))
            } else {
                ReconstructionStep::Finish(NextFaceStatus::Exited(status))
            },
            Err(error) => ReconstructionStep::Finish(NextFaceStatus::StartFailed(error)),
        },
    }
}

/// How a whole reconstruction ends.
pub open spec fn reconstruction_outcome(
    optimizer: String,
    exists: bool,
    created: Result<(), String>,
    output: String,
    outcome: Result<(bool, String), String>,
) -> NextFaceStatus {
    match reconstruction_next(ReconstructionEvent::Checked { optimizer, exists }) {
        ReconstructionStep::Finish(status) => status,
        _ => match reconstruction_next(ReconstructionEvent::OutputCreated(created)) {
            ReconstructionStep::Finish(status) => status,
            _ => match reconstruction_next(ReconstructionEvent::Ran { output, outcome }) {
                ReconstructionStep::Finish(status) => status,
                _ => NextFaceStatus::Idle,
            },
        },
    }
}

/// A reconstruction is told to be complete if and only if the script exists, the
/// output's directory could be made, and NextFace ran and ended well; otherwise the
/// first failure is told.
pub proof fn law_reconstruction_outcome(
    optimizer: String,
    exists: bool,
    created: Result<(), String>,
    output: String,
    outcome: Result<(bool, String), String>,
)
    ensures
        reconstruction_outcome(optimizer, exists, created, output, outcome) == ({
            if !exists {
                NextFaceStatus::NotFound(optimizer)
            } else if created is Err {
                NextFaceStatus::OutputFailed(created->Err_0)
            } else if outcome is Err {
                NextFaceStatus::StartFailed(outcome->Err_0)
            } else if !outcome->Ok_0.0 {
                NextFaceStatus::Exited(outcome->Ok_0.1)
            } else {
                NextFaceStatus::Complete(output)
            }
        }),
{
}

/// How large a reconstructed mesh is.
#[derive(Debug, Clone, Copy, PartialEq, Eq, Structural)]
pub struct MeshSize {
    pub vertices: usize,
    pub faces: usize,
}

/// The text that tells how large the mesh is.
pub open spec fn mesh_text_of(mesh: Option<MeshSize>) -> Seq<char> {
    match mesh {
        Some(size) => "NextFace mesh: "@ + decimal(size.vertices as nat) + (" vertices · "@
            + decimal(size.faces as nat) + " triangles"@),
        None => "NextFace mesh: not loaded"@,
    }
}

/// Tells how large the mesh is.
pub fn mesh_text(mesh: Option<MeshSize>) -> (text: String)
    ensures
        text@ == mesh_text_of(mesh),
{
    match mesh {
        Some(size) => join3(
            "NextFace mesh: ",
            decimal_text(size.vertices as u64).as_str(),
            join3(" vertices · ", decimal_text(size.faces as u64).as_str(), " triangles").as_str(),
        ),
        None => "NextFace mesh: not loaded".to_owned(),
    }
}

/// A reconstruction goes from the script to the output's directory to the run, and on exactly
/// where each is in order; otherwise it ends with what went wrong.
pub proof fn law_reconstruction_steps(
    optimizer: String,
    exists: bool,
    created: Result<(), String>,
    output: String,
    outcome: Result<(bool, String), String>,
)
    ensures
        ({
            let step = reconstruction_next(ReconstructionEvent::Checked { optimizer, exists });
            &&& step == ReconstructionStep::CreateOutput <==> exists
            &&& !exists ==> step == ReconstructionStep::Finish(NextFaceStatus::NotFound(optimizer))
        }),
        ({
            let step = reconstruction_next(ReconstructionEvent::OutputCreated(created));
            &&& step == ReconstructionStep::Run <==> created is Ok
            &&& created matches Err(text) ==> step == ReconstructionStep::Finish(
                NextFaceStatus::OutputFailed(text),
            )
        }),
        ({
            let step = reconstruction_next(ReconstructionEvent::Ran { output, outcome });
            &&& step is Finish
            &&& step == ReconstructionStep::Finish(NextFaceStatus::Complete(output)) <==> outcome is Ok
                && outcome->Ok_0.0
            &&& outcome is Ok && !outcome->Ok_0.0 ==> step == ReconstructionStep::Finish(
                NextFaceStatus::Exited(outcome->Ok_0.1),
            )
            &&& outcome matches Err(text) ==> step == ReconstructionStep::Finish(
                NextFaceStatus::StartFailed(text),
            )
        }),
{
}

/// Statuses are told in these words, with the text that comes with them whole.
pub proof fn law_nextface_texts(text: String, error: DownloadError)
    ensures
        nextface_status_text(NextFaceStatus::Idle) == "NextFace idle"@,
        nextface_status_text(NextFaceStatus::NoFrame)
            == "Capture a frame before running reconstruction."@,
        nextface_status_text(NextFaceStatus::SaveFailed(text)) == "Could not save frame: "@ + text@,
        nextface_status_text(NextFaceStatus::Starting(text)) == "Starting NextFace… output: "@
            + text@,
        nextface_status_text(NextFaceStatus::NotFound(text)) == "NextFace not found: "@ + text@,
        nextface_status_text(NextFaceStatus::OutputFailed(text))
            == "NextFace output directory failed: "@ + text@,
        nextface_status_text(NextFaceStatus::Complete(text))
            == "NextFace complete · mesh/output: "@ + text@,
        nextface_status_text(NextFaceStatus::Exited(text)) == "NextFace exited with "@ + text@,
        nextface_status_text(NextFaceStatus::StartFailed(text)) == "Could not start NextFace: "@
            + text@,
        nextface_status_text(NextFaceStatus::SampleReady(text)) == "Sample ready: "@ + text@,
        nextface_status_text(NextFaceStatus::SampleFailed(error)) == "Sample download failed: "@
            + download_message(error),
{
}

/// The mesh is told with the number of its vertices first and then that of its triangles.
pub proof fn law_mesh_text(size: MeshSize)
    ensures
        mesh_text_of(None) == "NextFace mesh: not loaded"@,
        mesh_text_of(Some(size)) == "NextFace mesh: "@ + decimal(size.vertices as nat)
            + " vertices · "@ + decimal(size.faces as nat) + " triangles"@,
{
    assert(mesh_text_of(Some(size)) =~= "NextFace mesh: "@ + decimal(size.vertices as nat)
        + " vertices · "@ + decimal(size.faces as nat) + " triangles"@);
}

} // verus!
