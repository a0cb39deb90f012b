//! File work that the program performs for the library, step by step.
//!
//! A [`Job`] is a short list of file operations that must run in order and stop
//! at the first failure. Nothing is undone: where a later step fails, what the
//! earlier ones did stays. After an assignment whose copy succeeded, the image
//! may so exist in the dataset while it is still in the input directory.

use vstd::prelude::*;
use crate::controller::Message;
use crate::paths::{caption_path, caption_path_of};
use crate::text::{debug_text, quoted, texts};
use crate::views::labeling::LabelingMessage;

verus! {

/// One file operation.
#[derive(Debug, Clone, PartialEq, Eq)]
pub enum FileStep {
    /// Copy the file at `from` to `to`.
    Copy { from: String, to: String },
    /// Delete the file at `path`.
    Remove { path: String },
    /// Write `text`, and nothing else, to the file at `path`.
    Write { path: String, text: String },
    /// Create the directory at `path` and every missing directory above it.
    CreateDirAll { path: String },
}

/// A file operation, by the characters of its paths and text.
pub enum StepModel {
    Copy { from: Seq<char>, to: Seq<char> },
    Remove { path: Seq<char> },
    Write { path: Seq<char>, text: Seq<char> },
    CreateDirAll { path: Seq<char> },
}

impl View for FileStep {
    type V = StepModel;

    open spec fn view(&self) -> StepModel {
        match *self {
            FileStep::Copy { from, to } => StepModel::Copy { from: from@, to: to@ },
            FileStep::Remove { path } => StepModel::Remove { path: path@ },
            FileStep::Write { path, text } => StepModel::Write { path: path@, text: text@ },
            FileStep::CreateDirAll { path } => StepModel::CreateDirAll { path: path@ },
        }
    }
}

/// A unit of file work.
#[derive(Debug, Clone, PartialEq, Eq)]
pub enum Job {
    /// Make sure that the directory of every class exists.
    CreateDirs { dirs: Vec<String> },
    /// Move the image at `source` to `destination` and write its caption
    /// beside it.
    Assign { source: String, destination: String, caption: String },
    /// Take the image at `source` out of the input directory, keeping a copy
    /// at `destination` where there is one.
    Trash { source: String, destination: Option<String> },
}

/// A unit of file work, by the characters of its paths and text.
pub enum JobModel {
    CreateDirs { dirs: Seq<Seq<char>> },
    Assign { source: Seq<char>, destination: Seq<char>, caption: Seq<char> },
    Trash { source: Seq<char>, destination: Option<Seq<char>> },
}

impl JobModel {
    /// The steps of the job, in the order in which they run.
    pub open spec fn steps(self) -> Seq<StepModel> {
        match self {
            JobModel::CreateDirs { dirs } => Seq::new(
                dirs.len(),
                |i: int| StepModel::CreateDirAll { path: dirs[i] },
            ),
            JobModel::Assign { source, destination, caption } => seq![
                StepModel::Copy { from: source, to: destination },
                StepModel::Remove { path: source },
                StepModel::Write { path: caption_path(destination), text: caption },
            ],
            JobModel::Trash { source, destination: Some(destination) } => seq![
                StepModel::Copy { from: source, to: destination },
                StepModel::Remove { path: source },
            ],
            JobModel::Trash { source, destination: None } => seq![
                StepModel::Remove { path: source },
            ],
        }
    }

    /// What is reported when the step at `step` fails with `error`: what was
    /// attempted, the quoted paths it was attempted on, and the error.
    pub open spec fn failure_text(self, step: int, error: Seq<char>) -> Seq<char> {
        match self.steps()[step] {
            StepModel::CreateDirAll { path } => "Unable to create directory "@ + debug_text(path)
                + ": "@ + error,
            StepModel::Copy { from, to } => (if self is Assign {
                "Failed to copy image from "@
            } else {
                "Failed to move "@
            }) + debug_text(from) + " to "@ + debug_text(to) + ": "@ + error,
            StepModel::Remove { path } => (if self is Assign {
                "Failed to remove image "@
            } else {
                "Failed to delete "@
            }) + debug_text(path) + ": "@ + error,
            StepModel::Write { path, text } => "Failed to write prompt to "@ + debug_text(path)
                + ": "@ + error,
        }
    }
}

/// The files of a file system, by path: what each holds.
pub type Files = Map<Seq<char>, Seq<char>>;

/// The files after one step that has succeeded. Directories hold nothing, so
/// creating one leaves the files as they are.
pub open spec fn after_step(files: Files, step: StepModel) -> Files {
    match step {
        StepModel::Copy { from, to } => files.insert(to, files[from]),
        StepModel::Remove { path } => files.remove(path),
        StepModel::Write { path, text } => files.insert(path, text),
        StepModel::CreateDirAll { path } => files,
    }
}

/// The files after the first `count` steps have succeeded, in order.
pub open spec fn after_steps(files: Files, steps: Seq<StepModel>, count: nat) -> Files
    decreases count,
{
    if count == 0 {
        files
    } else {
        after_step(after_steps(files, steps, (count - 1) as nat), steps[count - 1])
    }
}

/// An assignment that runs to its end moves the image and writes the caption:
/// the destination holds what the source held, the caption file holds the
/// caption and nothing else, the source is gone, and every other file is as
/// it was.
pub proof fn lemma_assignment_moves_and_captions(
    files: Files,
    source: Seq<char>,
    destination: Seq<char>,
    caption: Seq<char>,
)
    requires
        source != destination,
        caption_path(destination) != source,
    ensures
        ({
            let job = JobModel::Assign { source, destination, caption };
            let end = after_steps(files, job.steps(), 3);
            &&& job.steps().len() == 3
            &&& end == files.insert(destination, files[source]).remove(source).insert(
                caption_path(destination),
                caption,
            )
            &&& !end.dom().contains(source)
            &&& end[caption_path(destination)] == caption
            &&& caption_path(destination) != destination ==> end.dom().contains(destination)
                && end[destination] == files[source]
        }),
{
    let job = JobModel::Assign { source, destination, caption };
    reveal_with_fuel(after_steps, 4);
    assert(after_steps(files, job.steps(), 1) == files.insert(destination, files[source]));
}

/// An assignment whose caption cannot be written leaves the image moved and
/// no caption: the destination holds what the source held, the source is
/// gone, and the caption file is there only if it was there before. Nothing
/// is undone, and the failure that is reported names the caption file.
pub proof fn lemma_failed_caption_leaves_image_moved(
    files: Files,
    source: Seq<char>,
    destination: Seq<char>,
    caption: Seq<char>,
    error: Seq<char>,
)
    requires
        source != destination,
        caption_path(destination) != source,
        caption_path(destination) != destination,
    ensures
        ({
            let job = JobModel::Assign { source, destination, caption };
            let end = after_steps(files, job.steps(), 2);
            &&& end == files.insert(destination, files[source]).remove(source)
            &&& end.dom().contains(destination)
            &&& !end.dom().contains(source)
            &&& end.dom().contains(caption_path(destination)) <==> files.dom().contains(
                caption_path(destination),
            )
            &&& job.failure_text(2, error) == "Failed to write prompt to "@ + debug_text(
                caption_path(destination),
            ) + ": "@ + error
        }),
{
    reveal_with_fuel(after_steps, 3);
}

/// An assignment whose copy has succeeded and whose delete fails leaves the
/// image in both places: once copied, at least, and never lost.
pub proof fn lemma_failed_delete_leaves_both(
    files: Files,
    source: Seq<char>,
    destination: Seq<char>,
    caption: Seq<char>,
)
    requires
        files.dom().contains(source),
    ensures
        ({
            let job = JobModel::Assign { source, destination, caption };
            let end = after_steps(files, job.steps(), 1);
            &&& end.dom().contains(source)
            &&& end.dom().contains(destination)
            &&& end[source] == files[source]
            &&& end[destination] == files[source]
        }),
{
    reveal_with_fuel(after_steps, 2);
}

/// Trashing without a trash directory deletes the image and creates no file
/// anywhere; with one, the image is first copied to its place there.
pub proof fn lemma_trash_deletes_or_moves(files: Files, source: Seq<char>, kept: Seq<char>)
    requires
        source != kept,
    ensures
        ({
            let job = JobModel::Trash { source, destination: None };
            &&& job.steps().len() == 1
            &&& after_steps(files, job.steps(), 1) == files.remove(source)
            &&& after_steps(files, job.steps(), 1).dom().subset_of(files.dom())
        }),
        ({
            let job = JobModel::Trash { source, destination: Some(kept) };
            let end = after_steps(files, job.steps(), 2);
            &&& job.steps().len() == 2
            &&& end == files.insert(kept, files[source]).remove(source)
            &&& end[kept] == files[source]
            &&& !end.dom().contains(source)
        }),
{
    reveal_with_fuel(after_steps, 3);
}

impl View for Job {
    type V = JobModel;

    open spec fn view(&self) -> JobModel {
        match *self {
            Job::CreateDirs { dirs } => JobModel::CreateDirs { dirs: texts(dirs@) },
            Job::Assign { source, destination, caption } => JobModel::Assign {
                source: source@,
                destination: destination@,
                caption: caption@,
            },
            Job::Trash { source, destination: Some(destination) } => JobModel::Trash {
                source: source@,
                destination: Some(destination@),
            },
            Job::Trash { source, destination: None } => JobModel::Trash {
                source: source@,
                destination: None,
            },
        }
    }
}

/// What one path and one error add to a report that starts with `lead`.
fn report_one(lead: &str, path: &str, error: &str) -> (r: String)
    ensures
        r@ == lead@ + debug_text(path@) + ": "@ + error@,
{
    let mut r = lead.to_owned();
    r.push_str(quoted(path).as_str());
    r.push_str(": ");
    r.push_str(error);
    r
}

/// What two paths and one error add to a report that starts with `lead`.
fn report_two(lead: &str, from: &str, to: &str, error: &str) -> (r: String)
    ensures
        r@ == lead@ + debug_text(from@) + " to "@ + debug_text(to@) + ": "@ + error@,
{
    let mut r = lead.to_owned();
    r.push_str(quoted(from).as_str());
    r.push_str(" to ");
    r.push_str(quoted(to).as_str());
    r.push_str(": ");
    r.push_str(error);
    r
}

impl Job {
    /// The steps of the job, in the order in which they must run.
    pub fn steps(&self) -> (r: Vec<FileStep>)
        ensures
            r@.len() == self@.steps().len(),
            forall|i: int| 0 <= i < r@.len() ==> (#[trigger] r@[i])@ == self@.steps()[i],
    {
        let mut r: Vec<FileStep> = Vec::new();
        match self {
            Job::CreateDirs { dirs } => {
                let mut i: usize = 0;
                while i < dirs.len()
                    invariant
                        i <= dirs@.len(),
                        r@.len() == i,
                        forall|j: int|
                            0 <= j < i ==> (#[trigger] r@[j])@ == (StepModel::CreateDirAll {
                                path: dirs@[j]@,
                            }),
                    decreases dirs@.len() - i,
                {
                    r.push(FileStep::CreateDirAll { path: dirs[i].clone() });
                    i += 1;
                }
            },
            Job::Assign { source, destination, caption } => {
                r.push(FileStep::Copy { from: source.clone(), to: destination.clone() });
                r.push(FileStep::Remove { path: source.clone() });
                r.push(
                    FileStep::Write {
                        path: caption_path_of(destination.as_str()),
                        text: caption.clone(),
                    },
                );
            },
            Job::Trash { source, destination } => {
                match destination {
                    Some(destination) => {
                        r.push(FileStep::Copy { from: source.clone(), to: destination.clone() });
                    },
                    None => {},
                }
                r.push(FileStep::Remove { path: source.clone() });
            },
        }
        r
    }

    /// The message to deliver when every step has succeeded.
    pub fn done(&self) -> (m: Message)
        ensures
            m == (if self is CreateDirs {
                Message::ClassDirsReady
            } else {
                Message::Labeling(LabelingMessage::NextImage)
            }),
    {
        match self {
            Job::CreateDirs { .. } => Message::ClassDirsReady,
            _ => Message::Labeling(LabelingMessage::NextImage),
        }
    }

    /// The message to deliver when the step at `step` has failed with `error`,
    /// the steps before it have succeeded and those behind it were not run:
    /// a fatal error. There is none where the job has no such step.
    pub fn failed(&self, step: usize, error: &str) -> (m: Option<Message>)
        ensures
            m is Some <==> step < self@.steps().len(),
            m matches Some(message) ==> message matches Message::FatalError(text) && text@
                == self@.failure_text(step as int, error@),
    {
        let text = match self {
            Job::CreateDirs { dirs } => {
                if step >= dirs.len() {
                    return None;
                }
                report_one("Unable to create directory ", dirs[step].as_str(), error)
            },
            Job::Assign { source, destination, caption } => {
                if step == 0 {
                    report_two(
                        "Failed to copy image from ",
                        source.as_str(),
                        destination.as_str(),
                        error,
                    )
                } else if step == 1 {
                    report_one("Failed to remove image ", source.as_str(), error)
                } else if step == 2 {
                    let caption_file = caption_path_of(destination.as_str());
                    report_one("Failed to write prompt to ", caption_file.as_str(), error)
                } else {
                    return None;
                }
            },
            Job::Trash { source, destination: Some(destination) } => {
                if step == 0 {
                    report_two("Failed to move ", source.as_str(), destination.as_str(), error)
                } else if step == 1 {
                    report_one("Failed to delete ", source.as_str(), error)
                } else {
                    return None;
                }
            },
            Job::Trash { source, destination: None } => {
                if step == 0 {
                    report_one("Failed to delete ", source.as_str(), error)
                } else {
                    return None;
                }
            },
        };
        Some(Message::FatalError(text))
    }
}

} // verus!
