//! The third stage: going through the images one at a time.

use vstd::prelude::*;
use crate::controller::{Effect, Message};
use crate::jobs::{Job, JobModel};
use crate::paths::{
    file_name, file_name_of, is_image, is_image_path, join, joined, lemma_join_keeps_file_name,
};
use crate::session::SharedState;
use crate::text::{appended, texts};

verus! {

/// The queue of images, the position in it, and the caption being written.
#[derive(Debug, Clone, PartialEq, Eq)]
pub struct LabelingState {
    /// The images found in the input directory, in the order of the listing.
    pub images: Vec<String>,
    /// The position of the image on display. It only ever grows, and the queue
    /// is exhausted when it has reached the queue's length.
    pub images_cursor: usize,
    /// The caption as the user has written it so far.
    pub input_prompt: String,
}

#[derive(Debug, Clone, PartialEq, Eq)]
pub enum LabelingMessage {
    /// The caption field has changed to this text.
    SetPrompt(String),
    /// Assign the image on display to the class at this position.
    SubmitLabel(usize),
    /// List the input directory.
    Index,
    /// The input directory holds these images.
    FinishIndexing(Vec<String>),
    /// Go on to the next image.
    NextImage,
    /// The queue is exhausted.
    NoImagesLeft,
    /// Take the image on display out of the input directory.
    TrashCurrent,
}

impl LabelingMessage {
    /// The message as one of the application's.
    pub fn into(self) -> (m: Message)
        ensures
            m == Message::Labeling(self),
    {
        Message::Labeling(self)
    }
}

impl Default for LabelingState {
    /// No image, and an empty caption.
    fn default() -> (r: Self)
        ensures
            r.images@.len() == 0,
            r.images_cursor == 0,
            r.input_prompt@.len() == 0,
    {
        Self { images: Vec::new(), images_cursor: 0, input_prompt: String::new() }
    }
}

impl LabelingState {
    /// The state on entering the stage: no image yet, and the caption seeded
    /// with the session's prefix.
    pub open spec fn entered(self, shared: SharedState) -> bool {
        &&& self.images@.len() == 0
        &&& self.images_cursor == 0
        &&& self.input_prompt@ == shared.seed()
    }

    /// The state on entering the stage.
    pub fn enter(shared: &SharedState) -> (r: Self)
        ensures
            r.entered(*shared),
    {
        Self { images: Vec::new(), images_cursor: 0, input_prompt: shared.caption_seed() }
    }

    /// Whether every image of the queue has been gone through; so also while
    /// the queue is still empty.
    pub open spec fn exhausted(self) -> bool {
        self.images_cursor >= self.images@.len()
    }

    /// The image on display: the one at the cursor, if the queue reaches that
    /// far.
    pub open spec fn current(self) -> Option<String> {
        if self.images_cursor < self.images@.len() {
            Some(self.images@[self.images_cursor as int])
        } else {
            None
        }
    }

    /// The image on display.
    pub fn current_image(&self) -> (r: Option<String>)
        ensures
            r == self.current(),
    {
        if self.images_cursor < self.images.len() {
            Some(self.images[self.images_cursor].clone())
        } else {
            None
        }
    }
}

/// The work that assigns `image` to the class at `class_index` with `caption`:
/// the image goes into the class's directory under its own file name, and the
/// caption beside it.
pub open spec fn assignment(
    shared: SharedState,
    image: Seq<char>,
    class_index: int,
    caption: Seq<char>,
) -> JobModel {
    JobModel::Assign {
        source: image,
        destination: joined(
            shared.classes@[class_index].target_dir(shared.output_dir@),
            file_name(image),
        ),
        caption,
    }
}

/// An assigned image keeps its file name: the last component of where it goes
/// is the last component of where it was.
pub proof fn lemma_assignment_keeps_file_name(
    shared: SharedState,
    image: Seq<char>,
    class_index: int,
    caption: Seq<char>,
)
    ensures
        assignment(shared, image, class_index, caption) matches JobModel::Assign {
            source,
            destination,
            ..
        } && source == image && file_name(destination) == file_name(image),
{
    lemma_join_keeps_file_name(
        shared.classes@[class_index].target_dir(shared.output_dir@),
        image,
    );
}

/// The work that trashes `image`: with a trash directory it is copied there
/// under its own file name before it is deleted, without one it is only
/// deleted.
pub open spec fn trashing(shared: SharedState, image: Seq<char>) -> JobModel {
    JobModel::Trash {
        source: image,
        destination: match shared.trash_dir {
            Some(dir) => Some(joined(dir@, file_name(image))),
            None => None,
        },
    }
}

/// Whether `message` leads from `local` to `local_after` with `effect`, in the
/// session `shared`.
///
/// A message that needs an image on display, or a class, changes nothing and
/// asks nothing when there is none. The caption goes into the assignment as it
/// stands and the field starts again from the session's prefix.
pub open spec fn step(
    shared: SharedState,
    local: LabelingState,
    message: LabelingMessage,
    local_after: LabelingState,
    effect: Effect,
) -> bool {
    match message {
        LabelingMessage::Index => {
            &&& local_after == local
            &&& effect == Effect::ListDirectory(shared.input_dir)
        },
        LabelingMessage::FinishIndexing(images) => if images@.len() == 0 {
            &&& local_after == local
            &&& effect matches Effect::Deliver(Message::FatalError(text))
            &&& text@ == "No images found"@
        } else {
            &&& local_after == (LabelingState {
                images,
                images_cursor: 0,
                input_prompt: local.input_prompt,
            })
            &&& effect == Effect::Idle
        },
        LabelingMessage::NextImage => if local.exhausted() {
            &&& local_after == local
            &&& effect == Effect::Idle
        } else {
            &&& local_after.images == local.images
            &&& local_after.images_cursor == local.images_cursor + 1
            &&& local_after.input_prompt == local.input_prompt
            &&& effect == (if local_after.exhausted() {
                Effect::Deliver(Message::Labeling(LabelingMessage::NoImagesLeft))
            } else {
                Effect::Idle
            })
        },
        LabelingMessage::SetPrompt(value) => {
            &&& local_after == (LabelingState {
                images: local.images,
                images_cursor: local.images_cursor,
                input_prompt: value,
            })
            &&& effect == Effect::Idle
        },
        LabelingMessage::NoImagesLeft => {
            &&& local_after == local
            &&& effect matches Effect::Deliver(Message::ShowText(title, body))
            &&& title@ == "Done!"@
            &&& body@ == "No more images to label."@
        },
        LabelingMessage::TrashCurrent => {
            &&& local_after == local
            &&& match local.current() {
                Some(image) => {
                    &&& effect matches Effect::Run(job)
                    &&& job@ == trashing(shared, image@)
                },
                None => effect == Effect::Idle,
            }
        },
        LabelingMessage::SubmitLabel(class_index) => match local.current() {
            Some(image) if class_index < shared.classes@.len() => {
                &&& local_after.images == local.images
                &&& local_after.images_cursor == local.images_cursor
                &&& local_after.input_prompt@ == shared.seed()
                &&& effect matches Effect::Run(job)
                &&& job@ == assignment(shared, image@, class_index as int, local.input_prompt@)
            },
            _ => {
                &&& local_after == local
                &&& effect == Effect::Idle
            },
        },
    }
}

/// The cursor never goes back and never passes the end of the queue; only a
/// new listing, which replaces the queue, sets it to the first image again.
pub proof fn lemma_cursor_only_advances(
    shared: SharedState,
    local: LabelingState,
    message: LabelingMessage,
    local_after: LabelingState,
    effect: Effect,
)
    requires
        step(shared, local, message, local_after, effect),
        local.images_cursor <= local.images@.len(),
    ensures
        local_after.images_cursor <= local_after.images@.len(),
        !(message is FinishIndexing) ==> local_after.images == local.images
            && local.images_cursor <= local_after.images_cursor <= local.images_cursor + 1,
{
}

/// Handles a message of this stage. The session is read and left as it is.
pub fn update(shared: &mut SharedState, local: &mut LabelingState, message: LabelingMessage) -> (effect:
    Effect)
    ensures
        *final(shared) == *old(shared),
        step(*old(shared), *old(local), message, *final(local), effect),
{
    match message {
        LabelingMessage::Index => Effect::ListDirectory(shared.input_dir.clone()),
        LabelingMessage::FinishIndexing(images) => {
            if images.len() == 0 {
                return Effect::Deliver(Message::FatalError("No images found".to_owned()));
            }
            local.images = images;
            local.images_cursor = 0;
            Effect::Idle
        },
        LabelingMessage::NextImage => {
            if local.images_cursor >= local.images.len() {
                return Effect::Idle;
            }
            local.images_cursor = local.images_cursor + 1;
            if local.images_cursor < local.images.len() {
                Effect::Idle
            } else {
                Effect::Deliver(Message::Labeling(LabelingMessage::NoImagesLeft))
            }
        },
        LabelingMessage::SetPrompt(value) => {
            local.input_prompt = value;
            Effect::Idle
        },
        LabelingMessage::NoImagesLeft => Effect::Deliver(
            Message::ShowText("Done!".to_owned(), "No more images to label.".to_owned()),
        ),
        LabelingMessage::TrashCurrent => {
            match local.current_image() {
                Some(image) => {
                    let destination = match &shared.trash_dir {
                        Some(dir) => Some(
                            join(dir.as_str(), file_name_of(image.as_str()).as_str()),
                        ),
                        None => None,
                    };
                    Effect::Run(Job::Trash { source: image, destination })
                },
                None => Effect::Idle,
            }
        },
        LabelingMessage::SubmitLabel(class_index) => {
            match local.current_image() {
                Some(image) => {
                    if class_index >= shared.classes.len() {
                        return Effect::Idle;
                    }
                    let class_dir = shared.classes[class_index].path(shared.output_dir.clone());
                    let destination = join(
                        class_dir.as_str(),
                        file_name_of(image.as_str()).as_str(),
                    );
                    let mut caption = shared.caption_seed();
                    core::mem::swap(&mut local.input_prompt, &mut caption);
                    Effect::Run(Job::Assign { source: image, destination, caption })
                },
                None => Effect::Idle,
            }
        },
    }
}

/// One entry of a directory listing.
#[derive(Debug, Clone, PartialEq, Eq)]
pub enum Listed {
    /// A regular file at this path.
    File(String),
    /// Something else at this path: a directory, for one.
    Other(String),
    /// An entry that could not be read, with the error.
    Unreadable(String),
}

/// The error of the first entry that could not be read.
pub open spec fn first_unreadable(entries: Seq<Listed>) -> Option<Seq<char>>
    decreases entries.len(),
{
    if entries.len() == 0 {
        None
    } else {
        match first_unreadable(entries.drop_last()) {
            Some(error) => Some(error),
            None => match entries.last() {
                Listed::Unreadable(error) => Some(error@),
                _ => None,
            },
        }
    }
}

/// The images among the entries, in the order of the listing: the regular
/// files whose extension is that of an image.
pub open spec fn images_among(entries: Seq<Listed>) -> Seq<Seq<char>>
    decreases entries.len(),
{
    if entries.len() == 0 {
        Seq::empty()
    } else {
        match entries.last() {
            Listed::File(path) if is_image_path(path@) => images_among(entries.drop_last()).push(
                path@,
            ),
            _ => images_among(entries.drop_last()),
        }
    }
}

/// What a listing of the input directory leads to. A listing that failed, or
/// an entry that could not be read, is a fatal error that carries the error's
/// text; otherwise the images among the entries become the queue.
pub open spec fn indexing(listing: Result<Vec<Listed>, String>, m: Message) -> bool {
    match listing {
        Err(error) => {
            &&& m matches Message::FatalError(text)
            &&& text@ == "Failed to read input directory: "@ + error@
        },
        Ok(entries) => match first_unreadable(entries@) {
            Some(error) => {
                &&& m matches Message::FatalError(text)
                &&& text@ == "Failed to read entry: "@ + error
            },
            None => {
                &&& m matches Message::Labeling(LabelingMessage::FinishIndexing(images))
                &&& texts(images@) == images_among(entries@)
            },
        },
    }
}

/// The message that follows a listing of the input directory.
pub fn indexed(listing: Result<Vec<Listed>, String>) -> (m: Message)
    ensures
        indexing(listing, m),
{
    match listing {
        Err(error) => Message::FatalError(
            appended("Failed to read input directory: ", error.as_str()),
        ),
        Ok(entries) => {
            let mut images: Vec<String> = Vec::new();
            let mut i: usize = 0;
            while i < entries.len()
                invariant
                    listing == Ok::<Vec<Listed>, String>(entries),
                    i <= entries@.len(),
                    first_unreadable(entries@.subrange(0, i as int)) is None,
                    texts(images@) == images_among(entries@.subrange(0, i as int)),
                decreases entries@.len() - i,
            {
                let ghost before = entries@.subrange(0, i as int);
                let ghost now = entries@.subrange(0, i + 1);
                assert(now.drop_last() =~= before);
                assert(now.last() == entries@[i as int]);
                match &entries[i] {
                    Listed::File(path) => {
                        if is_image(path.as_str()) {
                            images.push(path.clone());
                            assert(texts(images@) =~= images_among(before).push(path@));
                        }
                    },
                    Listed::Other(_) => {},
                    Listed::Unreadable(error) => {
                        proof {
                            lemma_first_unreadable(entries@, i as int);
                        }
                        return Message::FatalError(
                            appended("Failed to read entry: ", error.as_str()),
                        );
                    },
                }
                i += 1;
            }
            assert(entries@.subrange(0, i as int) =~= entries@);
            Message::Labeling(LabelingMessage::FinishIndexing(images))
        },
    }
}

/// The first unreadable entry is the one that has only readable entries
/// before it.
pub proof fn lemma_first_unreadable(entries: Seq<Listed>, k: int)
    requires
        0 <= k < entries.len(),
        first_unreadable(entries.subrange(0, k)) is None,
        entries[k] is Unreadable,
    ensures
        match entries[k] {
            Listed::Unreadable(error) => first_unreadable(entries) == Some(error@),
            _ => true,
        },
    decreases entries.len(),
{
    if k == entries.len() - 1 {
        assert(entries.drop_last() =~= entries.subrange(0, k));
    } else {
        assert(entries.drop_last().subrange(0, k) =~= entries.subrange(0, k));
        lemma_first_unreadable(entries.drop_last(), k);
    }
}

} // verus!
