//! The first stage: choosing the directories.

use vstd::prelude::*;
use crate::controller::{Effect, Message};
use crate::session::SharedState;

verus! {

/// The directories chosen so far.
#[derive(Debug, Clone, PartialEq, Eq)]
pub struct SetupState {
    pub input_dir: Option<String>,
    pub output_dir: Option<String>,
    pub trash_dir: Option<String>,
}

/// Which of the three directories a message is about.
#[derive(Debug, Clone, Copy, PartialEq, Eq, Structural)]
pub enum DirectoryKind {
    Input,
    Output,
    Trash,
}

#[derive(Debug, Clone, PartialEq, Eq)]
pub enum SetupMessage {
    /// The directory of this kind is now this path.
    SetPath(DirectoryKind, String),
    /// Let the user pick the directory of this kind.
    OpenChooser(DirectoryKind),
}

impl SetupMessage {
    /// The message as one of the application's.
    pub fn into(self) -> (m: Message)
        ensures
            m == Message::Setup(self),
    {
        Message::Setup(self)
    }
}

/// Whether a directory is chosen: there is a path, and it is not empty.
pub open spec fn chosen(dir: Option<String>) -> bool {
    match dir {
        Some(path) => path@.len() > 0,
        None => false,
    }
}

fn is_chosen(dir: &Option<String>) -> (r: bool)
    ensures
        r == chosen(*dir),
{
    match dir {
        Some(path) => !path.as_str().is_empty(),
        None => false,
    }
}

impl SetupState {
    /// The state in which nothing is chosen.
    pub open spec fn empty() -> SetupState {
        SetupState { input_dir: None, output_dir: None, trash_dir: None }
    }

    /// Whether the next stage may begin: the input and the output directory
    /// are chosen, and neither path is empty. The trash directory is never
    /// needed.
    pub open spec fn spec_can_begin(self) -> bool {
        chosen(self.input_dir) && chosen(self.output_dir)
    }

    /// Whether the next stage may begin.
    pub fn can_begin(&self) -> (r: bool)
        ensures
            r == self.spec_can_begin(),
    {
        is_chosen(&self.output_dir) && is_chosen(&self.input_dir)
    }

    /// The session that starts from these directories, with no class and no
    /// prefix; none where the input or the output directory is missing or
    /// empty.
    pub fn into(self) -> (r: Option<SharedState>)
        ensures
            r is Some <==> self.spec_can_begin(),
            r matches Some(shared) ==> {
                &&& Some(shared.input_dir) == self.input_dir
                &&& Some(shared.output_dir) == self.output_dir
                &&& shared.trash_dir == self.trash_dir
                &&& shared.classes@.len() == 0
                &&& shared.prompt_prefill is None
            },
    {
        if !self.can_begin() {
            return None;
        }
        match (self.input_dir, self.output_dir) {
            (Some(input_dir), Some(output_dir)) => Some(
                SharedState {
                    input_dir,
                    output_dir,
                    trash_dir: self.trash_dir,
                    classes: Vec::new(),
                    prompt_prefill: None,
                },
            ),
            _ => None,
        }
    }
}

/// What a text field shows for a directory: its path, or nothing while it is
/// not chosen.
pub fn opt_buf_to_string(buf: Option<String>) -> (r: String)
    ensures
        r@ == (match buf {
            Some(path) => path@,
            None => Seq::<char>::empty(),
        }),
{
    match buf {
        Some(path) => path,
        None => String::new(),
    }
}

/// The state after `message`.
pub open spec fn next(state: SetupState, message: SetupMessage) -> SetupState {
    match message {
        SetupMessage::OpenChooser(_) => state,
        SetupMessage::SetPath(DirectoryKind::Input, path) => SetupState {
            input_dir: Some(path),
            output_dir: state.output_dir,
            trash_dir: state.trash_dir,
        },
        SetupMessage::SetPath(DirectoryKind::Output, path) => SetupState {
            input_dir: state.input_dir,
            output_dir: Some(path),
            trash_dir: state.trash_dir,
        },
        SetupMessage::SetPath(DirectoryKind::Trash, path) => SetupState {
            input_dir: state.input_dir,
            output_dir: state.output_dir,
            trash_dir: Some(path),
        },
    }
}

/// What `message` asks of the program.
pub open spec fn effect_of(message: SetupMessage) -> Effect {
    match message {
        SetupMessage::OpenChooser(kind) => Effect::PickFolder(kind),
        SetupMessage::SetPath(_, _) => Effect::Idle,
    }
}

/// Handles a message of this stage: stores a path, or asks for the folder
/// picker.
pub fn update(state: &mut SetupState, message: SetupMessage) -> (effect: Effect)
    ensures
        *final(state) == next(*old(state), message),
        effect == effect_of(message),
{
    match message {
        SetupMessage::OpenChooser(kind) => Effect::PickFolder(kind),
        SetupMessage::SetPath(kind, path) => {
            match kind {
                DirectoryKind::Input => {
                    state.input_dir = Some(path);
                },
                DirectoryKind::Output => {
                    state.output_dir = Some(path);
                },
                DirectoryKind::Trash => {
                    state.trash_dir = Some(path);
                },
            }
            Effect::Idle
        },
    }
}

/// The message that follows the folder picker: the chosen path is stored;
/// when the user has dismissed the picker, nothing happens.
pub fn picked(kind: DirectoryKind, choice: Option<String>) -> (m: Message)
    ensures
        m == (match choice {
            Some(path) => Message::Setup(SetupMessage::SetPath(kind, path)),
            None => Message::NoOp,
        }),
{
    match choice {
        Some(path) => Message::Setup(SetupMessage::SetPath(kind, path)),
        None => Message::NoOp,
    }
}

} // verus!
