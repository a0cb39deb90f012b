//! The second stage: the classes and the caption prefix.

use vstd::prelude::*;
use crate::controller::{Effect, Message};
use crate::session::{Class, SharedState};
use crate::text::{parse_decimal, parse_usize};

verus! {

/// What the two fields for a new class hold.
#[derive(Debug, Clone, PartialEq, Eq)]
pub struct OptionsState {
    pub class_input_label: String,
    pub class_input_repeats: usize,
}

impl Default for OptionsState {
    /// An empty label and a count of 1.
    fn default() -> (r: Self)
        ensures
            r.fresh(),
    {
        Self { class_input_label: String::new(), class_input_repeats: 1 }
    }
}

#[derive(Debug, Clone, PartialEq, Eq)]
pub enum OptionsMessage {
    /// Add a class with this label and this count.
    AddClass(String, usize),
    /// Remove the class at this position.
    DeleteClass(usize),
    /// A text field has changed to this text.
    InputChange(InputKind, String),
}

/// The text fields of this stage.
#[derive(Debug, Clone, Copy, PartialEq, Eq, Structural)]
pub enum InputKind {
    ClassLabel,
    ClassRepeats,
    PromptPrefill,
}

impl OptionsMessage {
    /// The message as one of the application's.
    pub fn into(self) -> (m: Message)
        ensures
            m == Message::Options(self),
    {
        Message::Options(self)
    }
}

impl OptionsState {
    /// The fields as they are when the stage is entered.
    pub open spec fn fresh(self) -> bool {
        self.class_input_label@.len() == 0 && self.class_input_repeats == 1
    }

    /// Whether the fields hold a class that may be added: a label that is not
    /// empty and a count other than 0.
    pub open spec fn spec_can_add(self) -> bool {
        self.class_input_label@.len() != 0 && self.class_input_repeats != 0
    }

    /// Whether the fields hold a class that may be added.
    pub fn can_add(&self) -> (r: bool)
        ensures
            r == self.spec_can_add(),
    {
        !self.class_input_label.as_str().is_empty() && self.class_input_repeats != 0
    }
}

/// The prefix that the text of its field stands for: none where it is empty.
pub open spec fn prefix_of(value: String) -> Option<String> {
    if value@.len() != 0 {
        Some(value)
    } else {
        None
    }
}

/// Whether `message` leads from the session `shared` and the fields `local` to
/// `shared_after` and `local_after`.
///
/// A class is added at the end, unless its label is empty or its count is 0:
/// then nothing changes. A class is removed by its position, and a position
/// behind the last class changes nothing. A count that is no number leaves the
/// count as it was. An empty prefix is no prefix.
pub open spec fn step(
    shared: SharedState,
    local: OptionsState,
    message: OptionsMessage,
    shared_after: SharedState,
    local_after: OptionsState,
) -> bool {
    match message {
        OptionsMessage::AddClass(label, repeats) => {
            &&& local_after == local
            &&& if label@.len() != 0 && repeats != 0 {
                &&& shared_after.classes@ == shared.classes@.push(Class { label, repeats })
                &&& shared_after.input_dir == shared.input_dir
                &&& shared_after.output_dir == shared.output_dir
                &&& shared_after.trash_dir == shared.trash_dir
                &&& shared_after.prompt_prefill == shared.prompt_prefill
            } else {
                shared_after == shared
            }
        },
        OptionsMessage::DeleteClass(index) => {
            &&& local_after == local
            &&& if index < shared.classes@.len() {
                &&& shared_after.classes@ == shared.classes@.remove(index as int)
                &&& shared_after.input_dir == shared.input_dir
                &&& shared_after.output_dir == shared.output_dir
                &&& shared_after.trash_dir == shared.trash_dir
                &&& shared_after.prompt_prefill == shared.prompt_prefill
            } else {
                shared_after == shared
            }
        },
        OptionsMessage::InputChange(InputKind::ClassLabel, value) => {
            &&& shared_after == shared
            &&& local_after == (OptionsState {
                class_input_label: value,
                class_input_repeats: local.class_input_repeats,
            })
        },
        OptionsMessage::InputChange(InputKind::ClassRepeats, value) => {
            &&& shared_after == shared
            &&& local_after == (OptionsState {
                class_input_label: local.class_input_label,
                class_input_repeats: match parse_decimal(value@) {
                    Some(repeats) => repeats,
                    None => local.class_input_repeats,
                },
            })
        },
        OptionsMessage::InputChange(InputKind::PromptPrefill, value) => {
            &&& local_after == local
            &&& shared_after == (SharedState {
                input_dir: shared.input_dir,
                output_dir: shared.output_dir,
                trash_dir: shared.trash_dir,
                classes: shared.classes,
                prompt_prefill: prefix_of(value),
            })
        },
    }
}

/// Handles a message of this stage. It asks nothing of the program.
pub fn update(state: &mut SharedState, local: &mut OptionsState, message: OptionsMessage) -> (effect:
    Effect)
    ensures
        step(*old(state), *old(local), message, *final(state), *final(local)),
        effect == Effect::Idle,
{
    match message {
        OptionsMessage::InputChange(kind, value) => match kind {
            InputKind::ClassLabel => {
                local.class_input_label = value;
            },
            InputKind::ClassRepeats => {
                match parse_usize(value.as_str()) {
                    Some(repeats) => {
                        local.class_input_repeats = repeats;
                    },
                    None => {},
                }
            },
            InputKind::PromptPrefill => {
                if !value.as_str().is_empty() {
                    state.prompt_prefill = Some(value);
                } else {
                    state.prompt_prefill = None;
                }
            },
        },
        OptionsMessage::AddClass(label, repeats) => {
            if !label.as_str().is_empty() && repeats != 0 {
                state.classes.push(Class { label, repeats });
            }
        },
        OptionsMessage::DeleteClass(index) => {
            if index < state.classes.len() {
                state.classes.remove(index);
            }
        },
    }
    Effect::Idle
}

/// A well-formed session stays well-formed: no message of this stage leaves a
/// class with an empty label or a count of 0, or a prefix that is set and
/// empty.
pub proof fn lemma_step_keeps_wf(
    shared: SharedState,
    local: OptionsState,
    message: OptionsMessage,
    shared_after: SharedState,
    local_after: OptionsState,
)
    requires
        shared.wf(),
        step(shared, local, message, shared_after, local_after),
    ensures
        shared_after.wf(),
{
}

/// After the field of the prefix has changed to the empty text, the session
/// has no prefix, whatever it had before.
pub proof fn lemma_empty_prefix_is_unset(
    shared: SharedState,
    local: OptionsState,
    value: String,
    shared_after: SharedState,
    local_after: OptionsState,
)
    requires
        value@.len() == 0,
        step(
            shared,
            local,
            OptionsMessage::InputChange(InputKind::PromptPrefill, value),
            shared_after,
            local_after,
        ),
    ensures
        shared_after.prompt_prefill is None,
{
}

/// Removing at a position behind the last class changes nothing.
pub proof fn lemma_stale_removal_is_ignored(
    shared: SharedState,
    local: OptionsState,
    index: usize,
    shared_after: SharedState,
    local_after: OptionsState,
)
    requires
        index >= shared.classes@.len(),
        step(shared, local, OptionsMessage::DeleteClass(index), shared_after, local_after),
    ensures
        shared_after == shared,
        local_after == local,
{
}

} // verus!
