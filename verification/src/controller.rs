//! The application: one stage at a time, and the messages that move it.

use vstd::prelude::*;
use vstd::view::View as _;
use crate::jobs::{Job, JobModel};
use crate::session::SharedState;
use crate::views::labeling::{LabelingMessage, LabelingState};
use crate::views::options::{OptionsMessage, OptionsState};
use crate::views::setup::{DirectoryKind, SetupMessage, SetupState};
use crate::views::{labeling, options, setup};

verus! {

#[derive(Debug, Clone, PartialEq, Eq)]
pub enum Message {
    /// Nothing has happened.
    NoOp,
    /// Start again from the choice of directories, with nothing kept.
    ResetState,
    /// A message for the first stage.
    Setup(SetupMessage),
    /// The directories are chosen.
    SetupDone(SetupState),
    /// A message for the second stage.
    Options(OptionsMessage),
    /// Leave the labeling, back to the classes.
    GoOptions,
    /// Begin the labeling.
    GoLabel,
    /// The directory of every class exists.
    ClassDirsReady,
    /// A message for the third stage.
    Labeling(LabelingMessage),
    /// End with a notice: a title and a text. This is no failure.
    ShowText(String, String),
    /// End with a failure and its description.
    FatalError(String),
}

/// What the program is to do after a message has been handled.
#[derive(Debug, Clone, PartialEq, Eq)]
pub enum Effect {
    /// Nothing.
    Idle,
    /// Hand this message to the application next.
    Deliver(Message),
    /// Let the user pick a folder, one that the user may create on the way,
    /// and deliver what `setup::picked` makes of the choice.
    PickFolder(DirectoryKind),
    /// List the directory at this path and deliver what `labeling::indexed`
    /// makes of the listing.
    ListDirectory(String),
    /// Run the steps of the job in order, as one unit, up to the first that
    /// fails, and deliver what the job's `done` or `failed` makes of it.
    Run(Job),
}

/// The stage that is live.
#[derive(Debug, Clone, PartialEq, Eq)]
pub enum View {
    Setup(SetupState),
    Options(SharedState, OptionsState),
    Labeling(SharedState, LabelingState),
    /// The end: a failure, or with a title a notice that is none.
    FatalError(Option<String>, String),
}

impl Default for View {
    /// The first stage, with nothing chosen.
    fn default() -> (r: Self)
        ensures
            r == View::Setup(SetupState::empty()),
    {
        Self::Setup(SetupState { input_dir: None, output_dir: None, trash_dir: None })
    }
}

/// Whether `message` leads from the stage `before` to `after` with `effect`.
///
/// A message for a stage that is not live changes nothing and asks nothing,
/// and so does a request that the live stage cannot grant: to begin the labeling
/// without a class, or to end the choice of directories without an input or
/// an output directory.
pub open spec fn transition(before: View, message: Message, after: View, effect: Effect) -> bool {
    match message {
        Message::NoOp => after == before && effect == Effect::Idle,
        Message::ResetState => after == View::Setup(SetupState::empty()) && effect == Effect::Idle,
        Message::FatalError(description) => after == View::FatalError(None, description) && effect
            == Effect::Idle,
        Message::ShowText(title, body) => after == View::FatalError(Some(title), body) && effect
            == Effect::Idle,
        Message::Setup(message) => match before {
            View::Setup(state) => after == View::Setup(setup::next(state, message)) && effect
                == setup::effect_of(message),
            _ => after == before && effect == Effect::Idle,
        },
        Message::SetupDone(state) => {
            &&& effect == Effect::Idle
            &&& if state.spec_can_begin() {
                &&& after matches View::Options(shared, local)
                &&& Some(shared.input_dir) == state.input_dir
                &&& Some(shared.output_dir) == state.output_dir
                &&& shared.trash_dir == state.trash_dir
                &&& shared.classes@.len() == 0
                &&& shared.prompt_prefill is None
                &&& local.fresh()
            } else {
                after == before
            }
        },
        Message::Options(message) => match before {
            View::Options(shared, local) => {
                &&& after matches View::Options(shared_after, local_after)
                &&& options::step(shared, local, message, shared_after, local_after)
                &&& effect == Effect::Idle
            },
            _ => after == before && effect == Effect::Idle,
        },
        Message::GoOptions => {
            &&& effect == Effect::Idle
            &&& match before {
                View::Labeling(shared, _) => {
                    &&& after matches View::Options(shared_after, local)
                    &&& shared_after == shared
                    &&& local.fresh()
                },
                _ => after == before,
            }
        },
        Message::GoLabel => {
            &&& after == before
            &&& match before {
                View::Options(shared, _) if shared.spec_can_label() => {
                    &&& effect matches Effect::Run(job)
                    &&& job@ == (JobModel::CreateDirs { dirs: shared.target_dirs() })
                },
                _ => effect == Effect::Idle,
            }
        },
        Message::ClassDirsReady => match before {
            View::Options(shared, _) if shared.spec_can_label() => {
                &&& after matches View::Labeling(shared_after, local)
                &&& shared_after == shared
                &&& local.entered(shared)
                &&& effect == Effect::Deliver(Message::Labeling(LabelingMessage::Index))
            },
            _ => after == before && effect == Effect::Idle,
        },
        Message::Labeling(message) => match before {
            View::Labeling(shared, local) => {
                &&& after matches View::Labeling(shared_after, local_after)
                &&& shared_after == shared
                &&& labeling::step(shared, local, message, local_after, effect)
            },
            _ => after == before && effect == Effect::Idle,
        },
    }
}

impl View {
    /// Whether the application has ended with a failure.
    pub open spec fn is_failure(self) -> bool {
        self matches View::FatalError(None, _)
    }

    /// Whether the application has ended with a notice that is no failure.
    pub open spec fn is_notice(self) -> bool {
        self matches View::FatalError(Some(_), _)
    }

    /// Whether the labeling may begin from this stage: it is the second stage,
    /// and the session has a class.
    pub open spec fn may_begin_labeling(self) -> bool {
        self matches View::Options(shared, _) && shared.spec_can_label()
    }

    /// The live stage is sound: its session is well-formed, and the cursor of
    /// a labeling stage lies within its queue or at its end.
    pub open spec fn wf(self) -> bool {
        match self {
            View::Setup(_) => true,
            View::Options(shared, _) => shared.wf(),
            View::Labeling(shared, local) => shared.wf() && local.images_cursor
                <= local.images@.len(),
            View::FatalError(_, _) => true,
        }
    }

    /// The title of the live stage.
    pub open spec fn spec_title(self) -> Seq<char> {
        match self {
            View::Setup(_) => "Directories"@,
            View::Options(_, _) => "Options"@,
            View::FatalError(Some(title), _) => title@,
            View::FatalError(None, _) => "Fatal Error"@,
            View::Labeling(_, _) => "Label"@,
        }
    }

    /// The title of the live stage.
    pub fn title(&self) -> (r: &str)
        ensures
            r@ == self.spec_title(),
    {
        match self {
            View::Setup(..) => "Directories",
            View::Options(..) => "Options",
            View::FatalError(title, ..) => {
                match title {
                    Some(title) => title.as_str(),
                    None => "Fatal Error",
                }
            },
            View::Labeling(..) => "Label",
        }
    }

    /// Handles one message: the stage that follows, and what the program is
    /// to do.
    pub fn step(self, message: Message) -> (r: (View, Effect))
        ensures
            transition(self, message, r.0, r.1),
    {
        match message {
            Message::NoOp => (self, Effect::Idle),
            Message::ResetState => (View::default(), Effect::Idle),
            Message::FatalError(description) => (View::FatalError(None, description), Effect::Idle),
            Message::ShowText(title, body) => (View::FatalError(Some(title), body), Effect::Idle),
            Message::Setup(message) => match self {
                View::Setup(state) => {
                    let mut state = state;
                    let effect = setup::update(&mut state, message);
                    (View::Setup(state), effect)
                },
                other => (other, Effect::Idle),
            },
            Message::SetupDone(state) => match state.into() {
                Some(shared) => (View::Options(shared, OptionsState::default()), Effect::Idle),
                None => (self, Effect::Idle),
            },
            Message::Options(message) => match self {
                View::Options(shared, local) => {
                    let mut shared = shared;
                    let mut local = local;
                    let effect = options::update(&mut shared, &mut local, message);
                    (View::Options(shared, local), effect)
                },
                other => (other, Effect::Idle),
            },
            Message::GoOptions => match self {
                View::Labeling(shared, _) => (
                    View::Options(shared, OptionsState::default()),
                    Effect::Idle,
                ),
                other => (other, Effect::Idle),
            },
            Message::GoLabel => match self {
                View::Options(shared, local) => {
                    let effect = if shared.can_label() {
                        Effect::Run(Job::CreateDirs { dirs: shared.class_dirs() })
                    } else {
                        Effect::Idle
                    };
                    (View::Options(shared, local), effect)
                },
                other => (other, Effect::Idle),
            },
            Message::ClassDirsReady => match self {
                View::Options(shared, local) => {
                    if shared.can_label() {
                        let entered = LabelingState::enter(&shared);
                        (
                            View::Labeling(shared, entered),
                            Effect::Deliver(Message::Labeling(LabelingMessage::Index)),
                        )
                    } else {
                        (View::Options(shared, local), Effect::Idle)
                    }
                },
                other => (other, Effect::Idle),
            },
            Message::Labeling(message) => match self {
                View::Labeling(shared, local) => {
                    let mut shared = shared;
                    let mut local = local;
                    let effect = labeling::update(&mut shared, &mut local, message);
                    (View::Labeling(shared, local), effect)
                },
                other => (other, Effect::Idle),
            },
        }
    }

    /// Handles one message in place.
    pub fn update(&mut self, message: Message) -> (effect: Effect)
        ensures
            transition(*old(self), message, *final(self), effect),
    {
        let mut current = View::default();
        core::mem::swap(self, &mut current);
        let (after, effect) = current.step(message);
        *self = after;
        effect
    }
}

/// A sound stage is followed by a sound stage, whatever the message: no class
/// ever has an empty label or a count of 0, no prefix is set and empty, and
/// no cursor passes the end of its queue.
pub proof fn lemma_transition_keeps_wf(before: View, message: Message, after: View, effect: Effect)
    requires
        before.wf(),
        transition(before, message, after, effect),
    ensures
        after.wf(),
{
    match (message, before) {
        (Message::Options(message), View::Options(shared, local)) => {
            let shared_after = after->Options_0;
            let local_after = after->Options_1;
            options::lemma_step_keeps_wf(shared, local, message, shared_after, local_after);
        },
        (Message::Labeling(message), View::Labeling(shared, local)) => {
            let local_after = after->Labeling_1;
            labeling::lemma_cursor_only_advances(shared, local, message, local_after, effect);
        },
        _ => {},
    }
}

/// Without a class the labeling cannot begin: from the second stage with an
/// empty list of classes no message leads to the third stage, and the request
/// to begin asks nothing of the program. The third stage is only ever entered
/// from the second, with a class, once the directories of the classes exist.
pub proof fn lemma_no_labeling_without_class(
    before: View,
    message: Message,
    after: View,
    effect: Effect,
)
    requires
        transition(before, message, after, effect),
    ensures
        !before.may_begin_labeling() && !(before is Labeling) ==> !(after is Labeling),
        !before.may_begin_labeling() && message is GoLabel ==> after == before && effect
            == Effect::Idle,
        after is Labeling ==> before is Labeling || (message is ClassDirsReady
            && before.may_begin_labeling()),
{
}

/// Going on from the last image of the queue ends the labeling with a notice,
/// not with a failure: the stage reports that no image is left, that report
/// asks for the notice to be shown, and the notice then stands as the end.
pub proof fn lemma_exhaustion_ends_with_notice(
    before: View,
    after: View,
    effect: Effect,
    reported: View,
    report: Effect,
    ended: View,
    last: Effect,
)
    requires
        before matches View::Labeling(_, local) && local.images_cursor + 1 == local.images@.len(),
        transition(before, Message::Labeling(LabelingMessage::NextImage), after, effect),
        effect matches Effect::Deliver(message) ==> transition(after, message, reported, report),
        report matches Effect::Deliver(message) ==> transition(reported, message, ended, last),
    ensures
        after matches View::Labeling(_, local) && local.exhausted(),
        effect == Effect::Deliver(Message::Labeling(LabelingMessage::NoImagesLeft)),
        reported == after,
        report is Deliver,
        ended.is_notice(),
        !ended.is_failure(),
        last == Effect::Idle,
{
}

/// Once the queue is exhausted, going on changes nothing and reports nothing:
/// the end of the queue is reported once.
pub proof fn lemma_exhaustion_is_reported_once(before: View, after: View, effect: Effect)
    requires
        before matches View::Labeling(_, local) && local.exhausted(),
        transition(before, Message::Labeling(LabelingMessage::NextImage), after, effect),
    ensures
        after == before,
        effect == Effect::Idle,
{
}

/// A failure ends whatever stage was live, and a restart leads on from it to
/// the first stage, with nothing chosen and nothing kept.
pub proof fn lemma_failure_and_restart(
    before: View,
    description: String,
    failed: View,
    effect: Effect,
    restarted: View,
    last: Effect,
)
    requires
        transition(before, Message::FatalError(description), failed, effect),
        transition(failed, Message::ResetState, restarted, last),
    ensures
        failed.is_failure(),
        !failed.is_notice(),
        restarted == View::Setup(SetupState::empty()),
{
}

} // verus!
