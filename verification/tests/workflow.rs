use std::collections::BTreeMap;

use quicklabel::controller::{Effect, Message, View};
use quicklabel::jobs::{FileStep, Job};
use quicklabel::session::{Class, SharedState};
use quicklabel::views::labeling::{self, LabelingMessage, LabelingState, Listed};
use quicklabel::views::options::{self, InputKind, OptionsMessage, OptionsState};
use quicklabel::views::setup::{self, DirectoryKind, SetupMessage, SetupState};

fn s(text: &str) -> String {
    text.to_string()
}

fn session(classes: Vec<Class>, trash: Option<&str>) -> SharedState {
    SharedState {
        input_dir: s("/in"),
        output_dir: s("/ds"),
        trash_dir: trash.map(s),
        classes,
        prompt_prefill: None,
    }
}

fn cat() -> Class {
    Class { label: s("cat"), repeats: 5 }
}

fn queue_at(images: &[&str], cursor: usize, prompt: &str) -> LabelingState {
    LabelingState {
        images: images.iter().map(|p| s(p)).collect(),
        images_cursor: cursor,
        input_prompt: s(prompt),
    }
}

/// Runs the steps on files held in memory; the step at `fail_at` fails.
fn run(job: &Job, files: &mut BTreeMap<String, String>, fail_at: Option<usize>) -> Message {
    for (i, step) in job.steps().into_iter().enumerate() {
        if fail_at == Some(i) {
            return job.failed(i, "disk full").unwrap();
        }
        match step {
            FileStep::Copy { from, to } => {
                let content = files.get(&from).unwrap().clone();
                files.insert(to, content);
            }
            FileStep::Remove { path } => {
                files.remove(&path).unwrap();
            }
            FileStep::Write { path, text } => {
                files.insert(path, text);
            }
            FileStep::CreateDirAll { path } => {
                files.insert(path, s("<dir>"));
            }
        }
    }
    job.done()
}

fn job_of(effect: Effect) -> Job {
    match effect {
        Effect::Run(job) => job,
        other => panic!("no job: {other:?}"),
    }
}

#[test]
fn starts_with_nothing_chosen() {
    let view = View::default();
    assert_eq!(
        view,
        View::Setup(SetupState { input_dir: None, output_dir: None, trash_dir: None })
    );
    assert_eq!(view.title(), "Directories");
}

#[test]
fn titles_name_the_stage() {
    assert_eq!(View::Options(session(vec![], None), OptionsState::default()).title(), "Options");
    assert_eq!(View::Labeling(session(vec![], None), LabelingState::default()).title(), "Label");
    assert_eq!(View::FatalError(None, s("x")).title(), "Fatal Error");
    assert_eq!(View::FatalError(Some(s("Done!")), s("x")).title(), "Done!");
}

#[test]
fn setup_stores_each_path() {
    let mut state = SetupState { input_dir: None, output_dir: None, trash_dir: None };
    assert!(!state.can_begin());
    assert_eq!(
        setup::update(&mut state, SetupMessage::SetPath(DirectoryKind::Input, s("/in"))),
        Effect::Idle
    );
    assert!(!state.can_begin());
    setup::update(&mut state, SetupMessage::SetPath(DirectoryKind::Output, s("/ds")));
    assert!(state.can_begin());
    setup::update(&mut state, SetupMessage::SetPath(DirectoryKind::Trash, s("/trash")));
    assert_eq!(
        state,
        SetupState {
            input_dir: Some(s("/in")),
            output_dir: Some(s("/ds")),
            trash_dir: Some(s("/trash"))
        }
    );
    assert_eq!(
        setup::update(&mut state, SetupMessage::OpenChooser(DirectoryKind::Trash)),
        Effect::PickFolder(DirectoryKind::Trash)
    );
}

#[test]
fn picker_result_becomes_a_message() {
    assert_eq!(
        setup::picked(DirectoryKind::Output, Some(s("/ds"))),
        Message::Setup(SetupMessage::SetPath(DirectoryKind::Output, s("/ds")))
    );
    assert_eq!(setup::picked(DirectoryKind::Output, None), Message::NoOp);
    assert_eq!(
        SetupMessage::OpenChooser(DirectoryKind::Input).into(),
        Message::Setup(SetupMessage::OpenChooser(DirectoryKind::Input))
    );
}

#[test]
fn setup_done_needs_input_and_output() {
    let incomplete =
        SetupState { input_dir: Some(s("/in")), output_dir: None, trash_dir: Some(s("/t")) };
    assert_eq!(incomplete.clone().into(), None);
    let mut view = View::default();
    assert_eq!(view.update(Message::SetupDone(incomplete)), Effect::Idle);
    assert_eq!(view, View::default());

    let unnamed =
        SetupState { input_dir: Some(s("/in")), output_dir: Some(s("")), trash_dir: None };
    assert!(!unnamed.can_begin());
    assert_eq!(unnamed.into(), None);

    let complete =
        SetupState { input_dir: Some(s("/in")), output_dir: Some(s("/ds")), trash_dir: None };
    assert_eq!(complete.clone().into(), Some(session(vec![], None)));
    assert_eq!(view.update(Message::SetupDone(complete)), Effect::Idle);
    assert_eq!(view, View::Options(session(vec![], None), OptionsState::default()));
}

#[test]
fn classes_are_added_at_the_end() {
    let mut shared = session(vec![], None);
    let mut local = OptionsState::default();
    assert_eq!(local.class_input_repeats, 1);
    assert_eq!(local.class_input_label, "");
    assert!(!local.can_add());
    options::update(&mut shared, &mut local, OptionsMessage::AddClass(s("cat"), 5));
    options::update(&mut shared, &mut local, OptionsMessage::AddClass(s("dog"), 1));
    options::update(&mut shared, &mut local, OptionsMessage::AddClass(s("cat"), 5));
    assert_eq!(shared.classes, vec![cat(), Class { label: s("dog"), repeats: 1 }, cat()]);
}

#[test]
fn classes_without_label_or_count_are_not_added() {
    let mut shared = session(vec![cat()], None);
    let mut local = OptionsState::default();
    options::update(&mut shared, &mut local, OptionsMessage::AddClass(s("dog"), 0));
    options::update(&mut shared, &mut local, OptionsMessage::AddClass(s(""), 3));
    assert_eq!(shared, session(vec![cat()], None));
}

#[test]
fn removal_is_by_position() {
    let dog = Class { label: s("dog"), repeats: 2 };
    let mut shared = session(vec![cat(), dog.clone(), cat()], None);
    let mut local = OptionsState::default();
    options::update(&mut shared, &mut local, OptionsMessage::DeleteClass(0));
    assert_eq!(shared.classes, vec![dog, cat()]);
}

#[test]
fn removal_out_of_bounds_changes_nothing() {
    let mut shared = session(vec![cat()], Some("/t"));
    let mut local = OptionsState::default();
    for index in [1, 2, usize::MAX] {
        let effect = options::update(&mut shared, &mut local, OptionsMessage::DeleteClass(index));
        assert_eq!(effect, Effect::Idle);
        assert_eq!(shared, session(vec![cat()], Some("/t")));
    }
    let mut empty = session(vec![], None);
    options::update(&mut empty, &mut local, OptionsMessage::DeleteClass(0));
    assert_eq!(empty, session(vec![], None));
}

#[test]
fn empty_prefix_is_no_prefix() {
    let mut shared = session(vec![], None);
    let mut local = OptionsState::default();
    let set = |text: &str| OptionsMessage::InputChange(InputKind::PromptPrefill, s(text));
    options::update(&mut shared, &mut local, set("photo of "));
    assert_eq!(shared.prompt_prefill, Some(s("photo of ")));
    options::update(&mut shared, &mut local, set(""));
    assert_eq!(shared.prompt_prefill, None);
    options::update(&mut shared, &mut local, set(""));
    assert_eq!(shared.prompt_prefill, None);
    assert_eq!(shared.caption_seed(), "");
}

#[test]
fn input_fields_follow_the_text() {
    let mut shared = session(vec![], None);
    let mut local = OptionsState::default();
    let change = |kind: InputKind, text: &str| OptionsMessage::InputChange(kind, s(text));
    options::update(&mut shared, &mut local, change(InputKind::ClassLabel, "cat"));
    options::update(&mut shared, &mut local, change(InputKind::ClassRepeats, "12"));
    assert_eq!(local, OptionsState { class_input_label: s("cat"), class_input_repeats: 12 });
    assert!(local.can_add());
    options::update(&mut shared, &mut local, change(InputKind::ClassRepeats, "12x"));
    options::update(&mut shared, &mut local, change(InputKind::ClassRepeats, ""));
    assert_eq!(local.class_input_repeats, 12);
    options::update(&mut shared, &mut local, change(InputKind::ClassRepeats, "0"));
    assert_eq!(local.class_input_repeats, 0);
    assert!(!local.can_add());
    assert_eq!(shared, session(vec![], None));
    assert_eq!(
        OptionsMessage::DeleteClass(3).into(),
        Message::Options(OptionsMessage::DeleteClass(3))
    );
}

#[test]
fn labeling_cannot_begin_without_a_class() {
    let start = View::Options(session(vec![], None), OptionsState::default());
    for message in [Message::GoLabel, Message::ClassDirsReady] {
        let mut view = start.clone();
        assert_eq!(view.update(message), Effect::Idle);
        assert_eq!(view, start);
    }
}

#[test]
fn labeling_begins_once_the_directories_exist() {
    let shared = SharedState {
        prompt_prefill: Some(s("photo of ")),
        ..session(vec![cat(), Class { label: s("dog"), repeats: 10 }], None)
    };
    let mut view = View::Options(shared.clone(), OptionsState::default());
    let job = job_of(view.update(Message::GoLabel));
    assert_eq!(job, Job::CreateDirs { dirs: vec![s("/ds/5_cat"), s("/ds/10_dog")] });
    assert_eq!(
        job.steps(),
        vec![
            FileStep::CreateDirAll { path: s("/ds/5_cat") },
            FileStep::CreateDirAll { path: s("/ds/10_dog") }
        ]
    );
    assert_eq!(view, View::Options(shared.clone(), OptionsState::default()));
    assert_eq!(job.done(), Message::ClassDirsReady);

    let effect = view.update(job.done());
    assert_eq!(effect, Effect::Deliver(Message::Labeling(LabelingMessage::Index)));
    assert_eq!(
        view,
        View::Labeling(shared.clone(), queue_at(&[], 0, "photo of "))
    );
    assert_eq!(view.update(LabelingMessage::Index.into()), Effect::ListDirectory(s("/in")));
}

#[test]
fn failed_directory_keeps_the_labeling_closed() {
    let shared = session(vec![cat(), Class { label: s("dog"), repeats: 10 }], None);
    let mut view = View::Options(shared, OptionsState::default());
    let job = job_of(view.update(Message::GoLabel));
    let message = job.failed(1, "permission denied").unwrap();
    assert_eq!(
        message,
        Message::FatalError(s("Unable to create directory \"/ds/10_dog\": permission denied"))
    );
    assert_eq!(job.failed(2, "x"), None);
    assert_eq!(view.update(message), Effect::Idle);
    assert_eq!(
        view,
        View::FatalError(None, s("Unable to create directory \"/ds/10_dog\": permission denied"))
    );
    assert_eq!(view.title(), "Fatal Error");
}

#[test]
fn indexing_keeps_the_images() {
    let listing = Ok(vec![
        Listed::File(s("/in/a.jpg")),
        Listed::File(s("/in/b.txt")),
        Listed::File(s("/in/c.PNG")),
        Listed::File(s("/in/d.webp")),
        Listed::File(s("/in/e")),
    ]);
    assert_eq!(
        labeling::indexed(listing),
        Message::Labeling(LabelingMessage::FinishIndexing(vec![
            s("/in/a.jpg"),
            s("/in/c.PNG"),
            s("/in/d.webp")
        ]))
    );
}

#[test]
fn indexing_skips_what_is_no_file() {
    let listing = Ok(vec![Listed::Other(s("/in/sub.jpg")), Listed::File(s("/in/z.jpeg"))]);
    assert_eq!(
        labeling::indexed(listing),
        Message::Labeling(LabelingMessage::FinishIndexing(vec![s("/in/z.jpeg")]))
    );
    assert_eq!(
        labeling::indexed(Ok(vec![])),
        Message::Labeling(LabelingMessage::FinishIndexing(vec![]))
    );
}

#[test]
fn indexing_failures_are_fatal() {
    assert_eq!(
        labeling::indexed(Err(s("not found"))),
        Message::FatalError(s("Failed to read input directory: not found"))
    );
    let listing = Ok(vec![
        Listed::File(s("/in/a.jpg")),
        Listed::Unreadable(s("first")),
        Listed::Unreadable(s("second")),
        Listed::File(s("/in/b.jpg")),
    ]);
    assert_eq!(
        labeling::indexed(listing),
        Message::FatalError(s("Failed to read entry: first"))
    );
}

#[test]
fn empty_queue_is_fatal() {
    let shared = session(vec![cat()], None);
    let mut view = View::Labeling(shared.clone(), LabelingState::default());
    let effect = view.update(LabelingMessage::FinishIndexing(vec![]).into());
    assert_eq!(effect, Effect::Deliver(Message::FatalError(s("No images found"))));
    view.update(Message::FatalError(s("No images found")));
    assert_eq!(view, View::FatalError(None, s("No images found")));
}

#[test]
fn queue_starts_at_the_first_image() {
    let mut shared = session(vec![cat()], None);
    let mut local = queue_at(&["/in/old.jpg"], 1, "kept");
    let effect = labeling::update(
        &mut shared,
        &mut local,
        LabelingMessage::FinishIndexing(vec![s("/in/a.jpg"), s("/in/b.jpg")]),
    );
    assert_eq!(effect, Effect::Idle);
    assert_eq!(local, queue_at(&["/in/a.jpg", "/in/b.jpg"], 0, "kept"));
    assert_eq!(local.current_image(), Some(s("/in/a.jpg")));
}

#[test]
fn assigning_moves_the_image_and_writes_the_caption() {
    let mut files = BTreeMap::new();
    files.insert(s("/in/x.jpg"), s("pixels"));
    let mut view = View::Labeling(session(vec![cat()], None), queue_at(&["/in/x.jpg"], 0, ""));
    view.update(LabelingMessage::SetPrompt(s("a cat")).into());
    let job = job_of(view.update(LabelingMessage::SubmitLabel(0).into()));
    assert_eq!(
        job,
        Job::Assign { source: s("/in/x.jpg"), destination: s("/ds/5_cat/x.jpg"), caption: s("a cat") }
    );
    assert_eq!(
        job.steps(),
        vec![
            FileStep::Copy { from: s("/in/x.jpg"), to: s("/ds/5_cat/x.jpg") },
            FileStep::Remove { path: s("/in/x.jpg") },
            FileStep::Write { path: s("/ds/5_cat/x.txt"), text: s("a cat") },
        ]
    );
    assert_eq!(view, View::Labeling(session(vec![cat()], None), queue_at(&["/in/x.jpg"], 0, "")));

    let message = run(&job, &mut files, None);
    assert_eq!(message, Message::Labeling(LabelingMessage::NextImage));
    let expected: BTreeMap<String, String> =
        [(s("/ds/5_cat/x.jpg"), s("pixels")), (s("/ds/5_cat/x.txt"), s("a cat"))].into();
    assert_eq!(files, expected);
}

#[test]
fn caption_starts_again_from_the_prefix() {
    let shared = SharedState { prompt_prefill: Some(s("photo, ")), ..session(vec![cat()], None) };
    let mut view = View::Labeling(shared.clone(), queue_at(&["/in/x.jpg", "/in/y.png"], 0, "photo, cat"));
    let job = job_of(view.update(LabelingMessage::SubmitLabel(0).into()));
    assert_eq!(
        job,
        Job::Assign {
            source: s("/in/x.jpg"),
            destination: s("/ds/5_cat/x.jpg"),
            caption: s("photo, cat")
        }
    );
    assert_eq!(view, View::Labeling(shared, queue_at(&["/in/x.jpg", "/in/y.png"], 0, "photo, ")));
}

#[test]
fn assigning_needs_an_image_and_a_class() {
    let start = View::Labeling(session(vec![cat()], None), queue_at(&["/in/x.jpg"], 0, "a cat"));
    let mut view = start.clone();
    assert_eq!(view.update(LabelingMessage::SubmitLabel(1).into()), Effect::Idle);
    assert_eq!(view, start);

    let done = View::Labeling(session(vec![cat()], None), queue_at(&["/in/x.jpg"], 1, "a cat"));
    let mut view = done.clone();
    assert_eq!(view.update(LabelingMessage::SubmitLabel(0).into()), Effect::Idle);
    assert_eq!(view.update(LabelingMessage::TrashCurrent.into()), Effect::Idle);
    assert_eq!(view, done);
}

#[test]
fn trashing_without_trash_dir_only_deletes() {
    let mut files = BTreeMap::new();
    files.insert(s("/in/x.jpg"), s("pixels"));
    files.insert(s("/in/y.jpg"), s("other"));
    let mut view = View::Labeling(session(vec![cat()], None), queue_at(&["/in/x.jpg"], 0, "c"));
    let job = job_of(view.update(LabelingMessage::TrashCurrent.into()));
    assert_eq!(job, Job::Trash { source: s("/in/x.jpg"), destination: None });
    assert_eq!(job.steps(), vec![FileStep::Remove { path: s("/in/x.jpg") }]);
    assert_eq!(run(&job, &mut files, None), Message::Labeling(LabelingMessage::NextImage));
    let expected: BTreeMap<String, String> = [(s("/in/y.jpg"), s("other"))].into();
    assert_eq!(files, expected);
    assert_eq!(
        job.failed(0, "busy"),
        Some(Message::FatalError(s("Failed to delete \"/in/x.jpg\": busy")))
    );
    assert_eq!(job.failed(1, "busy"), None);
}

#[test]
fn trashing_with_trash_dir_keeps_a_copy() {
    let mut files = BTreeMap::new();
    files.insert(s("/in/x.jpg"), s("pixels"));
    let mut view =
        View::Labeling(session(vec![cat()], Some("/trash")), queue_at(&["/in/x.jpg"], 0, "c"));
    let job = job_of(view.update(LabelingMessage::TrashCurrent.into()));
    assert_eq!(job, Job::Trash { source: s("/in/x.jpg"), destination: Some(s("/trash/x.jpg")) });
    assert_eq!(
        job.steps(),
        vec![
            FileStep::Copy { from: s("/in/x.jpg"), to: s("/trash/x.jpg") },
            FileStep::Remove { path: s("/in/x.jpg") },
        ]
    );
    assert_eq!(run(&job, &mut files, None), Message::Labeling(LabelingMessage::NextImage));
    let expected: BTreeMap<String, String> = [(s("/trash/x.jpg"), s("pixels"))].into();
    assert_eq!(files, expected);
    assert_eq!(
        job.failed(0, "full"),
        Some(Message::FatalError(s("Failed to move \"/in/x.jpg\" to \"/trash/x.jpg\": full")))
    );
    assert_eq!(
        job.failed(1, "busy"),
        Some(Message::FatalError(s("Failed to delete \"/in/x.jpg\": busy")))
    );
    assert_eq!(job.failed(2, "busy"), None);
}

#[test]
fn advancing_shows_the_next_image() {
    let mut view = View::Labeling(
        session(vec![cat()], None),
        queue_at(&["/in/a.jpg", "/in/b.jpg"], 0, "text"),
    );
    assert_eq!(view.update(LabelingMessage::NextImage.into()), Effect::Idle);
    assert_eq!(
        view,
        View::Labeling(session(vec![cat()], None), queue_at(&["/in/a.jpg", "/in/b.jpg"], 1, "text"))
    );
}

#[test]
fn advancing_past_the_last_image_ends_with_a_notice() {
    let mut view =
        View::Labeling(session(vec![cat()], None), queue_at(&["/in/a.jpg", "/in/b.jpg"], 1, ""));
    let effect = view.update(LabelingMessage::NextImage.into());
    assert_eq!(effect, Effect::Deliver(Message::Labeling(LabelingMessage::NoImagesLeft)));
    let exhausted =
        View::Labeling(session(vec![cat()], None), queue_at(&["/in/a.jpg", "/in/b.jpg"], 2, ""));
    assert_eq!(view, exhausted);

    // A second advance reports nothing again.
    let mut again = view.clone();
    assert_eq!(again.update(LabelingMessage::NextImage.into()), Effect::Idle);
    assert_eq!(again, exhausted);

    let effect = view.update(LabelingMessage::NoImagesLeft.into());
    assert_eq!(
        effect,
        Effect::Deliver(Message::ShowText(s("Done!"), s("No more images to label.")))
    );
    view.update(Message::ShowText(s("Done!"), s("No more images to label.")));
    assert_eq!(view, View::FatalError(Some(s("Done!")), s("No more images to label.")));
    assert_ne!(view, View::FatalError(None, s("No more images to label.")));
    assert_eq!(view.title(), "Done!");
}

#[test]
fn failed_caption_leaves_the_image_moved() {
    let mut files = BTreeMap::new();
    files.insert(s("/in/x.jpg"), s("pixels"));
    let mut view =
        View::Labeling(session(vec![cat()], None), queue_at(&["/in/x.jpg"], 0, "a cat"));
    let job = job_of(view.update(LabelingMessage::SubmitLabel(0).into()));
    let message = run(&job, &mut files, Some(2));
    let expected: BTreeMap<String, String> = [(s("/ds/5_cat/x.jpg"), s("pixels"))].into();
    assert_eq!(files, expected);
    assert_eq!(
        message,
        Message::FatalError(s("Failed to write prompt to \"/ds/5_cat/x.txt\": disk full"))
    );
    assert_eq!(view.update(message), Effect::Idle);
    match &view {
        View::FatalError(None, text) => assert!(text.contains("/ds/5_cat/x.txt")),
        other => panic!("no failure: {other:?}"),
    }
}

#[test]
fn failed_copy_and_delete_name_their_paths() {
    let job = Job::Assign { source: s("/in/x.jpg"), destination: s("/ds/5_cat/x.jpg"), caption: s("c") };
    assert_eq!(
        job.failed(0, "denied"),
        Some(Message::FatalError(s(
            "Failed to copy image from \"/in/x.jpg\" to \"/ds/5_cat/x.jpg\": denied"
        )))
    );
    assert_eq!(
        job.failed(1, "denied"),
        Some(Message::FatalError(s("Failed to remove image \"/in/x.jpg\": denied")))
    );
    assert_eq!(job.failed(3, "denied"), None);
}

#[test]
fn failed_copy_leaves_the_source() {
    let mut files = BTreeMap::new();
    files.insert(s("/in/x.jpg"), s("pixels"));
    let job = Job::Assign { source: s("/in/x.jpg"), destination: s("/ds/5_cat/x.jpg"), caption: s("c") };
    let before = files.clone();
    run(&job, &mut files, Some(0));
    assert_eq!(files, before);
    // Nothing is undone: after a failed delete both files exist.
    run(&job, &mut files, Some(1));
    assert!(files.contains_key("/in/x.jpg") && files.contains_key("/ds/5_cat/x.jpg"));
}

#[test]
fn paths_in_reports_are_escaped() {
    let job = Job::Trash { source: s("/in/a\"b\\c.jpg"), destination: None };
    assert_eq!(
        job.failed(0, "e"),
        Some(Message::FatalError(s("Failed to delete \"/in/a\\\"b\\\\c.jpg\": e")))
    );
}

#[test]
fn return_to_options_keeps_the_session() {
    let shared = SharedState {
        prompt_prefill: Some(s("p")),
        ..session(vec![cat()], Some("/trash"))
    };
    let mut view = View::Labeling(shared.clone(), queue_at(&["/in/a.jpg"], 1, "text"));
    assert_eq!(view.update(Message::GoOptions), Effect::Idle);
    assert_eq!(view, View::Options(shared, OptionsState::default()));
}

#[test]
fn messages_for_another_stage_are_ignored() {
    let views = [
        View::default(),
        View::Options(session(vec![cat()], None), OptionsState::default()),
        View::Labeling(session(vec![cat()], None), queue_at(&["/in/a.jpg"], 0, "")),
        View::FatalError(None, s("broken")),
    ];
    for (i, start) in views.iter().enumerate() {
        let messages = [
            (0, Message::Setup(SetupMessage::SetPath(DirectoryKind::Input, s("/x")))),
            (1, Message::Options(OptionsMessage::AddClass(s("dog"), 2))),
            (2, Message::Labeling(LabelingMessage::NextImage)),
            (2, Message::GoOptions),
            (1, Message::GoLabel),
            (1, Message::ClassDirsReady),
        ];
        for (stage, message) in messages {
            if stage != i {
                let mut view = start.clone();
                assert_eq!(view.update(message.clone()), Effect::Idle, "{message:?}");
                assert_eq!(&view, start, "{message:?}");
            }
        }
        let mut view = start.clone();
        assert_eq!(view.update(Message::NoOp), Effect::Idle);
        assert_eq!(&view, start);
    }
}

#[test]
fn restart_discards_everything() {
    let mut view = View::FatalError(None, s("broken"));
    assert_eq!(view.update(Message::ResetState), Effect::Idle);
    assert_eq!(view, View::default());
    let mut view = View::Labeling(session(vec![cat()], None), queue_at(&["/in/a.jpg"], 0, ""));
    view.update(Message::ResetState);
    assert_eq!(view, View::default());
}

#[test]
fn step_and_update_agree() {
    let start = View::Options(session(vec![], None), OptionsState::default());
    let (after, effect) = start.clone().step(Message::Options(OptionsMessage::AddClass(s("cat"), 5)));
    let mut view = start;
    assert_eq!(view.update(Message::Options(OptionsMessage::AddClass(s("cat"), 5))), effect);
    assert_eq!(view, after);
    assert_eq!(after, View::Options(session(vec![cat()], None), OptionsState::default()));
    assert_eq!(LabelingState::enter(&session(vec![], None)), LabelingState::default());
}
