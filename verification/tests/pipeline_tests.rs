use folden::pipelines::actions::{
    action_variant_names, construct_working_dir, format_datetime, format_input, try_construct_working_dir, MoveToDir,
    PipelineActions,
    RunCmd,
};
use folden::pipelines::event::{event_types, FileEventKind, PipelineEvent};
use folden::pipelines::move_to_dir::{MoveEvent, MoveRequest, MoveToDirRun};
use folden::pipelines::pipeline_config::PipelineConfig;
use folden::pipelines::pipeline_context_input::PipelineContextInput;
use folden::pipelines::pipeline_execution_context::PipelineExecutionContext;
use folden::pipelines::pipeline_handler::{PipelineHandler, PipelineRun, WatchMessage, WatchStep};
use folden::pipelines::run_cmd::{command_failure, command_launch, CommandOutcome};

fn names(v: &[&str]) -> Vec<String> {
    v.iter().map(|s| s.to_string()).collect()
}

fn config_with_regex(regex: Option<&str>) -> PipelineConfig {
    let mut c = PipelineConfig::default_new(None, None);
    c.event.naming_regex_match = regex.map(|r| r.to_string());
    c
}

#[test]
fn default_event_reacts_to_creation_and_modification() {
    let e = PipelineEvent::default();
    assert_eq!(e.events, names(&["create", "modify"]));
    assert_eq!(e.naming_regex_match.as_deref(), Some(".*"));
    assert!(e.is_handled_event(FileEventKind::Create));
    assert!(e.is_handled_event(FileEventKind::Modify));
    assert!(!e.is_handled_event(FileEventKind::Remove));
    assert_eq!(event_types(), names(&["create", "modify"]));
}

#[test]
fn event_names_are_kept_once_and_any_case() {
    let e = PipelineEvent::from_names(&names(&["create", "CREATE", "create"]));
    assert_eq!(e.events, names(&["create", "CREATE"]));
    assert!(e.is_handled_event(FileEventKind::Create));
    assert!(!e.is_handled_event(FileEventKind::Modify));
    assert!(PipelineEvent::is_handled_event_kind("MoDiFy", FileEventKind::Modify));
    assert!(!PipelineEvent::is_handled_event_kind("remove", FileEventKind::Remove));
}

#[test]
fn default_actions_by_name() {
    let a = PipelineActions::defaults(&names(&["RunCmd", "movetodir"]));
    assert_eq!(a.len(), 2);
    match &a[0] {
        PipelineActions::RunCmd(c) => {
            assert_eq!(c.command, "echo $input$");
            assert!(c.input_formatting && c.datetime_formatting);
            assert_eq!(c.input, PipelineContextInput::EventFilePath);
        }
        _ => panic!("expected a command action"),
    }
    match &a[1] {
        PipelineActions::MoveToDir(m) => {
            assert_eq!(m.directory_path, "output_dir_path");
            assert!(!m.requires_directory_exists && m.replace_older_files && !m.keep_input_file_intact);
            assert!(m.datetime_formatting && m.must_succeed);
        }
        _ => panic!("expected a move action"),
    }
    assert!(PipelineActions::try_defaults(&names(&["RunCmd", "copy"])).is_none());
    assert_eq!(PipelineActions::try_defaults(&names(&["RUNCMD"])).unwrap().len(), 1);
    assert_eq!(action_variant_names(), names(&["MoveToDir", "RunCmd"]));
    assert!(matches!(PipelineActions::default(), PipelineActions::RunCmd(_)));
}

#[test]
fn generated_pipeline() {
    let c = PipelineConfig::default_new(None, None);
    assert!(!c.watch_recursive && !c.apply_on_startup_on_existing_files && !c.stop_handler_on_error);
    assert_eq!(c.event.events, names(&["create", "modify"]));
    assert_eq!(c.actions.len(), 1);
    let events = names(&["modify", "modify"]);
    let actions = names(&["movetodir"]);
    let c = PipelineConfig::default_new(Some(&events), Some(&actions));
    assert_eq!(c.event.events, names(&["modify"]));
    assert!(matches!(c.actions[0], PipelineActions::MoveToDir(_)));
    assert!(PipelineConfig::try_default_new(None, Some(&names(&["nope"]))).is_none());
}

#[test]
fn working_dir_is_relative_to_the_input() {
    assert_eq!(construct_working_dir("/data/in/file.txt", "out"), "/data/in/out");
    assert_eq!(construct_working_dir("/data/in/file.txt", "/abs/out"), "/abs/out");
    assert_eq!(try_construct_working_dir("/", "out"), None);
    assert_eq!(try_construct_working_dir("file.txt", "out"), Some(String::from("out")));
}

#[test]
fn input_formatting_replaces_every_marker() {
    assert_eq!(format_input("cp $input$ $input$.bak", "/d/f").unwrap(), "cp /d/f /d/f.bak");
    assert_eq!(format_input("echo nothing", "/d/f").unwrap(), "echo nothing");
}

#[test]
fn run_command_formatting() {
    let context = PipelineExecutionContext::new(String::from("/d/f.txt"), PipelineConfig::default_new(None, None));
    let plain = RunCmd {
        input: PipelineContextInput::EventFilePath,
        command: String::from("echo $input$"),
        input_formatting: true,
        datetime_formatting: false,
    };
    assert_eq!(plain.format_command(&context).unwrap(), "echo /d/f.txt");
    let no_action_input = RunCmd { input: PipelineContextInput::ActionFilePath, ..plain.clone_for_test() };
    assert_eq!(no_action_input.format_command(&context).unwrap(), "echo $input$");
    let dated = RunCmd {
        input: PipelineContextInput::EventFilePath,
        command: String::from("echo %Y"),
        input_formatting: false,
        datetime_formatting: true,
    };
    let out = dated.format_command(&context).unwrap();
    assert!(out.starts_with("echo "));
    assert_eq!(out.len(), "echo 2024".len());
}

trait CloneForTest {
    fn clone_for_test(&self) -> Self;
}

impl CloneForTest for RunCmd {
    fn clone_for_test(&self) -> Self {
        RunCmd {
            input: self.input,
            command: self.command.clone(),
            input_formatting: self.input_formatting,
            datetime_formatting: self.datetime_formatting,
        }
    }
}

#[test]
fn context_inputs_and_traces() {
    let mut c = PipelineExecutionContext::new(String::from("/d/in/f.txt"), PipelineConfig::default_new(None, None));
    assert_eq!(c.get_input(PipelineContextInput::EventFilePath), Some(String::from("/d/in/f.txt")));
    assert_eq!(c.get_input(PipelineContextInput::ActionFilePath), None);
    c.action_file_path = Some(String::from("/d/out/f.txt"));
    c.action_name = Some(String::from("MoveToDir"));
    assert_eq!(c.get_input(PipelineContextInput::ActionFilePath), Some(String::from("/d/out/f.txt")));
    let t = c.trace_message("Copied file").unwrap();
    assert_eq!(t.directory_path, "/d/in");
    assert_eq!(t.action.as_deref(), Some("MoveToDir"));
    assert_eq!(t.message, "Copied file");
}

#[test]
fn handler_accepts_paths_by_pattern() {
    assert!(PipelineHandler::try_new(config_with_regex(Some("("))).is_none());
    let h = PipelineHandler::try_new(config_with_regex(Some(r".*\.txt$"))).unwrap();
    assert!(h.should_handle("/d/a.txt"));
    assert!(!h.should_handle("/d/a.log"));
    let any = PipelineHandler::try_new(config_with_regex(None)).unwrap();
    assert!(any.should_handle("/d/a.log"));
}

#[test]
fn handler_watch_decisions() {
    let h = PipelineHandler::try_new(config_with_regex(Some(r"\.txt$"))).unwrap();
    let created = WatchMessage::Event { kind: FileEventKind::Create, paths: vec![String::from("/d/a.txt")] };
    assert!(matches!(h.on_watch_message(&created), WatchStep::Handle(p) if p == "/d/a.txt"));
    let other_name = WatchMessage::Event { kind: FileEventKind::Create, paths: vec![String::from("/d/a.log")] };
    assert!(matches!(h.on_watch_message(&other_name), WatchStep::Ignore));
    let removed = WatchMessage::Event { kind: FileEventKind::Remove, paths: vec![String::from("/d/a.txt")] };
    assert!(matches!(h.on_watch_message(&removed), WatchStep::Ignore));
    let pathless = WatchMessage::Event { kind: FileEventKind::Modify, paths: vec![] };
    assert!(matches!(h.on_watch_message(&pathless), WatchStep::MissingPath));
    assert!(matches!(h.on_watch_message(&WatchMessage::Error { watch_not_found: true }), WatchStep::Stop));
    assert!(matches!(h.on_watch_message(&WatchMessage::Error { watch_not_found: false }), WatchStep::Ignore));
}

#[test]
fn pipeline_run_stops_at_first_failure() {
    let mut run = PipelineRun::new();
    assert_eq!(run.next_action(3), Some(0));
    run.record(true);
    assert_eq!(run.next_action(3), Some(1));
    run.record(false);
    assert_eq!(run.next_action(3), None);
    let mut done = PipelineRun::new();
    done.record(true);
    assert_eq!(done.next_action(1), None);
}

fn move_action(keep: bool, replace: bool, requires_dir: bool) -> MoveToDir {
    MoveToDir {
        input: PipelineContextInput::EventFilePath,
        directory_path: String::from("out"),
        requires_directory_exists: requires_dir,
        replace_older_files: replace,
        keep_input_file_intact: keep,
        datetime_formatting: false,
        must_succeed: true,
    }
}

fn context() -> PipelineExecutionContext {
    PipelineExecutionContext::new(String::from("/d/in/f.txt"), PipelineConfig::default_new(None, None))
}

fn expect_request(r: MoveRequest, expected: &str) {
    let text = match r {
        MoveRequest::Canonicalize(p) => format!("canonicalize {}", p),
        MoveRequest::IsDir(p) => format!("is_dir {}", p),
        MoveRequest::CreateDirAll(p) => format!("create {}", p),
        MoveRequest::IsFile(p) => format!("is_file {}", p),
        MoveRequest::Copy(a, b) => format!("copy {} {}", a, b),
        MoveRequest::RemoveFile(p) => format!("remove {}", p),
        MoveRequest::Log(m) => format!("log {}", m),
        MoveRequest::Fail(m) => format!("fail {}", m),
        MoveRequest::Finish(p) => format!("finish {}", p),
        MoveRequest::Abort(m) => format!("abort {}", m),
        MoveRequest::Unexpected => String::from("unexpected"),
    };
    assert_eq!(text, expected);
}

#[test]
fn move_run_through_a_missing_directory() {
    let (mut run, first) = MoveToDirRun::start(&move_action(false, true, false), &context());
    expect_request(first, "canonicalize /d/in/out");
    expect_request(run.step(MoveEvent::NotFound), "is_dir /d/in/out");
    expect_request(run.step(MoveEvent::Flag(false)), "create /d/in/out");
    expect_request(run.step(MoveEvent::Done), "canonicalize /d/in/out");
    expect_request(run.step(MoveEvent::Canonicalized(String::from("/d/in/out"))), "is_dir /d/in/out");
    expect_request(run.step(MoveEvent::Flag(true)), "is_file /d/in/out/f.txt");
    expect_request(run.step(MoveEvent::Flag(true)), "copy /d/in/f.txt /d/in/out/f.txt");
    expect_request(run.step(MoveEvent::Copied), "log Copied file");
    expect_request(run.step(MoveEvent::Done), "remove /d/in/f.txt");
    expect_request(run.step(MoveEvent::Removed), "log Deleted original file");
    expect_request(run.step(MoveEvent::Done), "finish /d/in/out/f.txt");
    expect_request(run.step(MoveEvent::Done), "unexpected");
}

#[test]
fn move_run_keeps_input_and_respects_existing_files() {
    let (mut run, _) = MoveToDirRun::start(&move_action(true, true, false), &context());
    run.step(MoveEvent::Canonicalized(String::from("/d/in/out")));
    run.step(MoveEvent::Flag(true));
    run.step(MoveEvent::Flag(false));
    run.step(MoveEvent::Copied);
    expect_request(run.step(MoveEvent::Done), "finish /d/in/out/f.txt");
    let (mut no_replace, _) = MoveToDirRun::start(&move_action(false, false, false), &context());
    no_replace.step(MoveEvent::Canonicalized(String::from("/d/in/out")));
    no_replace.step(MoveEvent::Flag(true));
    expect_request(no_replace.step(MoveEvent::Flag(true)), "fail Can't replace older file");
}

#[test]
fn move_run_failures() {
    let (mut run, _) = MoveToDirRun::start(&move_action(false, true, true), &context());
    run.step(MoveEvent::NotFound);
    expect_request(run.step(MoveEvent::Flag(false)), "fail Directory required to exist");
    let (mut copy_fails, _) = MoveToDirRun::start(&move_action(false, true, false), &context());
    copy_fails.step(MoveEvent::Canonicalized(String::from("/o")));
    copy_fails.step(MoveEvent::Flag(true));
    copy_fails.step(MoveEvent::Flag(false));
    expect_request(copy_fails.step(MoveEvent::CopyFailed(String::from("denied"))), "fail denied");
    let mut no_action = move_action(false, true, false);
    no_action.input = PipelineContextInput::ActionFilePath;
    let (_, r) = MoveToDirRun::start(&no_action, &context());
    expect_request(r, "fail Input doesn't contain value");
    let dir_input = PipelineExecutionContext::new(String::from("/"), PipelineConfig::default_new(None, None));
    let (_, r) = MoveToDirRun::start(&move_action(false, true, false), &dir_input);
    expect_request(r, "fail Path can't be parsed as file");
}

#[test]
fn command_launch_by_platform() {
    let l = command_launch("make build", "/work/src/a.c", false).unwrap();
    assert_eq!(l.program, "make build");
    assert!(l.argument.is_none());
    assert_eq!(l.working_dir, "/work/src");
    let w = command_launch("make build", "/work/src/a.c", true).unwrap();
    assert_eq!(w.program, "cmd.exe");
    assert_eq!(w.argument.as_deref(), Some("/C make build"));
    assert_eq!(w.working_dir, "/work/src");
    assert!(command_launch("make", "/", false).is_none());
}

#[test]
fn command_failure_messages() {
    let spawn = CommandOutcome::SpawnFailed { error: String::from("Os { code: 2 }") };
    assert_eq!(
        command_failure("\"ls\"", &spawn).unwrap(),
        "RunCmd could not spawn command.\nCommand: \"ls\"\nError: Os { code: 2 }"
    );
    let wait = CommandOutcome::WaitFailed { error: String::from("broken pipe") };
    assert_eq!(command_failure("\"ls\"", &wait).unwrap(), "RunCmd error - broken pipe");
    let silent = CommandOutcome::Exited { stdout_empty: true, stderr: String::from("\"oops\"") };
    assert_eq!(command_failure("\"ls\"", &silent).unwrap(), "RunCmd stderr - \"oops\"");
    let spoke = CommandOutcome::Exited { stdout_empty: false, stderr: String::new() };
    assert!(command_failure("\"ls\"", &spoke).is_none());
}

#[test]
fn datetime_formatting_of_texts() {
    assert_eq!(format_datetime("out_dir").unwrap(), "out_dir");
    assert_eq!(format_datetime("").unwrap(), "");
    assert!(format_datetime("%Q").is_none());
    let year = format_datetime("%Y").unwrap();
    assert_eq!(year.len(), 4);
}

#[test]
fn command_input_then_datetime_formatting() {
    let context = PipelineExecutionContext::new(String::from("/d/f.txt"), PipelineConfig::default_new(None, None));
    let dated = RunCmd {
        input: PipelineContextInput::EventFilePath,
        command: String::from("cat $input$"),
        input_formatting: true,
        datetime_formatting: true,
    };
    assert_eq!(dated.input_formatted(&context), "cat /d/f.txt");
    assert_eq!(dated.format_command(&context).unwrap(), "cat /d/f.txt");
    let bad = RunCmd { command: String::from("cat $input$ %Q"), ..dated.clone_for_test() };
    assert!(bad.format_command(&context).is_none());
}

#[test]
fn move_start_with_a_formatted_directory() {
    let mut dated = move_action(false, true, true);
    dated.datetime_formatting = true;
    let (mut run, first) = MoveToDirRun::start(&dated, &context());
    expect_request(first, "canonicalize /d/in/out");
    run.step(MoveEvent::NotFound);
    expect_request(run.step(MoveEvent::Flag(false)), "fail Directory required to exist");
    let (_, given) = MoveToDirRun::start_with(&dated, &context(), Some(String::from("/abs/2024")));
    expect_request(given, "canonicalize /abs/2024");
    let (_, failed) = MoveToDirRun::start_with(&dated, &context(), None);
    expect_request(failed, "abort Date-time formatting of the directory path failed");
    dated.directory_path = String::from("out_%Q");
    let (_, bad) = MoveToDirRun::start(&dated, &context());
    expect_request(bad, "abort Date-time formatting of the directory path failed");
}

#[test]
fn errors_stop_the_handler_when_the_pipeline_asks() {
    let mut config = PipelineConfig::default_new(None, None);
    let c = PipelineExecutionContext::new(String::from("/d/in/f.txt"), config);
    let (trace, stops) = c.handle_error("Directory required to exist");
    let t = trace.unwrap();
    assert_eq!(t.directory_path, "/d/in");
    assert_eq!(t.message, "Directory required to exist");
    assert!(t.action.is_none());
    assert!(!stops);
    config = PipelineConfig::default_new(None, None);
    config.stop_handler_on_error = true;
    let c = PipelineExecutionContext::new(String::from("/d/in/f.txt"), config);
    assert!(c.handle_error("boom").1);
}
