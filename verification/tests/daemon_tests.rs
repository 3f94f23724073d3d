use crossbeam::channel::unbounded;
use folden::daemon::config::{modify_config, Config, ConfigArgError};
use folden::daemon::endpoints::is_any_handler_alive;
use folden::daemon::handler_mapping::HandlerMapping;
use folden::daemon::mapping::{count_live, is_concurrent_handlers_limit_reached, Mapping};
use folden::daemon::modify::modify_save_failure;
use folden::daemon::register::RegisterDecision;
use folden::daemon::service_control::{
    handle_control, runs_outside_service_framework, service_exit_code, ControlAnswer, ServiceControlEvent,
};
use folden::daemon::strategy::MappingStatusStrategy;
use folden::messages::{
    HandlerChannelMessage,
    ModifyHandlerRequest, RegisterToDirectoryRequest, StartHandlerRequest, StatusCode, StopHandlerRequest,
    DEFAULT_PORT,
};

/// Pings a handler as the service does and concludes whether it is alive.
fn alive(h: &HandlerMapping) -> bool {
    let sent = h.ping_message().map(|m| h.send(m));
    h.is_alive(&sent)
}

/// Stops a handler's thread as the service does.
fn stop_thread(h: &HandlerMapping) -> Result<String, String> {
    let sent = h.send(h.stop_message().unwrap());
    h.stop_handler_thread(&sent)
}

/// The liveness a request about a path observes, pinging the handlers it concerns.
fn live_of(m: &Mapping, d: &str) -> Vec<bool> {
    let pings = m.ping_messages(d);
    let sent: Vec<Option<Result<(), String>>> = pings
        .into_iter()
        .enumerate()
        .map(|(i, p)| p.map(|msg| m.directory_mapping[i].1.send(msg)))
        .collect();
    m.liveness(&sent)
}

/// Runs a stop request as the service does.
fn stop_request(m: &mut Mapping, request: &StopHandlerRequest) -> (folden::messages::HandlerStatesMapResponse, bool) {
    let live = live_of(m, &request.directory_path);
    let messages = m.stop_messages(&request.directory_path, &live);
    let outcomes: Vec<Result<String, String>> = messages
        .into_iter()
        .enumerate()
        .map(|(i, msg)| match msg {
            Some(msg) => {
                let h = &m.directory_mapping[i].1;
                h.stop_handler_thread(&h.send(msg))
            }
            None => Ok(String::new()),
        })
        .collect();
    m.stop_handler(request, &live, &outcomes)
}

fn register_request(dir: &str, config: &str, start: bool, auto: bool) -> RegisterToDirectoryRequest {
    RegisterToDirectoryRequest {
        directory_path: dir.to_string(),
        handler_config_path: config.to_string(),
        is_start_on_register: start,
        is_auto_startup: auto,
    }
}

fn registered_mapping(dirs: &[(&str, bool)]) -> Mapping {
    let mut m = Mapping::new();
    for (d, auto) in dirs {
        let live = vec![false; m.len()];
        match m.register_to_directory_with(&register_request(d, "/cfg/p.toml", false, *auto), &live, 10) {
            RegisterDecision::Registered(s) => assert_eq!(s.message, "Registered handler"),
            _ => panic!("registration refused"),
        }
    }
    m
}

fn message_of(d: RegisterDecision) -> (bool, String) {
    match d {
        RegisterDecision::Answered(s) => (s.is_alive, s.message),
        RegisterDecision::Registered(s) => (s.is_alive, s.message),
        RegisterDecision::StartRequired => (false, String::from("start required")),
    }
}

#[test]
fn register_new_directory_is_recorded() {
    let mut m = Mapping::new();
    let d = m.register_to_directory_with(&register_request("/data/in", "/cfg/p.toml", false, true), &vec![], 10);
    assert_eq!(message_of(d), (false, String::from("Registered handler")));
    assert_eq!(m.len(), 1);
    assert_eq!(m.directory_mapping[0].0, "/data/in");
    assert_eq!(m.directory_mapping[0].1.handler_config_path, "/cfg/p.toml");
    assert!(m.directory_mapping[0].1.is_auto_startup);
    assert_eq!(m.directory_mapping[0].1.description, "");
    assert!(m.directory_mapping[0].1.watcher_tx.is_none());
}

#[test]
fn register_twice_is_answered_as_handled() {
    let mut m = registered_mapping(&[("/data/in", false)]);
    let d = m.register_to_directory_with(&register_request("/data/in", "/cfg/q.toml", false, false), &vec![false], 10);
    assert_eq!(message_of(d), (true, String::from("Directory already handled by handler")));
    assert_eq!(m.len(), 1);
    assert_eq!(m.directory_mapping[0].1.handler_config_path, "/cfg/p.toml");
}

#[test]
fn register_beside_a_longer_name_is_accepted() {
    let mut m = registered_mapping(&[("/a/b", false)]);
    let d = m.register_to_directory_with(&register_request("/a/bc", "q.toml", false, false), &vec![false], 10);
    assert_eq!(message_of(d), (false, String::from("Registered handler")));
    assert_eq!(m.len(), 2);
    assert_eq!(m.directory_mapping[1].0, "/a/bc");
    let d = m.register_to_directory_with(&register_request("/a", "q.toml", false, false), &vec![false, false], 10);
    assert_eq!(
        message_of(d),
        (false, String::from("Couldn't register\nDirectory is a parent of requested directory - /a/b"))
    );
}

#[test]
fn register_child_and_parent_are_refused() {
    let mut m = registered_mapping(&[("/data/in", false)]);
    let child = m.register_to_directory_with(&register_request("/data/in/sub", "/c", false, false), &vec![false], 10);
    assert_eq!(
        message_of(child),
        (false, String::from("Couldn't register\nDirectory is a child of handled directory - /data/in"))
    );
    let parent = m.register_to_directory_with(&register_request("/data", "/c", false, false), &vec![false], 10);
    assert_eq!(
        message_of(parent),
        (false, String::from("Couldn't register\nDirectory is a parent of requested directory - /data/in"))
    );
    assert_eq!(m.len(), 1);
}

#[test]
fn register_with_start_asks_for_a_start() {
    let mut m = registered_mapping(&[("/a", false)]);
    let d = m.register_to_directory_with(&register_request("/b", "/c", true, false), &vec![false], 10);
    assert!(matches!(d, RegisterDecision::StartRequired));
    assert_eq!(m.len(), 1);
}

#[test]
fn register_at_limit_registers_without_starting() {
    let mut m = registered_mapping(&[("/a", false)]);
    let d = m.register_to_directory_with(&register_request("/b", "/c", true, false), &vec![true], 1);
    assert_eq!(
        message_of(d),
        (false, String::from("Registered handler without starting - Reached concurrent live handler limit (1)"))
    );
    assert_eq!(m.len(), 2);
    assert_eq!(m.directory_mapping[1].0, "/b");
}

#[test]
fn complete_register_records_the_outcome() {
    let mut m = Mapping::new();
    let request = register_request("/b", "/c", true, false);
    let failed = m.complete_register(&request, Err(String::from("no config")));
    assert!(!failed.is_alive);
    assert_eq!(failed.message, "Failed to register and start handler.\nError: no config");
    assert_eq!(m.len(), 0);
    let (tx, _rx) = unbounded();
    let started = m.complete_register(&request, Ok(tx));
    assert!(started.is_alive);
    assert_eq!(started.message, "Registered and started handler");
    assert_eq!(m.len(), 1);
    assert!(alive(&m.directory_mapping[0].1));
}

#[test]
fn liveness_follows_the_channel() {
    let mut h = HandlerMapping::new(String::from("/c"), false, String::new());
    assert!(!alive(&h));
    let (tx, rx) = unbounded();
    h.watcher_tx = Some(tx);
    assert!(alive(&h));
    drop(rx);
    assert!(!alive(&h));
    let summary = h.summary(alive(&h));
    assert!(!summary.is_alive);
    assert_eq!(summary.config_path, "/c");
}

#[test]
fn stop_thread_reports_a_closed_channel() {
    let mut h = HandlerMapping::new(String::from("/c"), false, String::new());
    let (tx, rx) = unbounded();
    h.watcher_tx = Some(tx);
    assert_eq!(stop_thread(&h), Ok(String::from("Handler stopped")));
    drop(rx);
    assert_eq!(stop_thread(&h), Err(String::from("Failed to stop handler\nError: \"SendError(..)\"")));
}

#[test]
fn limit_counts_live_handlers() {
    assert!(is_concurrent_handlers_limit_reached(&vec![true, false, true], 2));
    assert!(!is_concurrent_handlers_limit_reached(&vec![true, false, true], 3));
    assert!(!is_concurrent_handlers_limit_reached(&vec![true, true, true], 0));
    assert!(is_concurrent_handlers_limit_reached(&vec![true], 1));
    assert_eq!(count_live(&vec![true, false, true]), 2);
    assert!(is_any_handler_alive(&vec![false, true]));
    assert!(!is_any_handler_alive(&vec![false, false]));
}

#[test]
fn limit_over_a_mapping_asks_the_threads() {
    let mut m = registered_mapping(&[("/a", false), ("/b", false)]);
    assert!(!is_concurrent_handlers_limit_reached(&live_of(&m, ""), 1));
    assert!(!is_any_handler_alive(&live_of(&m, "")));
    let (tx, _rx) = unbounded();
    m.complete_start("/a", Ok(tx));
    assert!(is_concurrent_handlers_limit_reached(&live_of(&m, ""), 1));
    assert!(!is_concurrent_handlers_limit_reached(&live_of(&m, ""), 2));
    assert!(!is_concurrent_handlers_limit_reached(&live_of(&m, ""), 0));
    assert!(is_any_handler_alive(&live_of(&m, "")));
    assert_eq!(live_of(&m, "/b"), vec![false, false]);
    assert_eq!(live_of(&m, "/a"), vec![true, false]);
}

#[test]
fn status_answers_one_all_or_none() {
    let m = registered_mapping(&[("/a", true), ("/b", false)]);
    let one = m.get_directory_status_with("/b", &vec![false, true]);
    assert_eq!(one.summary_map.len(), 1);
    assert_eq!(one.summary_map[0].0, "/b");
    assert!(one.summary_map[0].1.is_alive);
    assert!(!one.summary_map[0].1.is_auto_startup);
    let all = m.get_directory_status_with("", &vec![false, true]);
    assert_eq!(all.summary_map.len(), 2);
    assert_eq!(all.summary_map[0].0, "/a");
    assert!(all.summary_map[0].1.is_auto_startup);
    let none = m.get_directory_status_with("/zzz", &live_of(&m, "/zzz"));
    assert_eq!(none.summary_map.len(), 0);
    let observed = m.get_directory_status_with("", &live_of(&m, ""));
    assert!(!observed.summary_map[0].1.is_alive);
}

#[test]
fn start_plans_by_liveness() {
    let m = registered_mapping(&[("/a", false), ("/b", false)]);
    let up = m.start_handler_with(&StartHandlerRequest { directory_path: String::from("/a") }, &vec![true, false], 5).ok().unwrap();
    assert_eq!(up.states_map.len(), 1);
    assert_eq!(up.states_map[0].1.message, "Handler already up");
    assert!(up.to_spawn.is_empty());
    let down = m.start_handler_with(&StartHandlerRequest { directory_path: String::from("/b") }, &vec![true, false], 5).ok().unwrap();
    assert!(down.states_map.is_empty());
    assert_eq!(down.to_spawn, vec![String::from("/b")]);
    let all = m.start_handler_with(&StartHandlerRequest { directory_path: String::new() }, &vec![true, false], 5).ok().unwrap();
    assert_eq!(all.states_map.len(), 1);
    assert_eq!(all.states_map[0].0, "/a");
    assert_eq!(all.to_spawn, vec![String::from("/b")]);
    let unknown = m.start_handler_with(&StartHandlerRequest { directory_path: String::from("/c") }, &live_of(&m, ""), 5).ok().unwrap();
    assert_eq!(unknown.states_map[0].0, "/c");
    assert!(!unknown.states_map[0].1.is_alive);
    assert_eq!(unknown.states_map[0].1.message, "Directory unhandled");
}

#[test]
fn start_refusals_at_the_limit() {
    let m = registered_mapping(&[("/a", false), ("/b", false)]);
    let single = m.start_handler_with(&StartHandlerRequest { directory_path: String::from("/b") }, &vec![true, false], 1);
    match single {
        Err(e) => {
            assert_eq!(e.code, StatusCode::FailedPrecondition);
            assert_eq!(e.message, "Aborted start handler - Reached concurrent live handler limit (1)");
        }
        Ok(_) => panic!("start allowed past the limit"),
    }
    let all = m.start_handler_with(&StartHandlerRequest { directory_path: String::new() }, &vec![false, false], 1);
    match all {
        Err(e) => {
            assert_eq!(e.code, StatusCode::FailedPrecondition);
            assert_eq!(e.message, "Aborted start handlers - Would pass concurrent live handler limit (1)\nCurrently live: 0");
        }
        Ok(_) => panic!("start of all allowed past the limit"),
    }
    let unlimited = m.start_handler_with(&StartHandlerRequest { directory_path: String::new() }, &vec![false, false], 0);
    assert_eq!(unlimited.ok().unwrap().to_spawn.len(), 2);
}

#[test]
fn complete_start_keeps_or_reports() {
    let mut m = registered_mapping(&[("/a", false)]);
    let failed = m.complete_start("/a", Err(String::from("bad pipeline")));
    assert_eq!(failed.message, "Failed to start handler.\nError: bad pipeline");
    assert!(m.directory_mapping[0].1.watcher_tx.is_none());
    let (tx, _rx) = unbounded();
    let started = m.complete_start("/a", Ok(tx));
    assert!(started.is_alive);
    assert_eq!(started.message, "Started handler");
    assert!(alive(&m.directory_mapping[0].1));
}

#[test]
fn stop_alive_handler_and_remove() {
    let mut m = registered_mapping(&[("/a", false), ("/b", false)]);
    let (tx, _rx) = unbounded();
    m.complete_start("/a", Ok(tx));
    let (r, save) = stop_request(&mut m, &StopHandlerRequest { directory_path: String::from("/a"), remove: true });
    assert!(save);
    assert_eq!(r.states_map.len(), 1);
    assert!(!r.states_map[0].1.is_alive);
    assert_eq!(r.states_map[0].1.message, "Handler stopped & removed");
    assert_eq!(m.len(), 1);
    assert_eq!(m.directory_mapping[0].0, "/b");
}

#[test]
fn stop_down_handler_keeps_registration() {
    let mut m = registered_mapping(&[("/a", false)]);
    let (r, save) = stop_request(&mut m, &StopHandlerRequest { directory_path: String::from("/a"), remove: false });
    assert!(!save);
    assert_eq!(r.states_map[0].1.message, "Handler already stopped");
    assert_eq!(m.len(), 1);
}

#[test]
fn stop_all_with_outcomes() {
    let mut m = registered_mapping(&[("/a", false), ("/b", false), ("/c", false)]);
    let live = vec![true, true, false];
    let outcomes = vec![
        Ok(String::from("Handler stopped")),
        Err(String::from("Failed to stop handler\nError: \"SendError(..)\"")),
        Ok(String::from("Handler stopped")),
    ];
    let (r, save) = m.stop_handler(&StopHandlerRequest { directory_path: String::new(), remove: true }, &live, &outcomes);
    assert!(save);
    assert_eq!(r.states_map.len(), 3);
    assert_eq!(r.states_map[0].1.message, "Handler stopped & removed");
    assert!(r.states_map[1].1.is_alive);
    assert_eq!(r.states_map[1].1.message, "Failed to stop handler\nError: \"SendError(..)\"");
    assert_eq!(r.states_map[2].1.message, "Handler already stopped & removed");
    assert_eq!(m.len(), 1);
    assert_eq!(m.directory_mapping[0].0, "/b");
}

#[test]
fn stop_unknown_directory() {
    let mut m = registered_mapping(&[("/a", false)]);
    let (r, save) = stop_request(&mut m, &StopHandlerRequest { directory_path: String::from("/x"), remove: true });
    assert!(!save);
    assert_eq!(r.states_map[0].0, "/x");
    assert_eq!(r.states_map[0].1.message, "Directory unhandled");
    assert_eq!(m.len(), 1);
}

#[test]
fn stop_all_and_remove_empties_the_mapping() {
    let mut m = registered_mapping(&[("/a", false), ("/b", false)]);
    let (_r, save) = stop_request(&mut m, &StopHandlerRequest { directory_path: String::new(), remove: true });
    assert!(save);
    assert!(m.is_empty());
}

#[test]
fn modify_one_all_or_refuse() {
    let mut m = registered_mapping(&[("/a", false), ("/b", false)]);
    let one = ModifyHandlerRequest {
        directory_path: String::from("/b"),
        is_auto_startup: Some(true),
        modify_description: Some(String::from("photos")),
    };
    assert!(m.modify_handler(&one).is_ok());
    assert!(m.directory_mapping[1].1.is_auto_startup);
    assert_eq!(m.directory_mapping[1].1.description, "photos");
    assert!(!m.directory_mapping[0].1.is_auto_startup);
    let again = m.modify_handler(&one);
    assert!(again.is_ok());
    assert_eq!(m.directory_mapping[1].1.description, "photos");
    let all = ModifyHandlerRequest { directory_path: String::new(), is_auto_startup: None, modify_description: Some(String::from("x")) };
    assert!(m.modify_handler(&all).is_ok());
    assert_eq!(m.directory_mapping[0].1.description, "x");
    assert!(m.directory_mapping[1].1.is_auto_startup);
    let unknown = ModifyHandlerRequest { directory_path: String::from("/q"), is_auto_startup: None, modify_description: None };
    match m.modify_handler(&unknown) {
        Err(e) => {
            assert_eq!(e.code, StatusCode::NotFound);
            assert_eq!(e.message, "Directory isn't registered to handle");
        }
        Ok(_) => panic!("unknown directory modified"),
    }
    let failure = modify_save_failure("Os { code: 13 }");
    assert_eq!(failure.code, StatusCode::Unknown);
    assert_eq!(failure.message, "Failed to save modifications to mapping file.\nErr - Os { code: 13 }");
}

#[test]
fn trace_preconditions() {
    let empty = Mapping::new();
    let e = empty.trace_handler_with("", &live_of(&empty, "")).err().unwrap();
    assert_eq!(e.code, StatusCode::NotFound);
    assert_eq!(e.message, "No handler registered to filesystem to trace");
    let m = registered_mapping(&[("/a", false)]);
    assert_eq!(m.trace_handler_with("", &live_of(&m, "")).err().unwrap().message, "No handler is alive to trace");
    assert_eq!(m.trace_handler_with("/zz", &live_of(&m, "/zz")).err().unwrap().message, "Directory isn't registered to handle");
    let down = m.trace_handler_with("/a", &vec![false]).err().unwrap();
    assert_eq!(down.code, StatusCode::FailedPrecondition);
    assert_eq!(down.message, "Handler isn't alive");
    assert!(m.trace_handler_with("/a", &vec![true]).is_ok());
    assert!(m.trace_handler_with("", &vec![true]).is_ok());
    assert!(m.get_handler_with("/a", false, &vec![false]).is_ok());
}

#[test]
fn startup_requests_follow_flags_and_strategy() {
    let m = registered_mapping(&[("/a", true), ("/b", false), ("/c", true)]);
    let auto: Vec<String> = m.auto_startup_requests().into_iter().map(|r| r.directory_path).collect();
    assert_eq!(auto, vec![String::from("/a"), String::from("/c")]);
    let all: Vec<String> = m.startup_requests(&MappingStatusStrategy::Continue).into_iter().map(|r| r.directory_path).collect();
    assert_eq!(all, vec![String::from("/a"), String::from("/b"), String::from("/c")]);
    assert!(m.startup_requests(&MappingStatusStrategy::Save).is_empty());
    assert!(!MappingStatusStrategy::Unsaved.keeps_mapping_file());
    assert!(MappingStatusStrategy::Save.keeps_mapping_file());
    assert!(MappingStatusStrategy::Continue.restarts_handlers());
}

#[test]
fn config_defaults_and_adjustments() {
    let c = Config::default();
    assert_eq!(c.mapping_state_path, "foldend_mapping.toml");
    assert_eq!(c.tracing_file_path, "foldend.log");
    assert_eq!(c.concurrent_threads_limit, 10);
    assert_eq!(c.port, DEFAULT_PORT);
    let mut c = Config::default();
    assert!(modify_config(&mut c, Some("/m.toml"), Some("+9090"), Some("3"), Some("/l.log")).is_ok());
    assert_eq!(c.mapping_state_path, "/m.toml");
    assert_eq!(c.port, 9090);
    assert_eq!(c.concurrent_threads_limit, 3);
    assert_eq!(c.tracing_file_path, "/l.log");
    let mut c = Config::default();
    let r = modify_config(&mut c, Some("/m2.toml"), Some("80x"), Some("4"), None);
    assert!(matches!(r, Err(ConfigArgError::InvalidPort(_))));
    assert_eq!(c.mapping_state_path, "/m2.toml");
    assert_eq!(c.concurrent_threads_limit, 10);
    let mut c = Config::default();
    let r = modify_config(&mut c, None, None, Some("300"), Some("/x.log"));
    assert!(matches!(r, Err(ConfigArgError::InvalidLimit(_))));
    assert_eq!(c.tracing_file_path, "foldend.log");
}

#[test]
fn service_control_answers() {
    assert_eq!(handle_control(ServiceControlEvent::Stop), (ControlAnswer::NoError, true));
    assert_eq!(handle_control(ServiceControlEvent::Interrogate), (ControlAnswer::NoError, false));
    assert_eq!(handle_control(ServiceControlEvent::Other), (ControlAnswer::NotImplemented, false));
    assert_eq!(service_exit_code(true), 0);
    assert_eq!(service_exit_code(false), 1);
    assert!(runs_outside_service_framework(1063));
    assert!(!runs_outside_service_framework(5));
}

#[test]
fn stopped_handler_starts_again() {
    let mut m = registered_mapping(&[("/a", false), ("/b", false)]);
    let (tx, rx) = unbounded();
    m.complete_start("/a", Ok(tx));
    let (r, save) = stop_request(&mut m, &StopHandlerRequest { directory_path: String::from("/a"), remove: false });
    assert!(!save);
    assert_eq!(r.states_map[0].1.message, "Handler stopped");
    assert!(m.directory_mapping[0].1.watcher_tx.is_none());
    drop(rx);
    let plan = m.start_handler_with(&StartHandlerRequest { directory_path: String::from("/a") }, &live_of(&m, ""), 5).ok().unwrap();
    assert!(plan.states_map.is_empty());
    assert_eq!(plan.to_spawn, vec![String::from("/a")]);
}

#[test]
fn status_reports_what_modify_set() {
    let mut m = registered_mapping(&[("/a", false), ("/b", true)]);
    let request = ModifyHandlerRequest {
        directory_path: String::from("/a"),
        is_auto_startup: Some(true),
        modify_description: Some(String::from("downloads")),
    };
    assert!(m.modify_handler(&request).is_ok());
    let status = m.get_directory_status_with("/a", &live_of(&m, "/a"));
    assert_eq!(status.summary_map.len(), 1);
    assert_eq!(status.summary_map[0].0, "/a");
    let s = &status.summary_map[0].1;
    assert!(s.is_auto_startup);
    assert_eq!(s.description, "downloads");
    assert_eq!(s.config_path, "/cfg/p.toml");
    assert!(!s.is_alive);
    let keep = ModifyHandlerRequest { directory_path: String::from("/b"), is_auto_startup: None, modify_description: None };
    assert!(m.modify_handler(&keep).is_ok());
    let b = m.get_directory_status_with("/b", &live_of(&m, "/b"));
    assert!(b.summary_map[0].1.is_auto_startup);
    assert_eq!(b.summary_map[0].1.description, "");
}

#[test]
fn stop_changes_only_its_directory() {
    let mut m = registered_mapping(&[("/a", false), ("/b", true)]);
    let (tx, _rx) = unbounded();
    m.complete_start("/a", Ok(tx));
    let (r, save) = stop_request(&mut m, &StopHandlerRequest { directory_path: String::from("/a"), remove: false });
    assert!(!save);
    assert!(!r.states_map[0].1.is_alive);
    assert_eq!(m.len(), 2);
    assert!(m.directory_mapping[0].1.watcher_tx.is_none());
    assert_eq!(m.directory_mapping[1].0, "/b");
    assert!(m.directory_mapping[1].1.is_auto_startup);
    let (r, save) = stop_request(&mut m, &StopHandlerRequest { directory_path: String::from("/a"), remove: true });
    assert!(save);
    assert_eq!(r.states_map[0].1.message, "Handler already stopped & removed");
    assert_eq!(m.len(), 1);
    assert_eq!(m.directory_mapping[0].0, "/b");
}

#[test]
fn complete_start_all_records_each_start() {
    let mut m = registered_mapping(&[("/a", false), ("/b", false), ("/c", false)]);
    let plan = m.start_handler_with(&StartHandlerRequest { directory_path: String::new() }, &vec![true, false, false], 0).ok().unwrap();
    assert_eq!(plan.to_spawn, vec![String::from("/b"), String::from("/c")]);
    let (tx, _rx) = unbounded();
    let r = m.complete_start_all(plan, vec![Ok(tx), Err(String::from("bad pipeline"))]);
    assert_eq!(r.states_map.len(), 3);
    assert_eq!(r.states_map[0].0, "/a");
    assert_eq!(r.states_map[0].1.message, "Handler already up");
    assert_eq!(r.states_map[1].0, "/b");
    assert!(r.states_map[1].1.is_alive);
    assert_eq!(r.states_map[1].1.message, "Started handler");
    assert_eq!(r.states_map[2].0, "/c");
    assert!(!r.states_map[2].1.is_alive);
    assert_eq!(r.states_map[2].1.message, "Failed to start handler.\nError: bad pipeline");
    assert!(m.directory_mapping[0].1.watcher_tx.is_none());
    assert!(m.directory_mapping[1].1.watcher_tx.is_some());
    assert!(m.directory_mapping[2].1.watcher_tx.is_none());
}

#[test]
fn mapping_from_entries_refuses_duplicates() {
    let entry = |d: &str| (String::from(d), HandlerMapping::new(String::from("/p.toml"), false, String::new()));
    let m = Mapping::from_entries(vec![entry("/a"), entry("/b")]).unwrap();
    assert_eq!(m.len(), 2);
    assert_eq!(m.directory_mapping[1].0, "/b");
    assert!(Mapping::from_entries(vec![entry("/a"), entry("/b"), entry("/a")]).is_none());
    assert!(Mapping::from_entries(Vec::new()).unwrap().is_empty());
}

#[test]
fn handler_messages_and_the_stop_they_carry() {
    assert!(matches!(HandlerChannelMessage::ping(), HandlerChannelMessage::Ping));
    assert!(matches!(HandlerChannelMessage::terminate(), HandlerChannelMessage::Terminate));
    let mut m = registered_mapping(&[("/a", false)]);
    let (tx, rx) = unbounded();
    m.complete_start("/a", Ok(tx));
    assert!(alive(&m.directory_mapping[0].1));
    match rx.try_recv().unwrap() {
        Ok(event) => assert!(event.kind.is_other()),
        Err(_) => panic!("the ping arrived as an error"),
    }
    assert_eq!(stop_thread(&m.directory_mapping[0].1), Ok(String::from("Handler stopped")));
    match rx.try_recv().unwrap() {
        Err(e) => assert!(matches!(e.kind, notify::ErrorKind::WatchNotFound)),
        Ok(_) => panic!("the stop arrived as an event"),
    }
}

#[test]
fn messages_go_only_to_the_handlers_concerned() {
    let mut m = registered_mapping(&[("/a", false), ("/b", false), ("/c", false)]);
    let (tx_a, _rx_a) = unbounded();
    let (tx_b, _rx_b) = unbounded();
    m.complete_start("/a", Ok(tx_a));
    m.complete_start("/b", Ok(tx_b));
    let ping = |v: &Vec<Option<HandlerChannelMessage>>| v.iter().map(|p| matches!(p, Some(HandlerChannelMessage::Ping))).collect::<Vec<bool>>();
    assert_eq!(ping(&m.ping_messages("/b")), vec![false, true, false]);
    assert_eq!(ping(&m.ping_messages("")), vec![true, true, false]);
    assert_eq!(ping(&m.ping_messages("/c")), vec![false, false, false]);
    assert_eq!(ping(&m.ping_messages("/zz")), vec![false, false, false]);
    let stops = |v: &Vec<Option<HandlerChannelMessage>>| v.iter().map(|p| matches!(p, Some(HandlerChannelMessage::Terminate))).collect::<Vec<bool>>();
    assert_eq!(stops(&m.stop_messages("/a", &vec![true, true, false])), vec![true, false, false]);
    assert_eq!(stops(&m.stop_messages("", &vec![true, false, false])), vec![true, false, false]);
    assert_eq!(stops(&m.stop_messages("/zz", &vec![true, true, false])), vec![false, false, false]);
    let live = m.liveness(&vec![Some(Ok(())), Some(Err(String::from("\"SendError(..)\""))), None]);
    assert_eq!(live, vec![true, false, false]);
    let h = &m.directory_mapping[0].1;
    assert_eq!(h.stop_handler_thread(&Ok(())), Ok(String::from("Handler stopped")));
    assert_eq!(
        h.stop_handler_thread(&Err(String::from("\"SendError(..)\""))),
        Err(String::from("Failed to stop handler\nError: \"SendError(..)\""))
    );
    assert!(matches!(h.stop_message(), Some(HandlerChannelMessage::Terminate)));
    assert!(m.directory_mapping[2].1.stop_message().is_none());
    assert!(m.directory_mapping[2].1.ping_message().is_none());
}
