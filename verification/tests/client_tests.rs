use folden::client::subcommand_utils::{
    construct_server_url, is_auto_startup_value, is_existing_directory_validator, simple_state_text,
    simple_summary_text, startup_type_text, startup_types, ExistingDirectoryValueParser,
};
use folden::client::subcommands::{
    GenerateSubCommand, ModifySubCommand, RegisterSubCommand, StartSubCommand, StatusSubCommand, StopSubCommand,
    TraceSubCommand,
};
use folden::messages::{HandlerStateResponse, HandlerSummary};

#[test]
fn server_url_from_port() {
    assert_eq!(construct_server_url(Some("8080")), Some(String::from("http://localhost:8080/")));
    assert_eq!(construct_server_url(None), None);
}

#[test]
fn startup_values() {
    assert_eq!(startup_types(), vec![String::from("auto"), String::from("manual")]);
    assert!(is_auto_startup_value("AUTO"));
    assert!(!is_auto_startup_value("manual"));
    assert_eq!(startup_type_text(true), "auto");
    assert_eq!(startup_type_text(false), "manual");
}

#[test]
fn register_request() {
    let r = RegisterSubCommand.request(String::from("/d"), String::from("/c.toml"), true, Some("Auto"));
    assert_eq!(r.directory_path, "/d");
    assert_eq!(r.handler_config_path, "/c.toml");
    assert!(r.is_start_on_register);
    assert!(r.is_auto_startup);
    let manual = RegisterSubCommand.request(String::from("/d"), String::from("/c.toml"), false, None);
    assert!(!manual.is_auto_startup);
    assert_eq!(RegisterSubCommand.name(), "register");
    assert_eq!(RegisterSubCommand.alias(), "reg");
}

#[test]
fn modify_request() {
    let r = ModifySubCommand.request(String::new(), Some("manual"), Some("photos"));
    assert_eq!(r.directory_path, "");
    assert_eq!(r.is_auto_startup, Some(false));
    assert_eq!(r.modify_description.as_deref(), Some("photos"));
    let r = ModifySubCommand.request(String::from("/d"), None, None);
    assert_eq!(r.is_auto_startup, None);
    assert_eq!(r.modify_description, None);
}

#[test]
fn other_requests_and_names() {
    assert_eq!(StartSubCommand.request(String::from("/d")).directory_path, "/d");
    let stop = StopSubCommand.request(String::new(), true);
    assert!(stop.remove);
    assert_eq!(TraceSubCommand {}.request(String::from("/t")).directory_path, "/t");
    assert_eq!(StatusSubCommand {}.request(String::new()).directory_path, "");
    assert_eq!(StatusSubCommand {}.no_handler_message(true), "No handler registered on file system");
    assert_eq!(StatusSubCommand {}.no_handler_message(false), "No handler registered on directory");
    assert!(!GenerateSubCommand.requires_connection());
    assert!(TraceSubCommand {}.requires_connection());
    assert_eq!(GenerateSubCommand.alias(), "gen");
}

#[test]
fn generated_config_path() {
    assert_eq!(
        GenerateSubCommand::construct_config_path("folden_pipeline", None, "/home/u", false),
        "/home/u/folden_pipeline.toml"
    );
    assert_eq!(
        GenerateSubCommand::construct_config_path("folden_pipeline", Some("/d"), "/home/u", true),
        "/d/folden_pipeline.toml"
    );
    assert_eq!(GenerateSubCommand::construct_config_path("folden_pipeline", Some("p.toml"), "/home/u", false), "p.toml");
}

#[test]
fn plain_text_output() {
    let state = HandlerStateResponse { is_alive: true, message: String::from("Started handler") };
    assert_eq!(
        simple_state_text("/d", &state),
        "\n            /d\n            Alive: true\n            Message: Started handler"
    );
    let summary = HandlerSummary {
        is_alive: false,
        config_path: String::from("/c"),
        is_auto_startup: true,
        description: String::from("photos"),
    };
    assert_eq!(
        simple_summary_text("/d", &summary),
        "\n            /d\n            Description: photos\n            Alive: false\n            Startup: auto"
    );
}

#[test]
fn directory_arguments() {
    let parser = ExistingDirectoryValueParser::new();
    assert_eq!(parser.check(Ok(String::from("/d")), true, true), Ok(String::from("/d")));
    assert_eq!(parser.check(Ok(String::from("/f")), false, true), Err(String::from("Input value isn't a directory")));
    assert_eq!(
        parser.check(Err(String::from("No such file or directory (os error 2)")), false, false),
        Err(String::from("No such file or directory (os error 2)"))
    );
    assert!(is_existing_directory_validator(true, true).is_ok());
    assert_eq!(is_existing_directory_validator(false, false), Err(String::from("Input value isn't a directory")));
}
