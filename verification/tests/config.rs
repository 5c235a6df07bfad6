use taskify::config::{connection_url, init_log, Config, Database, LogLevel, LogPlan, LogSink, Logger};

fn logger(enabled: bool, write_logs: bool, print_logs: bool) -> Logger {
    Logger { enabled, write_logs, print_logs, log_path: "./taskify.log".to_string() }
}

fn file() -> LogSink {
    LogSink::File { path: "./taskify.log".to_string(), level: LogLevel::Info }
}

fn terminal() -> LogSink {
    LogSink::Terminal { level: LogLevel::Debug }
}

#[test]
fn log_plan_writes_then_prints() {
    assert_eq!(init_log(&logger(true, true, true)), LogPlan { sinks: vec![file(), terminal()], install: true });
    assert_eq!(init_log(&logger(true, true, false)), LogPlan { sinks: vec![file()], install: true });
    assert_eq!(init_log(&logger(true, false, true)), LogPlan { sinks: vec![terminal()], install: true });
    assert_eq!(init_log(&logger(true, false, false)), LogPlan { sinks: vec![], install: true });
}

#[test]
fn log_plan_opens_sinks_even_when_logging_is_off() {
    assert_eq!(init_log(&logger(false, true, true)), LogPlan { sinks: vec![file(), terminal()], install: false });
    assert_eq!(init_log(&logger(false, false, false)), LogPlan { sinks: vec![], install: false });
}

#[test]
fn connection_url_wraps_the_path() {
    let database = Database { path: "./taskify.db".to_string() };
    assert_eq!(connection_url(&database), "sqlite://./taskify.db?mode=rwc");
    assert_eq!(connection_url(&Database { path: String::new() }), "sqlite://?mode=rwc");
}

#[test]
fn config_holds_both_parts() {
    let config = Config { database: Database { path: "a".to_string() }, logger: logger(true, false, false) };
    assert_eq!(config.database.path, "a");
    assert!(config.logger.enabled);
    assert_eq!(config.clone(), config);
}
