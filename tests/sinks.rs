use common_tracing::install::InitError;
use common_tracing::level::{error_report_class, error_report_span, EventClass, Level};
use common_tracing::setup::{
    assemble_global_plan, char_is_white_space, configured_endpoint, directives_are_safe, effective_directives, plan_global_tracing, plan_meta_ut_tracing,
    plan_query_logger, ConsoleSink, TracingEnv,
};

fn no_env() -> TracingEnv {
    TracingEnv {
        log_directives: None,
        jaeger_agent_endpoint: None,
        sentry_dsn: None,
        stdout_is_terminal: false,
    }
}

#[test]
fn default_install_plan() {
    let plan = plan_global_tracing("svc", "/tmp/logs", "INFO", None, &no_env()).unwrap();
    assert_eq!(plan.service_name, "svc");
    assert_eq!(plan.file.dir, "/tmp/logs");
    assert_eq!(plan.file.file_prefix, "svc");
    assert_eq!(plan.directives, "INFO");
    assert_eq!(plan.console, Some(ConsoleSink { ansi: false }));
    assert_eq!(plan.jaeger_agent_endpoint, None);
    assert!(!plan.error_reporting);
}

#[test]
fn empty_collector_endpoint_means_no_exporter() {
    let mut env = no_env();
    env.jaeger_agent_endpoint = Some(String::new());
    let plan = plan_global_tracing("svc", "/tmp/logs", "INFO", None, &env).unwrap();
    assert_eq!(plan.jaeger_agent_endpoint, None);
}

#[test]
fn collector_endpoint_enables_exporter() {
    let mut env = no_env();
    env.jaeger_agent_endpoint = Some("localhost:6831".to_string());
    env.sentry_dsn = Some("https://key@example.com/1".to_string());
    env.stdout_is_terminal = true;
    let plan = plan_global_tracing("svc", "/tmp/logs", "INFO", Some(false), &env).unwrap();
    assert_eq!(plan.jaeger_agent_endpoint, Some("localhost:6831".to_string()));
    assert!(plan.error_reporting);
    assert_eq!(plan.console, Some(ConsoleSink { ansi: true }));
}

#[test]
fn console_can_be_turned_off() {
    let plan = plan_global_tracing("svc", "/tmp/logs", "INFO", Some(true), &no_env()).unwrap();
    assert_eq!(plan.console, None);
}

#[test]
fn override_directive_wins_when_set() {
    assert_eq!(effective_directives(&Some("meta=trace".to_string()), "INFO"), "meta=trace");
    assert_eq!(effective_directives(&Some(String::new()), "INFO"), "INFO");
    assert_eq!(effective_directives(&None, "WARN"), "WARN");
    let mut env = no_env();
    env.log_directives = Some("debug".to_string());
    let plan = plan_global_tracing("svc", "/tmp/logs", "INFO", None, &env).unwrap();
    assert_eq!(plan.directives, "debug");
}

#[test]
fn endpoint_needs_a_value() {
    assert_eq!(configured_endpoint(&None), None);
    assert_eq!(configured_endpoint(&Some(String::new())), None);
    assert_eq!(configured_endpoint(&Some("h:1".to_string())), Some("h:1".to_string()));
}

#[test]
fn query_logger_plan() {
    let plan = plan_query_logger("query", "/var/log/q", true);
    assert_eq!(plan.file.dir, "/var/log/q");
    assert_eq!(plan.file.file_prefix, "query");
    assert!(plan.ansi);
}

#[test]
fn meta_plan_uses_level_without_override() {
    let plan = plan_meta_ut_tracing("unittest-meta", "./logs", "DEBUG", &no_env()).unwrap();
    assert_eq!(plan.file.dir, "./logs");
    assert_eq!(plan.file.file_prefix, "unittest-meta");
    assert_eq!(plan.directives, "DEBUG");
}

#[test]
fn error_reporting_classes() {
    assert_eq!(error_report_class(Level::Error), EventClass::Incident);
    assert_eq!(error_report_class(Level::Warn), EventClass::Incident);
    assert_eq!(error_report_class(Level::Info), EventClass::Breadcrumb);
    assert_eq!(error_report_class(Level::Debug), EventClass::Breadcrumb);
    assert_eq!(error_report_class(Level::Trace), EventClass::Breadcrumb);
    assert!(error_report_span(Level::Debug));
    assert!(!error_report_span(Level::Trace));
}

#[test]
fn unparseable_directives_fail_fast() {
    let r = plan_global_tracing("svc", "/tmp/logs", "svc=notalevel", None, &no_env());
    assert_eq!(r.err(), Some(InitError::InvalidDirectives));
    let mut env = no_env();
    env.log_directives = Some("a=b=c=bogus".to_string());
    let r = plan_meta_ut_tracing("m", "./logs", "DEBUG", &env);
    assert_eq!(r.err(), Some(InitError::InvalidDirectives));
}

#[test]
fn module_directives_are_accepted() {
    let plan = plan_global_tracing("svc", "/tmp/logs", "common=debug,meta=info", None, &no_env()).unwrap();
    assert_eq!(plan.directives, "common=debug,meta=info");
}

#[test]
fn assemble_follows_the_check() {
    let r = assemble_global_plan("svc", "/d", None, &no_env(), "x".to_string(), false);
    assert_eq!(r.err(), Some(InitError::InvalidDirectives));
    let plan = assemble_global_plan("svc", "/d", Some(true), &no_env(), "x".to_string(), true).unwrap();
    assert_eq!(plan.directives, "x");
    assert_eq!(plan.file.dir, "/d");
    assert_eq!(plan.console, None);
}

#[test]
fn white_space_led_pieces_must_be_ascii() {
    assert!(directives_are_safe(""));
    assert!(directives_are_safe("info,meta=debug"));
    assert!(directives_are_safe("info,,debug"));
    assert!(directives_are_safe(" info"));
    assert!(directives_are_safe("info, meta=debug"));
    assert!(directives_are_safe("é=debug"));
    assert!(directives_are_safe("a=é, b=info"));
    assert!(!directives_are_safe("\u{3000}info"));
    assert!(!directives_are_safe("info, é=debug"));
    assert!(!directives_are_safe("\t a=é"));
}

#[test]
fn white_space_matches_std() {
    for c in (0u32..=0x10FFFF).filter_map(char::from_u32) {
        assert_eq!(char_is_white_space(c), c.is_whitespace(), "{:?}", c);
    }
}

#[test]
fn non_ascii_target_is_accepted() {
    let mut env = no_env();
    env.log_directives = Some("é=debug".to_string());
    let plan = plan_meta_ut_tracing("m", "./logs", "DEBUG", &env).unwrap();
    assert_eq!(plan.directives, "é=debug");
    let plan = plan_global_tracing("svc", "/tmp/logs", "info,meta=debug", None, &no_env()).unwrap();
    assert_eq!(plan.directives, "info,meta=debug");
}

#[test]
fn whitespace_led_pieces_are_refused() {
    let r = plan_global_tracing("svc", "/tmp/logs", "info, é=debug", None, &no_env());
    assert_eq!(r.err(), Some(InitError::InvalidDirectives));
    let mut env = no_env();
    env.log_directives = Some("\u{3000}info".to_string());
    let r = plan_meta_ut_tracing("m", "./logs", "DEBUG", &env);
    assert_eq!(r.err(), Some(InitError::InvalidDirectives));
}
