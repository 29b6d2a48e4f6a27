use vstd::prelude::*;
use vstd::string::*;

use tracing_subscriber::EnvFilter;

use crate::install::InitError;

verus! {

/// The arguments an installer is called with.
#[derive(Clone, Debug)]
pub struct TracingConfig {
    /// Service name, also the base name of the log files.
    pub app_name: String,
    /// Directory that holds the log files.
    pub dir: String,
    /// Filter directive used when the environment gives none.
    pub level: String,
    /// `Some(true)` turns the console sink off.
    pub disable_stdout: Option<bool>,
}

/// What the environment holds at bootstrap time, read once by the caller.
#[derive(Clone, Debug)]
pub struct TracingEnv {
    /// The verbosity override directive.
    pub log_directives: Option<String>,
    /// The trace-collector agent endpoint.
    pub jaeger_agent_endpoint: Option<String>,
    /// The error-reporting DSN.
    pub sentry_dsn: Option<String>,
    /// Whether standard output is an interactive terminal.
    pub stdout_is_terminal: bool,
}

/// A file sink rotated every hour: files under `dir` named from `file_prefix`,
/// written through a non-blocking background worker.
#[derive(Clone, Debug)]
pub struct FileSink {
    pub dir: String,
    pub file_prefix: String,
}

/// The console sink, on standard output.
#[derive(Clone, Copy, Debug, PartialEq, Eq, Structural)]
pub struct ConsoleSink {
    /// Colour escapes are written only to an interactive terminal.
    pub ansi: bool,
}

/// The sinks and the filter of the process-wide subscriber.
#[derive(Clone, Debug)]
pub struct GlobalTracingPlan {
    /// Name of the service, in the JSON file lines and in exported spans.
    pub service_name: String,
    /// The rotating JSON-per-line file sink.
    pub file: FileSink,
    /// The console sink, absent when turned off.
    pub console: Option<ConsoleSink>,
    /// Where spans are exported; absent means no trace exporter at all.
    pub jaeger_agent_endpoint: Option<String>,
    /// Whether the error-reporting sink is part of the subscriber.
    pub error_reporting: bool,
    /// The filter directive that the subscriber is built with.
    pub directives: String,
}

/// The subscriber of one named log stream, handed to its caller.
#[derive(Clone, Debug)]
pub struct QueryLoggerPlan {
    /// The rotating file sink, written compactly without time, target or level.
    pub file: FileSink,
    pub ansi: bool,
}

/// The process-wide subscriber of the metadata service's unit tests.
#[derive(Clone, Debug)]
pub struct MetaTracingPlan {
    /// The rotating file sink, written by the event formatter with every span
    /// event and without colour.
    pub file: FileSink,
    pub directives: String,
}

/// A variable counts as set when it is present and not empty.
pub open spec fn is_set(v: Option<String>) -> bool {
    match v {
        Some(s) => s@.len() > 0,
        None => false,
    }
}

/// The override directive when it is set, else the caller's level.
pub open spec fn directives_spec(env_value: Option<String>, level: Seq<char>) -> Seq<char> {
    if is_set(env_value) {
        env_value->0@
    } else {
        level
    }
}

pub open spec fn file_sink_spec(f: FileSink, dir: Seq<char>, prefix: Seq<char>) -> bool {
    f.dir@ == dir && f.file_prefix@ == prefix
}

/// The filter directive: the environment's override when it is set, else
/// `level`.
pub fn effective_directives(env_value: &Option<String>, level: &str) -> (r: String)
    ensures
        r@ == directives_spec(*env_value, level@),
{
    match env_value {
        Some(v) => {
            if v.as_str().is_empty() {
                String::from_str(level)
            } else {
                v.clone()
            }
        },
        None => String::from_str(level),
    }
}

/// The endpoint when the variable is set; `None` when it is absent or empty.
pub fn configured_endpoint(v: &Option<String>) -> (r: Option<String>)
    ensures
        r is Some <==> is_set(*v),
        r is Some ==> r->0@ == v->0@,
{
    match v {
        Some(s) => {
            if s.as_str().is_empty() {
                None
            } else {
                Some(s.clone())
            }
        },
        None => None,
    }
}

/// Whether a filter directive string parses.
pub uninterp spec fn directives_parse(s: Seq<char>) -> bool;

/// The characters that `char::is_whitespace` accepts (Unicode `White_Space`).
pub open spec fn is_white_space(c: char) -> bool {
    ||| '\u{9}' <= c <= '\u{d}'
    ||| c == ' '
    ||| c == '\u{85}'
    ||| c == '\u{a0}'
    ||| c == '\u{1680}'
    ||| '\u{2000}' <= c <= '\u{200a}'
    ||| c == '\u{2028}'
    ||| c == '\u{2029}'
    ||| c == '\u{202f}'
    ||| c == '\u{205f}'
    ||| c == '\u{3000}'
}

/// Whether `c` is white space, as `char::is_whitespace` says.
pub fn char_is_white_space(c: char) -> (r: bool)
    ensures
        r == is_white_space(c),
{
    ('\u{9}' <= c && c <= '\u{d}') || c == ' ' || c == '\u{85}' || c == '\u{a0}' || c
        == '\u{1680}' || ('\u{2000}' <= c && c <= '\u{200a}') || c == '\u{2028}' || c
        == '\u{2029}' || c == '\u{202f}' || c == '\u{205f}' || c == '\u{3000}'
}

/// The position where the comma-separated piece holding position `j` starts.
pub open spec fn piece_start(s: Seq<char>, j: int) -> int
    decreases j,
{
    if j <= 0 || s[j - 1] == ',' {
        j
    } else {
        piece_start(s, j - 1)
    }
}

/// No piece that starts with white space holds a non-ASCII character. The
/// directive parser slices each piece by offsets taken after trimming it, and
/// this keeps those offsets on character boundaries.
pub open spec fn directives_safe(s: Seq<char>) -> bool {
    forall|j: int|
        0 <= j < s.len() && is_white_space(s[#[trigger] piece_start(s, j)]) ==> s[j] <= '\u{7f}'
}

/// Whether no piece of `s` that starts with white space holds a non-ASCII
/// character.
pub fn directives_are_safe(s: &str) -> (r: bool)
    ensures
        r == directives_safe(s@),
{
    let n = s.unicode_len();
    let mut i: usize = 0;
    let mut prev_comma = true;
    let mut start_ws = false;
    while i < n
        invariant
            i <= n,
            n == s@.len(),
            prev_comma == (i == 0 || s@[i - 1] == ','),
            i > 0 ==> start_ws == is_white_space(s@[piece_start(s@, i - 1)]),
            forall|j: int|
                0 <= j < i && is_white_space(s@[#[trigger] piece_start(s@, j)]) ==> s@[j]
                    <= '\u{7f}',
        decreases n - i,
    {
        let c = s.get_char(i);
        if prev_comma {
            start_ws = char_is_white_space(c);
        }
        assert(start_ws == is_white_space(s@[piece_start(s@, i as int)]));
        if start_ws && c > '\u{7f}' {
            return false;
        }
        prev_comma = c == ',';
        i = i + 1;
    }
    true
}

/// Relies on tracing_subscriber's `EnvFilter::try_new`: whether the directive
/// string parses; an empty string parses to the default filter. The parser
/// slices each piece by offsets taken after trimming it, so a piece that
/// starts with white space must be ASCII.
#[verifier::external_body]
fn directives_valid(s: &str) -> (r: bool)
    requires
        directives_safe(s@),
    ensures
        r == directives_parse(s@),
        s@.len() == 0 ==> r,
{
    EnvFilter::try_new(s).is_ok()
}

/// The process-wide plan for `app_name` under `dir`, filtered by `directives`.
pub open spec fn global_plan_spec(
    p: GlobalTracingPlan,
    app_name: Seq<char>,
    dir: Seq<char>,
    disable_stdout: Option<bool>,
    env: TracingEnv,
    directives: Seq<char>,
) -> bool {
    &&& p.service_name@ == app_name
    &&& file_sink_spec(p.file, dir, app_name)
    &&& p.console == (if disable_stdout == Some(true) {
        None
    } else {
        Some(ConsoleSink { ansi: env.stdout_is_terminal })
    })
    &&& (p.jaeger_agent_endpoint is Some <==> is_set(env.jaeger_agent_endpoint))
    &&& (p.jaeger_agent_endpoint is Some ==> p.jaeger_agent_endpoint->0@
        == env.jaeger_agent_endpoint->0@)
    &&& p.error_reporting == is_set(env.sentry_dsn)
    &&& p.directives@ == directives
}

/// Assembles the process-wide plan once the filter directives are chosen and
/// checked: an error iff they do not parse.
pub fn assemble_global_plan(
    app_name: &str,
    dir: &str,
    disable_stdout: Option<bool>,
    env: &TracingEnv,
    directives: String,
    directives_ok: bool,
) -> (r: Result<GlobalTracingPlan, InitError>)
    ensures
        r is Err <==> !directives_ok,
        r is Err ==> r == Err::<GlobalTracingPlan, InitError>(InitError::InvalidDirectives),
        r is Ok ==> global_plan_spec(r->Ok_0, app_name@, dir@, disable_stdout, *env, directives@),
{
    if !directives_ok {
        return Err(InitError::InvalidDirectives);
    }
    let console = match disable_stdout {
        Some(true) => None,
        _ => Some(ConsoleSink { ansi: env.stdout_is_terminal }),
    };
    let reporting = configured_endpoint(&env.sentry_dsn);
    Ok(
        GlobalTracingPlan {
            service_name: String::from_str(app_name),
            file: FileSink { dir: String::from_str(dir), file_prefix: String::from_str(app_name) },
            console,
            jaeger_agent_endpoint: configured_endpoint(&env.jaeger_agent_endpoint),
            error_reporting: reporting.is_some(),
            directives,
        },
    )
}

/// What `plan_global_tracing` returns: the plan, or `InvalidDirectives`
/// exactly when the effective directives are unsafe or do not parse.
pub open spec fn global_plan_outcome(
    r: Result<GlobalTracingPlan, InitError>,
    app_name: Seq<char>,
    dir: Seq<char>,
    level: Seq<char>,
    disable_stdout: Option<bool>,
    env: TracingEnv,
) -> bool {
    let d = directives_spec(env.log_directives, level);
    &&& (r is Err <==> !(directives_safe(d) && directives_parse(d)))
    &&& (r is Err ==> r == Err::<GlobalTracingPlan, InitError>(InitError::InvalidDirectives))
    &&& (r is Ok ==> global_plan_spec(r->Ok_0, app_name, dir, disable_stdout, env, d))
}

/// With no collector endpoint set (absent or empty), a missing collector is
/// no error: the plan is refused only for its directives, and a plan that is
/// returned holds no trace exporter at all.
pub proof fn lemma_no_collector_no_exporter(
    r: Result<GlobalTracingPlan, InitError>,
    app_name: Seq<char>,
    dir: Seq<char>,
    level: Seq<char>,
    disable_stdout: Option<bool>,
    env: TracingEnv,
)
    requires
        global_plan_outcome(r, app_name, dir, level, disable_stdout, env),
        !is_set(env.jaeger_agent_endpoint),
    ensures
        r is Ok <==> directives_safe(directives_spec(env.log_directives, level))
            && directives_parse(directives_spec(env.log_directives, level)),
        r is Ok ==> r->Ok_0.jaeger_agent_endpoint is None,
{
}

/// Decides the sinks and filter of the process-wide subscriber; directives
/// that do not parse, or with a piece that starts with white space and holds
/// a non-ASCII character, are a configuration error.
pub fn plan_global_tracing(
    app_name: &str,
    dir: &str,
    level: &str,
    disable_stdout: Option<bool>,
    env: &TracingEnv,
) -> (r: Result<GlobalTracingPlan, InitError>)
    ensures
        global_plan_outcome(r, app_name@, dir@, level@, disable_stdout, *env),
{
    let directives = effective_directives(&env.log_directives, level);
    let ok = if directives_are_safe(directives.as_str()) {
        directives_valid(directives.as_str())
    } else {
        false
    };
    assemble_global_plan(app_name, dir, disable_stdout, env, directives, ok)
}

/// Decides the file sink of a named log stream.
pub fn plan_query_logger(log_name: &str, dir: &str, stdout_is_terminal: bool) -> (r:
    QueryLoggerPlan)
    ensures
        file_sink_spec(r.file, dir@, log_name@),
        r.ansi == stdout_is_terminal,
{
    QueryLoggerPlan {
        file: FileSink { dir: String::from_str(dir), file_prefix: String::from_str(log_name) },
        ansi: stdout_is_terminal,
    }
}

/// Decides the file sink and filter of the metadata service's test
/// subscriber; directives that do not parse, or with a piece that starts
/// with white space and holds a non-ASCII character, are a configuration
/// error.
pub fn plan_meta_ut_tracing(app_name: &str, dir: &str, level: &str, env: &TracingEnv) -> (r:
    Result<MetaTracingPlan, InitError>)
    ensures
        r is Err <==> !(directives_safe(directives_spec(env.log_directives, level@))
            && directives_parse(directives_spec(env.log_directives, level@))),
        r is Err ==> r == Err::<MetaTracingPlan, InitError>(InitError::InvalidDirectives),
        r is Ok ==> file_sink_spec(r->Ok_0.file, dir@, app_name@),
        r is Ok ==> r->Ok_0.directives@ == directives_spec(env.log_directives, level@),
{
    let directives = effective_directives(&env.log_directives, level);
    if !directives_are_safe(directives.as_str()) || !directives_valid(directives.as_str()) {
        return Err(InitError::InvalidDirectives);
    }
    Ok(
        MetaTracingPlan {
            file: FileSink { dir: String::from_str(dir), file_prefix: String::from_str(app_name) },
            directives,
        },
    )
}

} // verus!
