use vstd::prelude::*;

verus! {

/// Severity of a log event or span, from the most to the least severe.
#[derive(Clone, Copy, Debug, PartialEq, Eq, Structural)]
pub enum Level {
    Error,
    Warn,
    Info,
    Debug,
    Trace,
}

/// The upper-case name under which a level is printed.
pub open spec fn level_name(l: Level) -> Seq<char> {
    match l {
        Level::Error => "ERROR"@,
        Level::Warn => "WARN"@,
        Level::Info => "INFO"@,
        Level::Debug => "DEBUG"@,
        Level::Trace => "TRACE"@,
    }
}

/// What the error-reporting sink makes of an event.
#[derive(Clone, Copy, Debug, PartialEq, Eq, Structural)]
pub enum EventClass {
    /// Reported on its own as an incident.
    Incident,
    /// Kept as context for a later incident, never reported alone.
    Breadcrumb,
}

/// Warnings and errors are incidents; everything less severe is a breadcrumb.
pub open spec fn event_class_of(l: Level) -> EventClass {
    match l {
        Level::Error | Level::Warn => EventClass::Incident,
        _ => EventClass::Breadcrumb,
    }
}

/// Spans of every level but `Trace` are attached to incidents as context.
pub open spec fn span_reported_spec(l: Level) -> bool {
    l != Level::Trace
}

impl Level {
    pub fn as_str(&self) -> (r: &'static str)
        ensures
            r@ == level_name(*self),
    {
        match self {
            Level::Error => "ERROR",
            Level::Warn => "WARN",
            Level::Info => "INFO",
            Level::Debug => "DEBUG",
            Level::Trace => "TRACE",
        }
    }
}

/// How the error-reporting sink classifies an event of level `l`.
pub fn error_report_class(l: Level) -> (r: EventClass)
    ensures
        r == event_class_of(l),
        l == Level::Error ==> r == EventClass::Incident,
        l == Level::Info ==> r == EventClass::Breadcrumb,
{
    match l {
        Level::Error | Level::Warn => EventClass::Incident,
        Level::Info | Level::Debug | Level::Trace => EventClass::Breadcrumb,
    }
}

/// Whether the error-reporting sink attaches a span of level `l` as context.
pub fn error_report_span(l: Level) -> (r: bool)
    ensures
        r == span_reported_spec(l),
{
    match l {
        Level::Error | Level::Warn | Level::Info | Level::Debug => true,
        Level::Trace => false,
    }
}

} // verus!
