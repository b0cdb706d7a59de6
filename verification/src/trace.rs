//! Capture of the stack backtrace and of the span trace.

use std::backtrace::{Backtrace, BacktraceStatus};

use tracing_error::{SpanTrace, SpanTraceStatus};
use vstd::prelude::*;

verus! {

/// `Backtrace` of std. It is carried from the capture to the calls that read
/// it, and nothing is known of what it holds.
#[verifier::external_type_specification]
#[verifier::external_body]
pub struct ExBacktrace(std::backtrace::Backtrace);

/// `SpanTrace` of tracing-error. It is carried from the capture to the calls
/// that read it, and nothing is known of what it holds.
#[verifier::external_type_specification]
#[verifier::external_body]
pub struct ExSpanTrace(tracing_error::SpanTrace);

/// `Backtrace::capture` of std: a backtrace of the current thread, where the
/// environment enables backtraces. Nothing is claimed of the result.
#[verifier::external_body]
fn backtrace_capture() -> Backtrace {
    Backtrace::capture()
}

/// `Backtrace::status` of std, as whether the status is `Captured`. Nothing is
/// claimed of the result.
#[verifier::external_body]
fn backtrace_is_captured(backtrace: &Backtrace) -> bool {
    matches!(backtrace.status(), BacktraceStatus::Captured)
}

/// `SpanTrace::capture` of tracing-error: the trace of the spans that are
/// current. Nothing is claimed of the result.
#[verifier::external_body]
fn span_trace_capture() -> SpanTrace {
    SpanTrace::capture()
}

/// `SpanTrace::status` of tracing-error, as whether the status is `CAPTURED`.
/// Nothing is claimed of the result.
#[verifier::external_body]
fn span_trace_is_captured(span_trace: &SpanTrace) -> bool {
    span_trace.status() == SpanTraceStatus::CAPTURED
}

/// The text of the current stack backtrace, or nothing where none can be
/// captured.
pub(crate) fn capture_backtrace() -> Option<String> {
    let backtrace = backtrace_capture();
    if backtrace_is_captured(&backtrace) {
        Some(backtrace.to_string())
    } else {
        None
    }
}

/// The text of the current span trace, or nothing where none can be
/// captured.
pub(crate) fn capture_span_trace() -> Option<String> {
    let span_trace = span_trace_capture();
    if span_trace_is_captured(&span_trace) {
        Some(span_trace.to_string())
    } else {
        None
    }
}

} // verus!
