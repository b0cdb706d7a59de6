//! A report: an error together with its diagnostic context.

use vstd::prelude::*;
use vstd::string::StringExecFns;

use crate::context::{ContextView, ReportContext};
use crate::error::Error;
use crate::location::Location;
use crate::render::{render_parts, report_text};

verus! {

/// An error with the context that was gathered while it travelled up the
/// call chain.
#[derive(Debug)]
pub struct Report<E> {
    error: E,
    context: Box<ReportContext>,
}

impl<E> Report<E> {
    /// The error that the report holds, as contracts see it.
    pub closed spec fn error_spec(&self) -> E {
        self.error
    }

    /// The context that the report holds, as contracts see it.
    pub closed spec fn context_spec(&self) -> ContextView {
        self.context@
    }

    /// Records `text` at `location`. The error and the place of its message
    /// stay as they are.
    pub fn attach(self, location: Location, text: String) -> (report: Report<E>)
        ensures
            report.error_spec() == self.error_spec(),
            report.context_spec() == self.context_spec().attach(location@, text@),
            report.context_spec().wf(),
    {
        let Report { error, context } = self;
        let context = (*context).attach(location, text);
        Report { error, context: Box::new(context) }
    }
}

/// The text with which a failure is reported where a value was taken for
/// granted: a heading, an empty line and the report's text.
pub open spec fn assertion_text(report: Seq<char>) -> Seq<char> {
    "BUG: found error but expected value\n\n"@ + report
}

/// The text with which a failure is logged before it is dropped: a heading,
/// an empty line and the report's text.
pub open spec fn ignored_text(report: Seq<char>) -> Seq<char> {
    "ignoring error\n\n"@ + report
}

impl<E: Error> Report<E> {
    /// The report's text, as contracts see it.
    pub open spec fn text(&self) -> Seq<char> {
        report_text(
            self.error_spec().message_spec(),
            self.error_spec().causes_spec(),
            self.context_spec(),
        )
    }

    /// The report's text: the error's message, its causes, the breadcrumbs
    /// from the newest to the oldest, and the traces.
    pub fn render(&self) -> (text: String)
        ensures
            text@ == self.text(),
    {
        let message = self.error.message();
        let causes = self.error.causes();
        render_parts(
            &message,
            &causes,
            self.context.items(),
            self.context.backtrace(),
            self.context.span_trace(),
        )
    }

    /// The text that reports this failure as a bug.
    pub fn assertion_message(&self) -> (text: String)
        ensures
            text@ == assertion_text(self.text()),
    {
        let mut text = String::from_str("BUG: found error but expected value\n\n");
        text.append(self.render().as_str());
        text
    }

    /// The text that logs this failure as ignored.
    pub fn ignored_message(&self) -> (text: String)
        ensures
            text@ == ignored_text(self.text()),
    {
        let mut text = String::from_str("ignoring error\n\n");
        text.append(self.render().as_str());
        text
    }

    /// A report of `error` with the context `context`.
    pub fn new(error: E, context: ReportContext) -> (report: Self)
        ensures
            report.error_spec() == error,
            report.context_spec() == context@,
            report.context_spec().wf(),
    {
        proof {
            use_type_invariant(&context);
        }
        Self { error, context: Box::new(context) }
    }

    /// A report of `error` whose context is captured at `location`.
    pub fn capture(error: E, location: Location) -> (report: Self)
        ensures
            report.error_spec() == error,
            report.context_spec().is_fresh(location@),
            report.context_spec().wf(),
    {
        Self::new(error, ReportContext::capture(location))
    }

    /// The error.
    pub fn error(&self) -> (error: &E)
        ensures
            *error == self.error_spec(),
    {
        &self.error
    }

    /// The context.
    pub fn context(&self) -> (context: &ReportContext)
        ensures
            context@ == self.context_spec(),
            context@.wf(),
    {
        proof {
            use_type_invariant(&*self.context);
        }
        &self.context
    }

    /// Takes the report apart.
    pub fn into_parts(self) -> (parts: (E, ReportContext))
        ensures
            parts.0 == self.error_spec(),
            parts.1@ == self.context_spec(),
            parts.1@.wf(),
    {
        proof {
            use_type_invariant(&*self.context);
        }
        (self.error, *self.context)
    }

    /// Replaces the error by what `map` makes of it. The message of the old
    /// error is kept as a breadcrumb, and a new breadcrumb at `location`
    /// becomes the place of the new error.
    pub fn propagate_map<F, M>(self, map: M, location: Location) -> (report: Report<F>) where
        M: FnOnce(E) -> F,

        requires
            call_requires(map, (self.error_spec(),)),
        ensures
            call_ensures(map, (self.error_spec(),), report.error_spec()),
            report.context_spec() == self.context_spec().retype(
                self.error_spec().message_spec(),
                location@,
            ),
            report.context_spec().wf(),
    {
        let Report { error, context } = self;
        let message = error.message();
        let context = (*context).retype(message, location);
        Report { error: map(error), context: Box::new(context) }
    }
}

} // verus!
