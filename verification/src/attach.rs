//! What can be attached to a report as context.

use vstd::prelude::*;
use vstd::string::StringExecFns;

use crate::location::Location;
use crate::report::Report;

verus! {

/// A context that can be attached to a report: a text, or a thunk that is
/// only called when the context is attached.
pub trait Context<E>: Sized {
    /// Whether the context can be attached: a thunk has to be callable.
    spec fn ready(&self) -> bool;

    /// Whether `text` is a text that attaching this context may record.
    spec fn yields(&self, text: Seq<char>) -> bool;

    /// Attaches this context to `report` at `location`: one breadcrumb with
    /// the context's text is added, and nothing else changes.
    fn attach_to(self, report: Report<E>, location: Location) -> (attached: Report<E>)
        requires
            self.ready(),
        ensures
            attached.error_spec() == report.error_spec(),
            attached.context_spec().wf(),
            exists|text: Seq<char>|
                self.yields(text) && attached.context_spec()
                    == #[trigger] report.context_spec().attach(location@, text),
    ;
}

impl<E> Context<E> for String {
    open spec fn ready(&self) -> bool {
        true
    }

    open spec fn yields(&self, text: Seq<char>) -> bool {
        text == self@
    }

    fn attach_to(self, report: Report<E>, location: Location) -> (attached: Report<E>) {
        report.attach(location, self)
    }
}

impl<'a, E> Context<E> for &'a str {
    open spec fn ready(&self) -> bool {
        true
    }

    open spec fn yields(&self, text: Seq<char>) -> bool {
        text == self@
    }

    fn attach_to(self, report: Report<E>, location: Location) -> (attached: Report<E>) {
        report.attach(location, String::from_str(self))
    }
}

impl<E, F, C> Context<E> for F where F: FnOnce() -> C, C: Context<E> {
    open spec fn ready(&self) -> bool {
        &&& call_requires(*self, ())
        &&& forall|context: C| call_ensures(*self, (), context) ==> context.ready()
    }

    open spec fn yields(&self, text: Seq<char>) -> bool {
        exists|context: C| call_ensures(*self, (), context) && context.yields(text)
    }

    fn attach_to(self, report: Report<E>, location: Location) -> (attached: Report<E>) {
        (self)().attach_to(report, location)
    }
}

} // verus!
