//! What an error has to offer to be reported.

use vstd::prelude::*;

use crate::location::Location;
use crate::report::Report;
use crate::text::{text_of, texts_of};

verus! {

/// An error that can be reported: it may have a message, and it may have a
/// chain of underlying causes.
pub trait Error: Send + Sync + 'static {
    /// The message, as contracts see it.
    spec fn message_spec(&self) -> Option<Seq<char>>;

    /// The messages of the chain of underlying causes, nearest first, as
    /// contracts see them.
    spec fn causes_spec(&self) -> Seq<Seq<char>>;

    /// The error's message, if it has one.
    fn message(&self) -> (message: Option<String>)
        ensures
            text_of(message) == self.message_spec(),
    ;

    /// The messages of the chain of underlying causes, nearest first.
    fn causes(&self) -> (causes: Vec<String>)
        ensures
            texts_of(causes@) == self.causes_spec(),
    ;
}

/// An error that can be made out of thin air, to stand in for any other: it
/// has no message and no cause.
pub trait Whatever: Error + Sized {
    /// A new error of this kind.
    fn new() -> (error: Self)
        ensures
            error.message_spec() is None,
            error.causes_spec().len() == 0,
    ;

    /// Takes over `report`: its error makes way for a new error of this
    /// kind, its message is kept as a breadcrumb, and the trail goes on at
    /// `location`.
    fn propagate<E: Error>(report: Report<E>, location: Location) -> (propagated: Report<Self>)
        ensures
            propagated.error_spec().message_spec() is None,
            propagated.error_spec().causes_spec().len() == 0,
            propagated.context_spec() == report.context_spec().retype(
                report.error_spec().message_spec(),
                location@,
            ),
            propagated.context_spec().wf(),
    {
        let renew = |_error: E| -> (error: Self)
            ensures
                error.message_spec() is None,
                error.causes_spec().len() == 0,
            {
                Self::new()
            };
        report.propagate_map(renew, location)
    }
}

/// An error without information of its own. `TAG` tells one kind of marker
/// from another.
#[derive(Debug)]
pub struct Marker<const TAG: u64>(());

impl<const TAG: u64> Error for Marker<TAG> {
    open spec fn message_spec(&self) -> Option<Seq<char>> {
        None
    }

    open spec fn causes_spec(&self) -> Seq<Seq<char>> {
        Seq::empty()
    }

    fn message(&self) -> (message: Option<String>) {
        None
    }

    fn causes(&self) -> (causes: Vec<String>) {
        Vec::new()
    }
}

impl<const TAG: u64> Whatever for Marker<TAG> {
    fn new() -> (error: Self) {
        Marker(())
    }
}

/// An error known by what it shows of itself: its message and the messages
/// of its chain of underlying causes, nearest first.
#[derive(Debug)]
pub struct Described {
    message: String,
    causes: Vec<String>,
}

impl Described {
    /// An error with the message `message` and the chain of causes whose
    /// messages are `causes`, nearest first.
    pub fn new(message: String, causes: Vec<String>) -> (error: Described)
        ensures
            error.message_spec() == Some(message@),
            error.causes_spec() == texts_of(causes@),
    {
        Described { message, causes }
    }
}

impl Error for Described {
    closed spec fn message_spec(&self) -> Option<Seq<char>> {
        Some(self.message@)
    }

    closed spec fn causes_spec(&self) -> Seq<Seq<char>> {
        texts_of(self.causes@)
    }

    fn message(&self) -> (message: Option<String>) {
        Some(self.message.clone())
    }

    fn causes(&self) -> (causes: Vec<String>) {
        self.causes.clone()
    }
}

} // verus!
