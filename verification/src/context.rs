//! The breadcrumb ledger of a report.

use vstd::prelude::*;

use crate::location::{Location, LocationView};
use crate::text::text_of;
use crate::trace::{capture_backtrace, capture_span_trace};

verus! {

/// One recorded breadcrumb.
#[derive(Debug, PartialEq, Eq)]
pub enum ReportItem {
    /// A text that a call site attached, or the message of an error that has
    /// since been replaced.
    Message(String),
    /// The place of the message of the error that the report holds now.
    Error,
    /// The place of an error that has been replaced and had no message.
    Discarded,
}

/// What a [`ReportItem`] stands for in contracts.
pub ghost enum ItemView {
    /// A text that was attached, or the message of an error that has since
    /// been replaced.
    Message(Seq<char>),
    /// The place of the message of the live error.
    Error,
    /// The place of an error that has been replaced and had no message.
    Discarded,
}

impl View for ReportItem {
    type V = ItemView;

    open spec fn view(&self) -> ItemView {
        match self {
            ReportItem::Message(text) => ItemView::Message(text@),
            ReportItem::Error => ItemView::Error,
            ReportItem::Discarded => ItemView::Discarded,
        }
    }
}

/// The breadcrumbs of a vector of recorded entries.
pub open spec fn items_view(items: Seq<(Location, ReportItem)>) -> Seq<(LocationView, ItemView)> {
    items.map_values(|entry: (Location, ReportItem)| (entry.0@, entry.1@))
}

/// What a [`ReportContext`] stands for in contracts.
pub ghost struct ContextView {
    /// The breadcrumbs, oldest first.
    pub items: Seq<(LocationView, ItemView)>,
    /// The index of the breadcrumb of the live error.
    pub error_item: nat,
    /// The text of the stack backtrace, if one was captured.
    pub backtrace: Option<Seq<char>>,
    /// The text of the span trace, if one was captured.
    pub span_trace: Option<Seq<char>>,
}

impl ContextView {
    /// The ledger is valid: the indexed breadcrumb exists, it is the place of
    /// the live error, and no other breadcrumb is.
    pub open spec fn wf(self) -> bool {
        &&& self.error_item < self.items.len()
        &&& forall|i: int|
            0 <= i < self.items.len() ==> ((#[trigger] self.items[i]).1 is Error <==> i
                == self.error_item)
    }

    /// The ledger right after a capture at `location`.
    pub open spec fn fresh(
        location: LocationView,
        backtrace: Option<Seq<char>>,
        span_trace: Option<Seq<char>>,
    ) -> ContextView {
        ContextView {
            items: seq![(location, ItemView::Error)],
            error_item: 0,
            backtrace,
            span_trace,
        }
    }

    /// The ledger right after the capture at `location` that found the traces
    /// of this ledger.
    pub open spec fn started(self, location: LocationView) -> ContextView {
        Self::fresh(location, self.backtrace, self.span_trace)
    }

    /// Whether the ledger is one that a capture at `location` may give,
    /// whatever traces it found.
    pub open spec fn is_fresh(self, location: LocationView) -> bool {
        self == self.started(location)
    }

    /// The ledger after `text` was attached at `location`.
    pub open spec fn attach(self, location: LocationView, text: Seq<char>) -> ContextView {
        ContextView { items: self.items.push((location, ItemView::Message(text))), ..self }
    }

    /// What the place of the live error turns into when the error is
    /// replaced, given the message that the error had.
    pub open spec fn settled(message: Option<Seq<char>>) -> ItemView {
        match message {
            Some(text) => ItemView::Message(text),
            None => ItemView::Discarded,
        }
    }

    /// The ledger after the live error, whose message was `message`, was
    /// replaced at `location`.
    pub open spec fn retype(
        self,
        message: Option<Seq<char>>,
        location: LocationView,
    ) -> ContextView {
        let slot = self.error_item as int;
        ContextView {
            items: self.items.update(slot, (self.items[slot].0, Self::settled(message))).push(
                (location, ItemView::Error),
            ),
            error_item: self.items.len(),
            ..self
        }
    }
}

/// The diagnostic context of a report: its breadcrumbs, the traces captured
/// with it, and which breadcrumb is the place of the live error.
#[derive(Debug)]
pub struct ReportContext {
    backtrace: Option<String>,
    span_trace: Option<String>,
    items: Vec<(Location, ReportItem)>,
    error_item: usize,
}

impl View for ReportContext {
    type V = ContextView;

    closed spec fn view(&self) -> ContextView {
        ContextView {
            items: items_view(self.items@),
            error_item: self.error_item as nat,
            backtrace: text_of(self.backtrace),
            span_trace: text_of(self.span_trace),
        }
    }
}

impl ReportContext {
    /// Every context is valid.
    #[verifier::type_invariant]
    pub open spec fn valid(&self) -> bool {
        self@.wf()
    }

    /// A context that starts at `location` with the given traces.
    pub fn with_traces(
        location: Location,
        backtrace: Option<String>,
        span_trace: Option<String>,
    ) -> (context: ReportContext)
        ensures
            context@ == ContextView::fresh(location@, text_of(backtrace), text_of(span_trace)),
            context@.wf(),
    {
        let mut items: Vec<(Location, ReportItem)> = Vec::new();
        items.push((location, ReportItem::Error));
        let context = ReportContext { backtrace, span_trace, items, error_item: 0 };
        assert(context@.items =~= seq![(location@, ItemView::Error)]);
        context
    }

    /// Captures a context at `location`: the current stack backtrace and span
    /// trace, where there are any, and one breadcrumb for the live error.
    pub fn capture(location: Location) -> (context: ReportContext)
        ensures
            context@.is_fresh(location@),
            context@.wf(),
    {
        let backtrace = capture_backtrace();
        let span_trace = capture_span_trace();
        Self::with_traces(location, backtrace, span_trace)
    }

    /// The breadcrumbs, oldest first.
    pub fn items(&self) -> (items: &Vec<(Location, ReportItem)>)
        ensures
            items_view(items@) == self@.items,
            self@.wf(),
    {
        proof {
            use_type_invariant(self);
        }
        &self.items
    }

    /// The index of the breadcrumb of the live error.
    pub fn error_item(&self) -> (index: usize)
        ensures
            index == self@.error_item,
            self@.wf(),
    {
        proof {
            use_type_invariant(self);
        }
        self.error_item
    }

    /// The text of the stack backtrace, if one was captured.
    pub fn backtrace(&self) -> (text: &Option<String>)
        ensures
            text_of(*text) == self@.backtrace,
    {
        &self.backtrace
    }

    /// The text of the span trace, if one was captured.
    pub fn span_trace(&self) -> (text: &Option<String>)
        ensures
            text_of(*text) == self@.span_trace,
    {
        &self.span_trace
    }

    /// Records `text` at `location`.
    pub fn attach(self, location: Location, text: String) -> (context: ReportContext)
        ensures
            context@ == self@.attach(location@, text@),
            context@.wf(),
    {
        proof {
            use_type_invariant(&self);
        }
        let ReportContext { backtrace, span_trace, mut items, error_item } = self;
        items.push((location, ReportItem::Message(text)));
        proof {
            let after = self@.attach(location@, text@);
            assert(items_view(items@) =~= after.items);
        }
        ReportContext { backtrace, span_trace, items, error_item }
    }

    /// Settles the breadcrumb of the live error, whose message was `message`,
    /// and opens a new one at `location` for the error that replaces it.
    pub fn retype(self, message: Option<String>, location: Location) -> (context: ReportContext)
        ensures
            context@ == self@.retype(text_of(message), location@),
            context@.wf(),
    {
        proof {
            use_type_invariant(&self);
        }
        let ReportContext { backtrace, span_trace, mut items, error_item } = self;
        let settled = match message {
            Some(text) => ReportItem::Message(text),
            None => ReportItem::Discarded,
        };
        let place = items[error_item].0;
        items.set(error_item, (place, settled));
        let next = items.len();
        items.push((location, ReportItem::Error));
        proof {
            let after = self@.retype(text_of(message), location@);
            assert(items_view(items@) =~= after.items);
        }
        ReportContext { backtrace, span_trace, items, error_item: next }
    }
}

} // verus!
