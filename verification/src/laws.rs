//! What holds of the breadcrumb ledger and of the text of a report, whatever
//! the errors, the texts and the places.

use vstd::prelude::*;

use crate::context::{ContextView, ItemView};
use crate::location::LocationView;
use crate::render::{
    backtrace_block, breadcrumb_block, breadcrumb_lines, cause_lines, item_line, message_line,
    report_text, span_trace_block,
};

verus! {

/// The ledger after the texts of `notes` were attached one after the other,
/// each at its place.
pub open spec fn attach_all(
    context: ContextView,
    notes: Seq<(LocationView, Seq<char>)>,
) -> ContextView
    decreases notes.len(),
{
    if notes.len() == 0 {
        context
    } else {
        attach_all(context, notes.drop_last()).attach(notes.last().0, notes.last().1)
    }
}

/// The ledger after the live error was replaced once for each of `steps`,
/// in their order. A step holds the message that the error had when it was
/// replaced, and the place of the replacement.
pub open spec fn retype_all(
    context: ContextView,
    steps: Seq<(Option<Seq<char>>, LocationView)>,
) -> ContextView
    decreases steps.len(),
{
    if steps.len() == 0 {
        context
    } else {
        retype_all(context, steps.drop_last()).retype(steps.last().0, steps.last().1)
    }
}

/// A ledger that was just captured has exactly one breadcrumb: the place of
/// the live error, at index 0 and at the place of the capture.
pub proof fn lemma_capture(context: ContextView, location: LocationView)
    requires
        context.is_fresh(location),
    ensures
        context.items.len() == 1,
        context.items[0] == (location, ItemView::Error),
        context.error_item == 0,
        context.wf(),
{
}

/// Attaching a text adds one breadcrumb with that text at the end. The
/// breadcrumbs that were there stay as they were, and so do the index of the
/// live error, the traces and the validity of the ledger.
pub proof fn lemma_attach(context: ContextView, location: LocationView, text: Seq<char>)
    ensures
        context.attach(location, text).items.len() == context.items.len() + 1,
        context.attach(location, text).items.last() == (location, ItemView::Message(text)),
        forall|i: int|
            0 <= i < context.items.len() ==> context.attach(location, text).items[i]
                == #[trigger] context.items[i],
        context.attach(location, text).error_item == context.error_item,
        context.attach(location, text).backtrace == context.backtrace,
        context.attach(location, text).span_trace == context.span_trace,
        context.wf() ==> context.attach(location, text).wf(),
{
}

/// Attaching `n` texts adds exactly `n` breadcrumbs, one for each text and in
/// their order. The breadcrumbs that were there stay as they were, and so do
/// the index of the live error, the traces and the validity of the ledger.
pub proof fn lemma_attach_all(context: ContextView, notes: Seq<(LocationView, Seq<char>)>)
    ensures
        attach_all(context, notes).items.len() == context.items.len() + notes.len(),
        forall|i: int|
            0 <= i < context.items.len() ==> attach_all(context, notes).items[i]
                == #[trigger] context.items[i],
        forall|j: int|
            0 <= j < notes.len() ==> attach_all(context, notes).items[context.items.len() + j] == (
                (#[trigger] notes[j]).0,
                ItemView::Message(notes[j].1),
            ),
        attach_all(context, notes).error_item == context.error_item,
        attach_all(context, notes).backtrace == context.backtrace,
        attach_all(context, notes).span_trace == context.span_trace,
        context.wf() ==> attach_all(context, notes).wf(),
    decreases notes.len(),
{
    if notes.len() > 0 {
        lemma_attach_all(context, notes.drop_last());
        assert forall|j: int| 0 <= j < notes.len() implies attach_all(
            context,
            notes,
        ).items[context.items.len() + j] == (
            (#[trigger] notes[j]).0,
            ItemView::Message(notes[j].1),
        ) by {
            if j < notes.len() - 1 {
                assert(notes.drop_last()[j] == notes[j]);
            }
        }
    }
}

/// Replacing the live error once turns its breadcrumb into its message, or
/// into a discarded one where it had none, at the same place; it adds one
/// breadcrumb at the end, at the place of the replacement, which is from then
/// on the one of the live error; and it leaves every other breadcrumb and
/// the traces as they were. The index of the live error grows, and the
/// ledger stays valid.
pub proof fn lemma_retype(context: ContextView, message: Option<Seq<char>>, location: LocationView)
    requires
        context.wf(),
    ensures
        context.retype(message, location).items.len() == context.items.len() + 1,
        context.retype(message, location).items[context.error_item as int] == (
            context.items[context.error_item as int].0,
            match message {
                Some(text) => ItemView::Message(text),
                None => ItemView::Discarded,
            },
        ),
        context.retype(message, location).items.last() == (location, ItemView::Error),
        context.retype(message, location).error_item == context.items.len(),
        context.retype(message, location).error_item > context.error_item,
        forall|i: int|
            0 <= i < context.items.len() && i != context.error_item ==> context.retype(
                message,
                location,
            ).items[i] == #[trigger] context.items[i],
        context.retype(message, location).backtrace == context.backtrace,
        context.retype(message, location).span_trace == context.span_trace,
        context.retype(message, location).wf(),
{
}

/// Replacing the live error `k` times adds exactly `k` breadcrumbs, one for
/// each replacement. The ledger is valid after each of them, so that exactly
/// one breadcrumb is the place of the live error at any time, and after a
/// replacement that one is the last.
pub proof fn lemma_retype_all(context: ContextView, steps: Seq<(Option<Seq<char>>, LocationView)>)
    requires
        context.wf(),
    ensures
        retype_all(context, steps).items.len() == context.items.len() + steps.len(),
        retype_all(context, steps).wf(),
        steps.len() > 0 ==> retype_all(context, steps).error_item == context.items.len()
            + steps.len() - 1,
        forall|k: int|
            0 <= k <= steps.len() ==> (#[trigger] retype_all(context, steps.take(k))).wf(),
    decreases steps.len(),
{
    if steps.len() > 0 {
        lemma_retype_all(context, steps.drop_last());
        assert forall|k: int| 0 <= k <= steps.len() implies (#[trigger] retype_all(
            context,
            steps.take(k),
        )).wf() by {
            if k < steps.len() {
                assert(steps.take(k) =~= steps.drop_last().take(k));
            } else {
                assert(steps.take(k) =~= steps);
            }
        }
    }
}

/// Replacing the live error `k` times after a capture leaves exactly `k + 1`
/// breadcrumbs: the first one and one for each replacement. Exactly one of
/// them is the place of the live error, and it is the last.
pub proof fn lemma_retype_after_capture(
    context: ContextView,
    location: LocationView,
    steps: Seq<(Option<Seq<char>>, LocationView)>,
)
    requires
        context.is_fresh(location),
    ensures
        retype_all(context, steps).items.len() == steps.len() + 1,
        retype_all(context, steps).error_item == steps.len(),
        retype_all(context, steps).wf(),
        forall|i: int|
            0 <= i < steps.len() + 1 ==> ((#[trigger] retype_all(context, steps).items[i]).1
                is Error <==> i == steps.len()),
{
    lemma_retype_all(context, steps);
}

/// In the text of a report the breadcrumbs stand in the reverse of the order
/// in which they were recorded: the lines of the newer ones come first.
pub proof fn lemma_newest_first(
    older: Seq<(LocationView, ItemView)>,
    newer: Seq<(LocationView, ItemView)>,
    message: Option<Seq<char>>,
)
    ensures
        breadcrumb_lines(older + newer, message) == breadcrumb_lines(newer, message)
            + breadcrumb_lines(older, message),
    decreases newer.len(),
{
    if newer.len() > 0 {
        assert((older + newer).drop_last() =~= older + newer.drop_last());
        lemma_newest_first(older, newer.drop_last(), message);
    }
}

/// The line of the breadcrumb that was recorded last is the first of the
/// breadcrumb lines.
pub proof fn lemma_last_recorded_first(
    items: Seq<(LocationView, ItemView)>,
    entry: (LocationView, ItemView),
    message: Option<Seq<char>>,
)
    ensures
        breadcrumb_lines(items.push(entry), message) == item_line(entry, message)
            + breadcrumb_lines(items, message),
{
    assert(items.push(entry).drop_last() =~= items);
}

/// The text of a report without breadcrumbs has no breadcrumb block, not
/// even its empty line: the lines of the causes are followed at once by the
/// traces.
pub proof fn lemma_no_breadcrumbs(
    message: Option<Seq<char>>,
    causes: Seq<Seq<char>>,
    context: ContextView,
)
    requires
        context.items.len() == 0,
    ensures
        breadcrumb_block(context.items, message) == Seq::<char>::empty(),
        report_text(message, causes, context) == message_line(message) + cause_lines(causes)
            + backtrace_block(context.backtrace) + span_trace_block(context.span_trace),
{
}

} // verus!
