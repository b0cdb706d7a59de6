//! The text of a report.

use vstd::prelude::*;
use vstd::string::StringExecFns;

use crate::context::{items_view, ContextView, ItemView, ReportItem};
use crate::location::{location_text, Location, LocationView};
use crate::text::{text_of, texts_of};

verus! {

/// The first line: the error's message, where it has one.
pub open spec fn message_line(message: Option<Seq<char>>) -> Seq<char> {
    match message {
        Some(text) => text + "\n"@,
        None => Seq::empty(),
    }
}

/// The line of one underlying cause.
pub open spec fn cause_line(cause: Seq<char>) -> Seq<char> {
    "  Caused by: "@ + cause + "\n"@
}

/// The lines of the chain of underlying causes, nearest first.
pub open spec fn cause_lines(causes: Seq<Seq<char>>) -> Seq<char>
    decreases causes.len(),
{
    if causes.len() == 0 {
        Seq::empty()
    } else {
        cause_lines(causes.drop_last()) + cause_line(causes.last())
    }
}

/// A breadcrumb line: the location, a colon and the text.
pub open spec fn breadcrumb_line(location: LocationView, text: Seq<char>) -> Seq<char> {
    location_text(location) + ": "@ + text + "\n"@
}

/// What one breadcrumb contributes, given the message of the live error: a
/// line for an attached or settled text, a line with the live error's
/// message at its place, and nothing where there is no text to show.
pub open spec fn item_line(entry: (LocationView, ItemView), message: Option<Seq<char>>) -> Seq<
    char,
> {
    match entry.1 {
        ItemView::Message(text) => breadcrumb_line(entry.0, text),
        ItemView::Error => match message {
            Some(text) => breadcrumb_line(entry.0, text),
            None => Seq::empty(),
        },
        ItemView::Discarded => Seq::empty(),
    }
}

/// The lines of the breadcrumbs, newest first.
pub open spec fn breadcrumb_lines(
    items: Seq<(LocationView, ItemView)>,
    message: Option<Seq<char>>,
) -> Seq<char>
    decreases items.len(),
{
    if items.len() == 0 {
        Seq::empty()
    } else {
        item_line(items.last(), message) + breadcrumb_lines(items.drop_last(), message)
    }
}

/// The breadcrumb block: an empty line and the breadcrumb lines, or nothing
/// at all where there is no breadcrumb.
pub open spec fn breadcrumb_block(
    items: Seq<(LocationView, ItemView)>,
    message: Option<Seq<char>>,
) -> Seq<char> {
    if items.len() == 0 {
        Seq::empty()
    } else {
        "\n"@ + breadcrumb_lines(items, message)
    }
}

/// The block of the stack backtrace, where one was captured.
pub open spec fn backtrace_block(backtrace: Option<Seq<char>>) -> Seq<char> {
    match backtrace {
        Some(text) => "\nBacktrace:\n"@ + text + "\n"@,
        None => Seq::empty(),
    }
}

/// The block of the span trace, where one was captured.
pub open spec fn span_trace_block(span_trace: Option<Seq<char>>) -> Seq<char> {
    match span_trace {
        Some(text) => "\nSpan Trace:\n"@ + text + "\n"@,
        None => Seq::empty(),
    }
}

/// The text of a report with the given parts: the message line, the lines
/// of the causes, the breadcrumb block, and the blocks of the two traces.
pub open spec fn parts_text(
    message: Option<Seq<char>>,
    causes: Seq<Seq<char>>,
    items: Seq<(LocationView, ItemView)>,
    backtrace: Option<Seq<char>>,
    span_trace: Option<Seq<char>>,
) -> Seq<char> {
    message_line(message) + cause_lines(causes) + breadcrumb_block(items, message)
        + backtrace_block(backtrace) + span_trace_block(span_trace)
}

/// The text of a report whose error has the message `message` and the causes
/// `causes`, and whose context is `context`.
pub open spec fn report_text(
    message: Option<Seq<char>>,
    causes: Seq<Seq<char>>,
    context: ContextView,
) -> Seq<char> {
    parts_text(message, causes, context.items, context.backtrace, context.span_trace)
}

/// Appends the lines of the causes to `out`.
fn write_causes(out: &mut String, causes: &Vec<String>)
    ensures
        final(out)@ == old(out)@ + cause_lines(texts_of(causes@)),
{
    let ghost all = texts_of(causes@);
    let mut i: usize = 0;
    while i < causes.len()
        invariant
            i <= causes.len(),
            all == texts_of(causes@),
            out@ == old(out)@ + cause_lines(all.take(i as int)),
        decreases causes.len() - i,
    {
        out.append("  Caused by: ");
        out.append(causes[i].as_str());
        out.append("\n");
        proof {
            let next = all.take(i + 1);
            assert(next.drop_last() =~= all.take(i as int));
        }
        i += 1;
    }
    assert(all.take(i as int) =~= all);
}

/// Appends a breadcrumb line to `out`.
fn write_breadcrumb(out: &mut String, location: &Location, text: &str)
    ensures
        final(out)@ == old(out)@ + breadcrumb_line(location@, text@),
{
    location.write_to(out);
    out.append(": ");
    out.append(text);
    out.append("\n");
}

/// Appends the lines of the breadcrumbs to `out`, newest first.
fn write_breadcrumbs(
    out: &mut String,
    items: &Vec<(Location, ReportItem)>,
    message: &Option<String>,
)
    ensures
        final(out)@ == old(out)@ + breadcrumb_lines(items_view(items@), text_of(*message)),
{
    let ghost all = items_view(items@);
    let ghost shown = text_of(*message);
    let mut i: usize = items.len();
    assert(all.take(i as int) =~= all);
    while i > 0
        invariant
            i <= items.len(),
            all == items_view(items@),
            shown == text_of(*message),
            old(out)@ + breadcrumb_lines(all, shown) == out@ + breadcrumb_lines(
                all.take(i as int),
                shown,
            ),
        decreases i,
    {
        i -= 1;
        proof {
            let rest = all.take(i + 1);
            assert(rest.drop_last() =~= all.take(i as int));
        }
        match &items[i].1 {
            ReportItem::Message(text) => {
                write_breadcrumb(out, &items[i].0, text.as_str());
            },
            ReportItem::Error => {
                match message {
                    Some(text) => {
                        write_breadcrumb(out, &items[i].0, text.as_str());
                    },
                    None => {},
                }
            },
            ReportItem::Discarded => {},
        }
    }
}

/// The text of a report with the given message and causes of its error, its
/// breadcrumbs and its traces.
pub fn render_parts(
    message: &Option<String>,
    causes: &Vec<String>,
    items: &Vec<(Location, ReportItem)>,
    backtrace: &Option<String>,
    span_trace: &Option<String>,
) -> (text: String)
    ensures
        text@ == parts_text(
            text_of(*message),
            texts_of(causes@),
            items_view(items@),
            text_of(*backtrace),
            text_of(*span_trace),
        ),
{
    let mut text = String::new();
    match message {
        Some(message) => {
            text.append(message.as_str());
            text.append("\n");
        },
        None => {},
    }
    write_causes(&mut text, causes);
    if items.len() > 0 {
        text.append("\n");
        write_breadcrumbs(&mut text, items, message);
    }
    let ghost head = text@;
    match backtrace {
        Some(backtrace) => {
            text.append("\nBacktrace:\n");
            text.append(backtrace.as_str());
            text.append("\n");
        },
        None => {},
    }
    assert(text@ =~= head + backtrace_block(text_of(*backtrace)));
    match span_trace {
        Some(span_trace) => {
            text.append("\nSpan Trace:\n");
            text.append(span_trace.as_str());
            text.append("\n");
        },
        None => {},
    }
    text
}

} // verus!
