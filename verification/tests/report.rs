use std::cell::Cell;

use reportify::hashes::{HashAlgorithm, InvalidAlgorithmError, InvalidDigestError};
use reportify::render::render_parts;
use reportify::{
    bail, ensure, Context, Described, Error, Location, Marker, Report, ReportContext, ReportItem,
    Reportify, ResultExt, Whatever,
};

type TestError = Marker<0>;

fn at(line: u32) -> Location {
    Location::new("src/main.rs", line, 9)
}

fn not_found() -> Described {
    Described::new("file not found".to_string(), Vec::new())
}

fn plain(location: Location) -> ReportContext {
    ReportContext::with_traces(location, None, None)
}

fn traces(context: &ReportContext) -> String {
    let mut text = String::new();
    if let Some(backtrace) = context.backtrace() {
        text += &format!("\nBacktrace:\n{}\n", backtrace);
    }
    if let Some(span_trace) = context.span_trace() {
        text += &format!("\nSpan Trace:\n{}\n", span_trace);
    }
    text
}

fn example_bail() -> Result<(), Report<TestError>> {
    bail(at(11))
}

fn example_propagate_whatever() -> Result<(), Report<TestError>> {
    Err(not_found()).whatever(at(16))
}

#[test]
fn test_bail() {
    assert!(example_bail().is_err());
}

#[test]
fn test_propagate_whatever() {
    assert!(example_propagate_whatever().is_err());
}

#[test]
fn capture_starts_the_trail_with_one_error_breadcrumb() {
    let context = ReportContext::capture(at(3));
    assert_eq!(context.items(), &vec![(at(3), ReportItem::Error)]);
    assert_eq!(context.error_item(), 0);

    let report = Report::capture(not_found(), at(4));
    assert_eq!(report.context().items(), &vec![(at(4), ReportItem::Error)]);
    assert_eq!(report.context().error_item(), 0);
    assert_eq!(report.error().message(), Some("file not found".to_string()));

    let report = not_found().report(at(5));
    assert_eq!(report.context().items(), &vec![(at(5), ReportItem::Error)]);
    assert_eq!(report.context().error_item(), 0);
}

#[test]
fn converting_twice_starts_two_trails() {
    let first = not_found().report(at(1)).attach(at(2), "first".to_string());
    let second = not_found().report(at(3));
    assert_eq!(first.context().items().len(), 2);
    assert_eq!(second.context().items(), &vec![(at(3), ReportItem::Error)]);
}

#[test]
fn report_of_a_result_keeps_a_success() {
    let ok: Result<u8, Described> = Ok(3);
    assert_eq!(ok.report(at(1)).unwrap(), 3);
    let failed: Result<u8, Described> = Err(not_found());
    let report = failed.report(at(2)).unwrap_err();
    assert_eq!(report.context().items(), &vec![(at(2), ReportItem::Error)]);
}

#[test]
fn with_traces_holds_what_it_was_given() {
    let context = ReportContext::with_traces(
        at(1),
        Some("frame".to_string()),
        Some("span".to_string()),
    );
    assert_eq!(context.backtrace(), &Some("frame".to_string()));
    assert_eq!(context.span_trace(), &Some("span".to_string()));
    assert_eq!(context.items(), &vec![(at(1), ReportItem::Error)]);
    assert_eq!(context.error_item(), 0);
}

#[test]
fn new_and_into_parts_hand_the_parts_through() {
    let report = Report::new(not_found(), plain(at(8)).attach(at(9), "note".to_string()));
    assert_eq!(report.error().message(), Some("file not found".to_string()));
    assert_eq!(report.context().items().len(), 2);
    let (error, context) = report.into_parts();
    assert_eq!(error.message(), Some("file not found".to_string()));
    assert_eq!(
        context.items(),
        &vec![(at(8), ReportItem::Error), (at(9), ReportItem::Message("note".to_string()))]
    );
    assert_eq!(context.error_item(), 0);
}

#[test]
fn attaching_adds_breadcrumbs_and_changes_nothing_else() {
    let mut report = Report::new(not_found(), plain(at(1)));
    for n in 0..5u32 {
        report = format!("note {n}").attach_to(report, at(10 + n));
        assert_eq!(report.context().items().len(), 2 + n as usize);
        assert_eq!(report.context().error_item(), 0);
        assert_eq!(report.context().items()[0], (at(1), ReportItem::Error));
    }
    let items = report.context().items();
    for n in 0..5u32 {
        assert_eq!(items[1 + n as usize], (at(10 + n), ReportItem::Message(format!("note {n}"))));
    }
    assert_eq!(report.error().message(), Some("file not found".to_string()));
}

#[test]
fn every_kind_of_context_attaches_its_text() {
    let report = Report::new(not_found(), plain(at(1)));
    let report = "literal".attach_to(report, at(2));
    let report = "owned".to_string().attach_to(report, at(3));
    let report = (|| "thunk").attach_to(report, at(4));
    let report = (|| || "nested".to_string()).attach_to(report, at(5));
    assert_eq!(
        report.context().items(),
        &vec![
            (at(1), ReportItem::Error),
            (at(2), ReportItem::Message("literal".to_string())),
            (at(3), ReportItem::Message("owned".to_string())),
            (at(4), ReportItem::Message("thunk".to_string())),
            (at(5), ReportItem::Message("nested".to_string())),
        ]
    );
}

#[test]
fn a_thunk_is_only_called_on_failure() {
    let called = Cell::new(0);
    let ok: Result<u8, Report<Described>> = Ok(1);
    let ok = ok.context(
        || {
            called.set(called.get() + 1);
            "expensive"
        },
        at(1),
    );
    assert_eq!(ok.unwrap(), 1);
    assert_eq!(called.get(), 0);

    let failed: Result<u8, Report<Described>> = Err(Report::new(not_found(), plain(at(2))));
    let failed = failed.context(
        || {
            called.set(called.get() + 1);
            "expensive"
        },
        at(3),
    );
    assert_eq!(called.get(), 1);
    assert_eq!(
        failed.unwrap_err().context().items()[1],
        (at(3), ReportItem::Message("expensive".to_string()))
    );
}

#[test]
fn retyping_settles_the_message_of_the_old_error() {
    let report = Report::new(not_found(), plain(at(1))).attach(at(2), "note".to_string());
    let report = report.propagate_map(|_| InvalidAlgorithmError, at(3));
    assert_eq!(
        report.context().items(),
        &vec![
            (at(1), ReportItem::Message("file not found".to_string())),
            (at(2), ReportItem::Message("note".to_string())),
            (at(3), ReportItem::Error),
        ]
    );
    assert_eq!(report.context().error_item(), 2);
    assert_eq!(report.error().message(), Some("invalid hash algorithm".to_string()));
}

#[test]
fn retyping_discards_the_place_of_an_error_without_message() {
    let report: Report<TestError> = Report::new(TestError::new(), plain(at(1)));
    let report = report.propagate_map(|_| not_found(), at(2));
    assert_eq!(
        report.context().items(),
        &vec![(at(1), ReportItem::Discarded), (at(2), ReportItem::Error)]
    );
    assert_eq!(report.context().error_item(), 1);
}

#[test]
fn retyping_hands_the_old_error_to_the_map() {
    let report = Report::new(not_found(), plain(at(1)));
    let report = report.propagate_map(
        |old: Described| Described::new("outer".to_string(), vec![old.message().unwrap()]),
        at(2),
    );
    assert_eq!(report.error().message(), Some("outer".to_string()));
    assert_eq!(report.error().causes(), vec!["file not found".to_string()]);
}

#[test]
fn retyping_k_times_leaves_k_plus_one_breadcrumbs() {
    let mut report = Report::new(not_found(), plain(at(0)));
    for k in 1..=6u32 {
        report = report.propagate_map(|_| Described::new(format!("error {k}"), Vec::new()), at(k));
        let items = report.context().items();
        assert_eq!(items.len(), k as usize + 1);
        assert_eq!(report.context().error_item(), k as usize);
        let slots = items.iter().filter(|entry| entry.1 == ReportItem::Error).count();
        assert_eq!(slots, 1);
        assert_eq!(items[k as usize], (at(k), ReportItem::Error));
    }
    let items = report.context().items();
    assert_eq!(items[0], (at(0), ReportItem::Message("file not found".to_string())));
    for k in 1..6u32 {
        assert_eq!(items[k as usize], (at(k), ReportItem::Message(format!("error {k}"))));
    }
}

#[test]
fn a_bailed_report_shows_no_message_and_no_cause() {
    let report = example_bail().unwrap_err();
    assert_eq!(report.context().items(), &vec![(at(11), ReportItem::Error)]);
    assert_eq!(report.error().message(), None);
    assert_eq!(report.error().causes(), Vec::<String>::new());
    let text = report.render();
    assert_eq!(text, format!("\n{}", traces(report.context())));
    assert!(!text.contains("Caused by"));
    assert!(!text.contains("src/main.rs"));

    let report: Report<TestError> = Report::new(TestError::new(), plain(at(11)));
    assert_eq!(report.render(), "\n");
}

#[test]
fn ensure_fails_only_where_the_condition_does() {
    let passed: Result<(), Report<TestError>> = ensure(1 + 1 == 2, at(1));
    assert!(passed.is_ok());
    let failed: Result<(), Report<TestError>> = ensure(1 + 1 == 3, at(2));
    let report = failed.unwrap_err();
    assert_eq!(report.context().items(), &vec![(at(2), ReportItem::Error)]);
    assert_eq!(report.error().message(), None);
}

#[test]
fn whatever_keeps_the_message_as_the_only_line() {
    let report = example_propagate_whatever().unwrap_err();
    assert_eq!(
        report.context().items(),
        &vec![
            (at(16), ReportItem::Message("file not found".to_string())),
            (at(16), ReportItem::Error),
        ]
    );
    assert_eq!(report.context().error_item(), 1);
    assert_eq!(report.error().message(), None);
    assert_eq!(
        report.render(),
        format!("\nsrc/main.rs:16:9: file not found\n{}", traces(report.context()))
    );

    let failed: Result<(), Report<Described>> = Err(Report::new(not_found(), plain(at(20))));
    let report: Report<TestError> = failed.whatever(at(21)).unwrap_err();
    assert_eq!(report.render(), "\nsrc/main.rs:20:9: file not found\n");

    let report: Report<TestError> =
        TestError::propagate(Report::new(not_found(), plain(at(30))), at(31));
    assert_eq!(report.render(), "\nsrc/main.rs:30:9: file not found\n");
}

#[test]
fn breadcrumbs_are_rendered_newest_first() {
    let report = Report::new(not_found(), plain(Location::new("src/a.rs", 1, 2)));
    let failed: Result<(), Report<Described>> = Err(report);
    let report = failed
        .context("step 1", Location::new("src/b.rs", 30, 4))
        .context("step 2".to_string(), Location::new("src/c.rs", 500, 60))
        .unwrap_err();
    assert_eq!(
        report.render(),
        "file not found\n\nsrc/c.rs:500:60: step 2\nsrc/b.rs:30:4: step 1\nsrc/a.rs:1:2: file not found\n"
    );
}

#[test]
fn render_shows_causes_and_traces() {
    let error = Described::new(
        "cannot start".to_string(),
        vec!["cannot read config".to_string(), "file not found".to_string()],
    );
    let context = ReportContext::with_traces(
        at(7),
        Some("0: main".to_string()),
        Some("0: app::run".to_string()),
    );
    let report = Report::new(error, context).attach(at(8), "while starting".to_string());
    assert_eq!(
        report.render(),
        "cannot start\n  Caused by: cannot read config\n  Caused by: file not found\n\n\
         src/main.rs:8:9: while starting\nsrc/main.rs:7:9: cannot start\n\n\
         Backtrace:\n0: main\n\nSpan Trace:\n0: app::run\n"
    );
}

#[test]
fn render_without_breadcrumbs_has_no_breadcrumb_block() {
    let none: Option<String> = None;
    let message = Some("boom".to_string());
    assert_eq!(render_parts(&message, &Vec::new(), &Vec::new(), &none, &none), "boom\n");
    assert_eq!(render_parts(&none, &Vec::new(), &Vec::new(), &none, &none), "");
    assert_eq!(
        render_parts(&message, &vec!["why".to_string()], &Vec::new(), &Some("bt".to_string()), &none),
        "boom\n  Caused by: why\n\nBacktrace:\nbt\n"
    );
    let items = vec![(at(1), ReportItem::Discarded)];
    assert_eq!(render_parts(&message, &Vec::new(), &items, &none, &none), "boom\n\n");
}

#[test]
fn discarded_and_silent_breadcrumbs_render_nothing() {
    let report: Report<TestError> = Report::new(TestError::new(), plain(at(1)))
        .propagate_map(|_| TestError::new(), at(2))
        .attach(at(3), "kept".to_string());
    assert_eq!(
        report.context().items(),
        &vec![
            (at(1), ReportItem::Discarded),
            (at(2), ReportItem::Error),
            (at(3), ReportItem::Message("kept".to_string())),
        ]
    );
    assert_eq!(report.render(), "\nsrc/main.rs:3:9: kept\n");
}

#[test]
fn locations_render_as_file_line_and_column() {
    assert_eq!(Location::new("lib.rs", 0, 0).render(), "lib.rs:0:0");
    assert_eq!(Location::new("src/x.rs", 7, 10).render(), "src/x.rs:7:10");
    assert_eq!(Location::new("a", 4294967295, 1000000).render(), "a:4294967295:1000000");
    let location = Location::new("src/deep/mod.rs", 120, 33);
    assert_eq!(location.file(), "src/deep/mod.rs");
    assert_eq!(location.line(), 120);
    assert_eq!(location.column(), 33);
    let mut out = "at ".to_string();
    location.write_to(&mut out);
    assert_eq!(out, "at src/deep/mod.rs:120:33");
}

#[test]
fn context_on_a_raw_error_reports_it_first() {
    let failed: Result<(), Described> = Err(not_found());
    let report = failed.context("while opening", at(5)).unwrap_err();
    assert_eq!(
        report.context().items(),
        &vec![(at(5), ReportItem::Error), (at(5), ReportItem::Message("while opening".to_string()))]
    );
    assert_eq!(report.context().error_item(), 0);
    let ok: Result<u8, Described> = Ok(9);
    assert_eq!(ok.context("while opening", at(5)).unwrap(), 9);
}

#[test]
fn propagate_converts_the_error() {
    let failed: Result<(), Report<InvalidAlgorithmError>> =
        Err(Report::new(InvalidAlgorithmError, plain(at(1))));
    let report: Report<InvalidDigestError> = failed.propagate(at(2)).unwrap_err();
    assert_eq!(report.error().message(), Some("invalid hash algorithm".to_string()));
    assert_eq!(
        report.context().items(),
        &vec![
            (at(1), ReportItem::Message("invalid hash algorithm".to_string())),
            (at(2), ReportItem::Error),
        ]
    );
    assert_eq!(report.context().error_item(), 1);

    let raw: Result<HashAlgorithm, InvalidAlgorithmError> = HashAlgorithm::from_str("md5");
    let propagated: Result<HashAlgorithm, Report<InvalidDigestError>> = raw.propagate(at(3));
    let report = propagated.unwrap_err();
    assert_eq!(
        report.context().items(),
        &vec![
            (at(3), ReportItem::Message("invalid hash algorithm".to_string())),
            (at(3), ReportItem::Error),
        ]
    );

    let ok: Result<u8, InvalidAlgorithmError> = Ok(5);
    let propagated: Result<u8, Report<InvalidDigestError>> = ok.propagate(at(4));
    assert_eq!(propagated.unwrap(), 5);
}

#[test]
fn propagate_with_converts_and_then_attaches() {
    let failed: Result<(), Report<InvalidAlgorithmError>> =
        Err(Report::new(InvalidAlgorithmError, plain(at(1))));
    let propagated: Result<(), Report<InvalidDigestError>> =
        failed.propagate_with("while reading the digest", at(2));
    let report = propagated.unwrap_err();
    assert_eq!(
        report.context().items(),
        &vec![
            (at(1), ReportItem::Message("invalid hash algorithm".to_string())),
            (at(2), ReportItem::Error),
            (at(2), ReportItem::Message("while reading the digest".to_string())),
        ]
    );
    assert_eq!(report.context().error_item(), 1);

    let raw: Result<(), InvalidAlgorithmError> = Err(InvalidAlgorithmError);
    let propagated: Result<(), Report<InvalidDigestError>> = raw.propagate_with("raw", at(3));
    assert_eq!(propagated.unwrap_err().context().items().len(), 3);
}

#[test]
fn propagate_map_on_results_passes_a_success_through() {
    let ok: Result<u8, Report<Described>> = Ok(4);
    let mapped: Result<u8, Report<TestError>> = ok.propagate_map(|_| TestError::new(), at(1));
    assert_eq!(mapped.unwrap(), 4);
    let ok: Result<u8, Described> = Ok(6);
    let mapped: Result<u8, Report<TestError>> = ok.propagate_map(|_| TestError::new(), at(1));
    assert_eq!(mapped.unwrap(), 6);
    let ok: Result<u8, Described> = Ok(8);
    let mapped: Result<u8, Report<TestError>> = ok.whatever(at(1));
    assert_eq!(mapped.unwrap(), 8);

    let failed: Result<u8, Described> = Err(not_found());
    let mapped: Result<u8, Report<TestError>> = failed.propagate_map(|_| TestError::new(), at(2));
    assert_eq!(
        mapped.unwrap_err().context().items(),
        &vec![(at(2), ReportItem::Message("file not found".to_string())), (at(2), ReportItem::Error)]
    );
}

#[test]
fn assert_ok_hands_the_value_through() {
    let ok: Result<u32, Report<Described>> = Ok(42);
    assert_eq!(ok.assert_ok(), 42);
    let ok: Result<&str, Described> = Ok("value");
    assert_eq!(ok.assert_ok(), "value");
}

#[test]
fn the_message_of_a_failed_assertion_holds_the_whole_report() {
    let report = Report::new(not_found(), plain(at(1))).attach(at(2), "step 1".to_string());
    assert_eq!(
        report.assertion_message(),
        "BUG: found error but expected value\n\nfile not found\n\n\
         src/main.rs:2:9: step 1\nsrc/main.rs:1:9: file not found\n"
    );
    assert_eq!(report.assertion_message(), format!("BUG: found error but expected value\n\n{}", report.render()));
}

#[test]
fn ignore_gives_the_text_to_log_for_a_failure_only() {
    let ok: Result<u8, Report<Described>> = Ok(1);
    assert_eq!(ok.ignore(at(1)), None);
    let ok: Result<u8, Described> = Ok(1);
    assert_eq!(ok.ignore(at(1)), None);

    let failed: Result<u8, Report<Described>> = Err(Report::new(not_found(), plain(at(2))));
    assert_eq!(
        failed.ignore(at(3)),
        Some("ignoring error\n\nfile not found\n\nsrc/main.rs:2:9: file not found\n".to_string())
    );
    let report = Report::new(not_found(), plain(at(2)));
    assert_eq!(report.ignored_message(), format!("ignoring error\n\n{}", report.render()));

    let failed: Result<u8, Described> = Err(not_found());
    let logged = failed.ignore(at(4)).unwrap();
    assert!(logged.starts_with("ignoring error\n\nfile not found\n\nsrc/main.rs:4:9: file not found\n"));
}

#[test]
fn the_errors_of_the_library_describe_themselves() {
    assert_eq!(TestError::new().message(), None);
    assert_eq!(TestError::new().causes(), Vec::<String>::new());
    let error = Described::new("outer".to_string(), vec!["inner".to_string()]);
    assert_eq!(error.message(), Some("outer".to_string()));
    assert_eq!(error.causes(), vec!["inner".to_string()]);
    assert_eq!(InvalidAlgorithmError.message(), Some("invalid hash algorithm".to_string()));
    assert_eq!(InvalidAlgorithmError.causes(), Vec::<String>::new());
}
