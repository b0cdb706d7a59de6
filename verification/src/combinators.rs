//! Combinators on results whose failure is an error or a report of one.

use vstd::prelude::*;

use crate::attach::Context;
use crate::context::ContextView;
use crate::error::{Error, Whatever};
use crate::location::Location;
use crate::render::report_text;
use crate::report::{ignored_text, Report};

verus! {

/// Something that can be turned into a report, or into a result that fails
/// with one.
pub trait Reportify<O> {
    /// Reports this value, with a context captured at `location`.
    fn report(self, location: Location) -> O;
}

impl<E: Error> Reportify<Report<E>> for E {
    fn report(self, location: Location) -> (report: Report<E>)
        ensures
            report.error_spec() == self,
            report.context_spec().is_fresh(location@),
            report.context_spec().wf(),
    {
        Report::capture(self, location)
    }
}

impl<T, E: Error> Reportify<Result<T, Report<E>>> for Result<T, E> {
    fn report(self, location: Location) -> (reported: Result<T, Report<E>>)
        ensures
            match self {
                Ok(value) => reported == Ok::<T, Report<E>>(value),
                Err(error) => reported matches Err(report) && report.error_spec() == error
                    && report.context_spec().is_fresh(location@) && report.context_spec().wf(),
            },
    {
        match self {
            Ok(value) => Ok(value),
            Err(error) => Err(error.report(location)),
        }
    }
}

/// Fails at once with an error made out of thin air and a context captured
/// at `location`.
pub fn bail<T, F: Whatever>(location: Location) -> (failed: Result<T, Report<F>>)
    ensures
        failed matches Err(report) && report.error_spec().message_spec() is None
            && report.error_spec().causes_spec().len() == 0 && report.context_spec().is_fresh(
            location@,
        ) && report.context_spec().wf(),
{
    Err(Report::capture(F::new(), location))
}

/// Fails as [`bail`] does unless `condition` holds.
pub fn ensure<F: Whatever>(condition: bool, location: Location) -> (checked: Result<(), Report<F>>)
    ensures
        condition ==> checked is Ok,
        !condition ==> (checked matches Err(report) && report.error_spec().message_spec() is None
            && report.error_spec().causes_spec().len() == 0 && report.context_spec().is_fresh(
            location@,
        ) && report.context_spec().wf()),
{
    if condition {
        Ok(())
    } else {
        bail(location)
    }
}

/// Combinators that wrap, re-type, annotate, assert or drop the failure of a
/// result. A success passes through each of them unchanged, and a failure
/// stays a failure.
pub trait ResultExt: Sized {
    /// The value of a success.
    type Value;

    /// The error of a failure.
    type Error;

    /// The result as its value or its error, without the report around the
    /// error.
    spec fn outcome(&self) -> Result<Self::Value, Self::Error>;

    /// Attaches `context` to the failure.
    fn context<C: Context<Self::Error>>(self, context: C, location: Location) -> (annotated:
        Result<Self::Value, Report<Self::Error>>)
        requires
            self.outcome() is Err ==> context.ready(),
        ensures
            match self.outcome() {
                Ok(value) => annotated == Ok::<Self::Value, Report<Self::Error>>(value),
                Err(error) => annotated matches Err(report) && report.error_spec() == error
                    && report.context_spec().wf(),
            },
    ;

    /// Re-types the failure by the conversion from its error to `F`.
    fn propagate<F>(self, location: Location) -> (propagated: Result<
        Self::Value,
        Report<F>,
    >) where Self::Error: Into<F>
        ensures
            match self.outcome() {
                Ok(value) => propagated == Ok::<Self::Value, Report<F>>(value),
                Err(error) => propagated matches Err(report) && call_ensures(
                    <Self::Error as Into<F>>::into,
                    (error,),
                    report.error_spec(),
                ) && report.context_spec().wf(),
            },
    ;

    /// Re-types the failure by `map`.
    fn propagate_map<F, M>(self, map: M, location: Location) -> (propagated: Result<
        Self::Value,
        Report<F>,
    >) where M: FnOnce(Self::Error) -> F
        requires
            self.outcome() matches Err(error) ==> call_requires(map, (error,)),
        ensures
            match self.outcome() {
                Ok(value) => propagated == Ok::<Self::Value, Report<F>>(value),
                Err(error) => propagated matches Err(report) && call_ensures(
                    map,
                    (error,),
                    report.error_spec(),
                ) && report.context_spec().wf(),
            },
    ;

    /// Re-types the failure as [`propagate`](Self::propagate) does, then
    /// attaches `context`.
    fn propagate_with<C, F>(self, context: C, location: Location) -> (propagated: Result<
        Self::Value,
        Report<F>,
    >) where C: Context<F>, F: Error, Self::Error: Into<F>
        requires
            self.outcome() is Err ==> context.ready(),
        ensures
            match self.outcome() {
                Ok(value) => propagated == Ok::<Self::Value, Report<F>>(value),
                Err(error) => propagated matches Err(report) && call_ensures(
                    <Self::Error as Into<F>>::into,
                    (error,),
                    report.error_spec(),
                ) && report.context_spec().wf(),
            },
    ;

    /// Re-types the failure to an error made out of thin air.
    fn whatever<F: Whatever>(self, location: Location) -> (propagated: Result<
        Self::Value,
        Report<F>,
    >)
        ensures
            match self.outcome() {
                Ok(value) => propagated == Ok::<Self::Value, Report<F>>(value),
                Err(_) => propagated matches Err(report) && report.error_spec().message_spec()
                    is None && report.error_spec().causes_spec().len() == 0
                    && report.context_spec().wf(),
            },
    ;

    /// The value of a result that cannot be a failure.
    fn assert_ok(self) -> (value: Self::Value)
        requires
            self.outcome() is Ok,
        ensures
            self.outcome() == Ok::<Self::Value, Self::Error>(value),
    ;

    /// Drops the result. Where it is a failure, gives the text with which
    /// the failure is to be logged.
    fn ignore(self, location: Location) -> (logged: Option<String>)
        ensures
            logged is Some <==> self.outcome() is Err,
    ;
}

impl<T, E: Error> ResultExt for Result<T, Report<E>> {
    type Value = T;

    type Error = E;

    open spec fn outcome(&self) -> Result<T, E> {
        match self {
            Ok(value) => Ok(*value),
            Err(report) => Err(report.error_spec()),
        }
    }

    /// The failure's report gets one more breadcrumb, with the text of
    /// `context`.
    fn context<C: Context<E>>(self, context: C, location: Location) -> (annotated: Result<
        T,
        Report<E>,
    >)
        ensures
            self matches Err(before) ==> (annotated matches Err(report) && exists|text: Seq<char>|
                context.yields(text) && report.context_spec()
                    == #[trigger] before.context_spec().attach(location@, text)),
    {
        match self {
            Ok(value) => Ok(value),
            Err(report) => Err(context.attach_to(report, location)),
        }
    }

    /// The failure's report is re-typed at `location`.
    fn propagate<F>(self, location: Location) -> (propagated: Result<T, Report<F>>) where
        E: Into<F>,

        ensures
            self matches Err(before) ==> (propagated matches Err(report) && report.context_spec()
                == before.context_spec().retype(before.error_spec().message_spec(), location@)),
    {
        let convert = |error: E| -> (converted: F)
            ensures
                call_ensures(<E as Into<F>>::into, (error,), converted),
            {
                error.into()
            };
        self.propagate_map(convert, location)
    }

    /// The failure's report is re-typed at `location`.
    fn propagate_map<F, M>(self, map: M, location: Location) -> (propagated: Result<
        T,
        Report<F>,
    >) where M: FnOnce(E) -> F
        ensures
            self matches Err(before) ==> (propagated matches Err(report) && report.context_spec()
                == before.context_spec().retype(before.error_spec().message_spec(), location@)),
    {
        match self {
            Ok(value) => Ok(value),
            Err(report) => Err(report.propagate_map(map, location)),
        }
    }

    /// The failure's report is re-typed at `location` and then gets one more
    /// breadcrumb, with the text of `context`.
    fn propagate_with<C, F>(self, context: C, location: Location) -> (propagated: Result<
        T,
        Report<F>,
    >) where C: Context<F>, F: Error, E: Into<F>
        ensures
            self matches Err(before) ==> (propagated matches Err(report) && exists|text: Seq<char>|
                context.yields(text) && report.context_spec()
                    == #[trigger] before.context_spec().retype(
                    before.error_spec().message_spec(),
                    location@,
                ).attach(location@, text)),
    {
        self.propagate(location).context(context, location)
    }

    /// The failure's report is re-typed at `location`.
    fn whatever<F: Whatever>(self, location: Location) -> (propagated: Result<T, Report<F>>)
        ensures
            self matches Err(before) ==> (propagated matches Err(report) && report.context_spec()
                == before.context_spec().retype(before.error_spec().message_spec(), location@)),
    {
        match self {
            Ok(value) => Ok(value),
            Err(report) => Err(F::propagate(report, location)),
        }
    }

    fn assert_ok(self) -> (value: T) {
        match self {
            Ok(value) => value,
            Err(_) => unreached(),
        }
    }

    /// The text to log is that of the failure's report. The location is not
    /// looked at.
    fn ignore(self, location: Location) -> (logged: Option<String>)
        ensures
            self matches Err(before) ==> (logged matches Some(text) && text@ == ignored_text(
                before.text(),
            )),
    {
        match self {
            Ok(_) => None,
            Err(report) => Some(report.ignored_message()),
        }
    }
}

/// On a result that fails with an error that was not reported yet, each
/// combinator first reports the error, with a context captured at the
/// location, and then works on the report.
impl<T, E: Error> ResultExt for Result<T, E> {
    type Value = T;

    type Error = E;

    open spec fn outcome(&self) -> Result<T, E> {
        *self
    }

    /// The report has the breadcrumb of its capture and one with the text of
    /// `context`, both at `location`.
    fn context<C: Context<E>>(self, context: C, location: Location) -> (annotated: Result<
        T,
        Report<E>,
    >)
        ensures
            self is Err ==> (annotated matches Err(report) && exists|text: Seq<char>|
                context.yields(text) && report.context_spec()
                    == #[trigger] report.context_spec().started(location@).attach(location@, text)),
    {
        self.report(location).context(context, location)
    }

    /// The report is captured and re-typed at `location`.
    fn propagate<F>(self, location: Location) -> (propagated: Result<T, Report<F>>) where
        E: Into<F>,

        ensures
            self matches Err(error) ==> (propagated matches Err(report) && report.context_spec()
                == report.context_spec().started(location@).retype(
                error.message_spec(),
                location@,
            )),
    {
        self.report(location).propagate(location)
    }

    /// The report is captured and re-typed at `location`.
    fn propagate_map<F, M>(self, map: M, location: Location) -> (propagated: Result<
        T,
        Report<F>,
    >) where M: FnOnce(E) -> F
        ensures
            self matches Err(error) ==> (propagated matches Err(report) && report.context_spec()
                == report.context_spec().started(location@).retype(
                error.message_spec(),
                location@,
            )),
    {
        self.report(location).propagate_map(map, location)
    }

    /// The report is captured and re-typed at `location` and then gets one
    /// more breadcrumb, with the text of `context`.
    fn propagate_with<C, F>(self, context: C, location: Location) -> (propagated: Result<
        T,
        Report<F>,
    >) where C: Context<F>, F: Error, E: Into<F>
        ensures
            self matches Err(error) ==> (propagated matches Err(report) && exists|text: Seq<char>|
                context.yields(text) && report.context_spec()
                    == #[trigger] report.context_spec().started(location@).retype(
                    error.message_spec(),
                    location@,
                ).attach(location@, text)),
    {
        self.report(location).propagate_with(context, location)
    }

    /// The report is captured and re-typed at `location`.
    fn whatever<F: Whatever>(self, location: Location) -> (propagated: Result<T, Report<F>>)
        ensures
            self matches Err(error) ==> (propagated matches Err(report) && report.context_spec()
                == report.context_spec().started(location@).retype(
                error.message_spec(),
                location@,
            )),
    {
        self.report(location).whatever(location)
    }

    fn assert_ok(self) -> (value: T) {
        match self {
            Ok(value) => value,
            Err(_) => unreached(),
        }
    }

    /// The text to log is that of the report captured at `location`,
    /// whatever traces the capture found.
    fn ignore(self, location: Location) -> (logged: Option<String>)
        ensures
            self matches Err(error) ==> (logged matches Some(text) && exists|context: ContextView|
                context.is_fresh(location@) && text@ == #[trigger] ignored_text(
                    report_text(error.message_spec(), error.causes_spec(), context),
                )),
    {
        self.report(location).ignore(location)
    }
}

} // verus!
