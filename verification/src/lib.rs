//! Error reports that carry a trail of breadcrumbs, together with the digest
//! and logging-setup helpers that applications built on them share.
//!
//! A [`Report`] pairs an error with a [`ReportContext`]: the places that the
//! error passed on its way up the call chain, the texts that were attached
//! there, and the traces captured when the error was first reported. The
//! combinators of [`ResultExt`] attach context to the failure of a result
//! and change the type of its error without losing the trail.

pub mod attach;
pub mod combinators;
pub mod context;
pub mod error;
pub mod hashes;
pub mod laws;
pub mod location;
pub mod observability;
pub mod render;
pub mod report;
pub mod text;
mod trace;

pub use crate::attach::Context;
pub use crate::combinators::{bail, ensure, Reportify, ResultExt};
pub use crate::context::{ReportContext, ReportItem};
pub use crate::error::{Described, Error, Marker, Whatever};
pub use crate::location::Location;
pub use crate::report::Report;
