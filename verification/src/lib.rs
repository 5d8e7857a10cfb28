//! Health-event reporting: resolving the event window, shaping the answers of
//! the health service into flat records, and rendering those records for the
//! console and as CSV.
//!
//! The crate performs no I/O. The remote calls are driven by the caller, who
//! follows the requests that [`fetch::Fetch`] hands out and feeds the replies
//! back in.

pub mod calendar;
pub mod event;
pub mod fetch;
pub mod report;
pub mod resolver;
pub mod text;
