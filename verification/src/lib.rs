//! The logic of a command that lets the user pick files or a directory in a
//! native dialog: it validates what the host hands in, builds the request for
//! the dialog, and turns what the dialog hands back into the command's
//! result.
//!
//! Nothing here talks to the host, looks at the disk or shows a window. One
//! call is a short exchange, led by [`session::step`]: the library says what
//! is to be done next, the host program does it and reports what came of it.
//!
//! - [`value`]: the host's values, reduced to the shapes that matter here.
//! - [`request`]: the parameters of a call, the question put to the host and
//!   its answer, and the validated request.
//! - [`validate`]: from parameters to request, with the errors in their
//!   order.
//! - [`mode`]: the three dialogs, and the kind of result each leads to.
//! - [`dialog`]: the request as a builder of the native dialog.
//! - [`outcome`]: from what the dialog handed back to the result.
//! - [`session`]: the steps of one call.
//! - [`error`]: the errors, in words, and how they are reported.
//! - [`surface`]: the command's name, flags and options.
//! - [`guarantees`]: what holds of every call.

pub mod dialog;
pub mod error;
pub mod guarantees;
pub mod mode;
pub mod outcome;
pub mod request;
pub mod session;
pub mod surface;
pub mod validate;
pub mod value;
