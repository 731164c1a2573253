//! Rendering of parsed Markdown structure into HTML markup.
//!
//! The crate turns a stream of structural events (start of a heading,
//! literal text, end of a heading, ...) into an HTML fragment.  A fixed
//! registry maps every recognised Markdown construct to its tag name and
//! closing discipline, a tag emitter produces the opening and closing
//! fragments, and the event renderer walks the stream once, keeping a
//! stack of open constructs so that closing tags always mirror the
//! opening tags in reverse order.  Callers may override the markup for
//! any construct through render hooks.

pub mod construct;
pub mod emitter;
pub mod escape;
pub mod hooks;
pub mod registry;
pub mod renderer;
