//! The core of a desktop quick-launcher: it resolves a line of typed text
//! into the application to launch, the web search to open or the extension
//! to ask, and it drives extensions over a file-based channel, dialogs
//! included.
//!
//! The library decides and computes; it does no input or output. Whoever
//! calls it reads the settings and the application index, writes and reads
//! the channel's files and starts the processes, and tells the library what
//! came of it.
//!
//! - [`text`]: keyword parsing, trimming and placeholder substitution.
//! - [`model`]: settings, applications and results.
//! - [`matcher`]: fuzzy matching of applications, with the blacklist.
//! - [`router`]: the order in which typed text is resolved.
//! - [`extension`]: invocation contexts and the steps of an invocation.
//! - [`dialog`]: the dialog turn between an extension and the front-end.
//! - [`launcher`]: the commands that start processes on each platform.
//! - [`session`]: the kind of desktop session.
//! - [`error`]: the failures that operations report.

pub mod dialog;
pub mod error;
pub mod extension;
pub mod launcher;
pub mod matcher;
pub mod model;
pub mod router;
pub mod session;
pub mod text;
