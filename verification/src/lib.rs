//! Launch policy for a single-window webview shell.
//!
//! The crate decides and never acts: it resolves the arguments of an
//! invocation into a [`LaunchConfig`], makes the [`Shell`] that says what
//! window to ask the windowing host for, and answers the host's two
//! questions: may the window navigate to this page, and may this page call
//! the native API. Both answers come from one rule, the [`OriginMatcher`]:
//! a host passes an allow-list when one of the list's entries is a suffix
//! of it, and passes unconditionally when no list was configured.
//!
//! Every function is stated over mathematical models and proved against
//! them. The one thing taken on trust is the URL parser.

pub mod address;
pub mod config;
pub mod origin;
pub mod shell;
pub mod suffix;

pub use crate::address::Address;
pub use crate::config::{Args, LaunchConfig};
pub use crate::origin::{is_allowed, OriginMatcher};
pub use crate::shell::{run, run_app, Extent, Navigation, Shell, Window, WindowSize};
