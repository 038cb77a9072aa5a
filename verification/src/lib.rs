//! Webview support for embedded fltk windows.
//!
//! The native webview control and the GUI toolkit are driven through a
//! foreign-function interface, which lives outside this library.  What this
//! library holds, with proofs, is the plain-value logic that the binding
//! layer rests on: the byte-string work of sanitising text for the C
//! boundary and of picking apart the session manager's identity ([`text`]),
//! and the window size-hint encoding ([`hint`]).

pub mod hint;
pub mod text;
