//! Core of a minimal desktop text editor.
//!
//! The library holds the pure Model-View-Update state machine of the editor:
//! the editor model (path, text buffer, last error, theme, dirty flag), the
//! message reducer that maps a message to the next model and an optional
//! asynchronous command, the highlighter configuration derived from the
//! current file extension, and the pure projection of the model into the
//! texts and flags a widget shell renders. The shell itself (window, widget
//! toolkit, native dialogs, asynchronous file reads and writes) lives outside
//! the library and talks to it in plain values.

pub mod buffer;
pub mod error;
pub mod highlight;
pub mod laws;
pub mod model;
pub mod strutil;
pub mod theme;
pub mod view;
