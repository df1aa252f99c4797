//! State model for an immediate-mode GUI demo application.
//!
//! The library holds the pieces of the application that can be reasoned
//! about as plain data: the set of visibility flags that decide which
//! panels and floating windows are shown, the free-text settings and the
//! slider value the side panel edits, the event-to-state transitions that
//! the menu buttons trigger, and the hyperlink widget's rule that a
//! followed link always asks for a new browser tab.  The rendering loop,
//! the style tables and everything else that belongs to the GUI framework
//! live outside the library.

pub mod hyperlink;
pub mod state;
