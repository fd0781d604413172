//! Tiling exceptions for open application windows.
//!
//! The library holds the decisions of a small panel applet: which windows
//! a snapshot of the compositor's toplevels shows, which exception record
//! a choice of the user stands for, how such a record joins the persisted
//! list, and how the applet's state answers each message. Talking to the
//! compositor, to the configuration files and to the widget toolkit is
//! left to the program around it, which hands plain values in and takes
//! plain values back.

pub mod rules;
pub mod toplevel;
pub mod app;
