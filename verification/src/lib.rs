//! Input-device settings as commands for the sway window manager, and the
//! location of the configuration fragments that persist them.
//!
//! Sending a command and writing a file are left to the caller. The crate
//! computes what is to be sent, in which order, and what the outcome of the
//! whole exchange is; and it says where a fragment is kept. All of this is
//! verified. The one thing taken on trust is the lookup of the home
//! directory in [`config`], of whose answer nothing is assumed.

pub mod channel;
pub mod command;
pub mod config;
pub mod keyboard;
pub mod layouts;
pub mod options;
pub mod pointer;
pub mod selection;
pub mod text;
