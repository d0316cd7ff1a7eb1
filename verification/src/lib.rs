//! A thin client around a command-line desktop notifier.
//!
//! The library builds the argument list for one invocation of the external
//! notifier program, decodes the identifier the program prints on standard
//! output, and tracks that identifier in a [`handle::NotificationHandle`] so a
//! later call can replace the visible notification instead of duplicating it.
//! Running the external program itself is left to the caller, who hands the
//! captured output back to the library.

pub mod decimal;
pub mod dispatch;
pub mod handle;
pub mod notification;
