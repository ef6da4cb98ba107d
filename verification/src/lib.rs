//! Startup model of a desktop GUI application shell.
//!
//! The application is a thin composition of host-framework plugins: it
//! registers a dialog, a process and an opener plugin on the framework
//! builder, installs an updater plugin from the setup hook on desktop
//! targets, and then blocks in the framework's run loop. The run loop and
//! the plugins belong to the framework; the one decision this code owns is
//! which plugins are registered, in which phase and in which order. This
//! crate states that decision as plain data with proved contracts, so the
//! shell around it can read its registration work off a checked plan.

pub mod startup;
