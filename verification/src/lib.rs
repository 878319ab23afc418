//! Verified core of the WRAC gain plugin: audio port negotiation, parameter
//! routing, editor state, GUI resize bookkeeping, log file naming and the
//! artifact layout of the build tooling.
pub mod context;
pub mod editor;
pub mod errors;
pub mod gui;
pub mod logging;
pub mod parameters;
pub mod paths;
pub mod ports;
pub mod text;
