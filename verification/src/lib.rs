//! Core of an image measurement tool: click points on a raster image to
//! record line and rectangle measurements, calibrate pixels to real-world
//! units, and undo or redo any of it.
//!
//! The core is split into:
//! - [`measure`]: the plain measurement records and the calibration record;
//! - [`action`]: the log entries that record every mutating operation;
//! - [`derived`]: the projection that folds a log prefix into the current
//!   measurement lists and calibration;
//! - [`history`]: the append-only, cursor-addressed action log with undo and
//!   redo;
//! - [`capture`]: the two click-driven state machines that turn clicks into
//!   committed log entries.
//!
//! Coordinates and derived lengths are single-precision values computed by
//! the surrounding user interface; the core stores and moves them as raw
//! IEEE 754 bit patterns and never does arithmetic on them.

pub mod action;
pub mod capture;
pub mod derived;
pub mod history;
pub mod measure;
