//! Control logic of a bedside clock/alarm device: conversion between an
//! absolute seconds counter and civil date/time, alarm scheduling over five
//! independent alarm slots, and the menu-driven user-interface state machine.
//!
//! The library is pure: it performs no I/O and holds no collection without
//! a fixed bound. The surrounding firmware owns the real-time counter, the
//! persisted alarm words, the sensor and the display; it feeds events in
//! and executes the commands and frames that come out.

pub mod alarm;
pub mod button;
pub mod datetime;
pub mod frame;
pub mod text;
pub mod ui;
