//! The logic of a laboratory telemetry pipeline.
//!
//! A simulated experiment passes through its stages, takes temperature
//! samples, decides for each sample whether it announces a threshold crossing,
//! and hands the sample to the broker as one event per sensor. A consumer reads
//! the events back and turns the announcements into notifications.
//!
//! This crate holds what is decided and computed on the way; it neither sends
//! nor receives. Whoever runs an experiment steps it (`experiment`), does what
//! each step asks for, and steps again. Whoever consumes the stream asks for
//! each message what is to be done with it (`consume`).
//!
//! Temperatures count millionths of a degree and times count microseconds
//! since the Unix epoch, both as integers.

pub mod broker;
pub mod consume;
pub mod events;
pub mod experiment;
pub mod fields;
pub mod jwt;
pub mod metric;
pub mod notification;
pub mod outside;
pub mod sensors;
pub mod stage;
pub mod temperature;
