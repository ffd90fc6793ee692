//! Verified core of a bridge that watches chat sources for posted pictures
//! and keeps one durable copy of every post.
//!
//! The bridge is a handful of long-running workers. A source connector
//! turns the updates of one chat platform into events; the persistence
//! consumer takes the events one by one and brings durable storage up to
//! each; a control loop starts, reloads and stops them. This crate holds
//! what these workers decide, with what is proved of it. What they do to
//! the outside world (connect, fetch, write, sleep, signal) is left to the
//! program around it, which asks this crate what to do next and reports
//! what came of it.
//!
//! - [`event`]: the events and what they are made of.
//! - [`telegram`], [`matrix`]: the source connectors.
//! - [`retry`]: waiting and connecting again when the source limits the rate.
//! - [`consumer`]: the jobs that bring storage up to an event.
//! - [`storage`], [`memory`]: what storage does, and a store in memory that
//!   does it.
//! - [`laws`]: what holds of storage whatever the events are.
//! - [`worker`]: stopping, reloading and joining a worker.
//! - [`service`]: the stages of the process's life.
//! - [`config`]: credentials and places.
//! - [`text`]: numbers and strings as text.

pub mod config;
pub mod consumer;
pub mod event;
pub mod laws;
pub mod matrix;
pub mod memory;
pub mod retry;
pub mod service;
pub mod storage;
pub mod telegram;
pub mod text;
pub mod worker;
