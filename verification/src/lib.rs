//! A client-side engine for the Redfish server-management API.
//!
//! The engine turns a command into HTTP requests against a management
//! controller, one at a time, and the replies into a report or into the
//! outcome of an action. It sends nothing itself: a caller sends each
//! request that [`run`] and [`engine::Session::advance`] hand out and comes
//! back with the reply.
//!
//! - [`json`]: JSON documents, and the typed reading of their members.
//! - [`model`], [`redfish`]: the resources, as mathematics and in memory;
//!   [`absence`] and [`origin`] say what holds of every resource read.
//! - [`transport`]: requests, replies, and which status is a success.
//! - [`resolver`]: collections resolved into the addresses of their members.
//! - [`action`]: the commands; which system an action is meant for, and
//!   whether the system takes it.
//! - [`report`]: the reports and their lines.
//! - [`plan`], [`engine`]: the moves of the engine, as mathematics and in
//!   memory.
//! - [`walk`]: what a command comes to against a controller, from its first
//!   request to its end; [`faithful`] proves that the engine follows it.
//! - [`laws`]: what holds whatever the controller answers.

pub mod absence;
pub mod action;
pub mod config;
pub mod engine;
pub mod error;
pub mod faithful;
pub mod json;
pub mod laws;
pub mod model;
pub mod origin;
pub mod plan;
pub mod redfish;
pub mod report;
pub mod resolver;
pub mod text;
pub mod transport;
pub mod walk;

pub use config::{Config, ConfigFile, ConfigFileEntry, RedfishUtilCmd};
pub use engine::run;
