//! Core of a bridge between an HTTP API and an LED controller on a serial
//! link: the command table, the gateway's and the dispatcher's decisions, the
//! link reader, the order of startup, and a model of how the tasks share the
//! link, with the proof that their writes never interleave.

pub mod channel;
pub mod command;
pub mod dispatcher;
pub mod gateway;
pub mod link;
pub mod reader;
pub mod startup;
pub mod text;
