//! Runs short interpreted programs in an isolated worker and supervises them
//! from the host: the job protocol, the bounded output streams, the worker's
//! dispatcher and the interpreters themselves.
pub mod lang;
pub mod languages;
pub mod page;
pub mod runner;
pub mod text;
pub mod threading;
