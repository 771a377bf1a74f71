//! Device trust and audit core of a host-security console.
//!
//! The console lists the USB devices of a machine and lets an operator say
//! which of them are trusted. This library holds the rules of that:
//!
//! - [`normalizer`] turns the output of a privileged query, which may be
//!   empty, one JSON object or an array of them, into one sequence of records;
//! - [`devices`] resolves those records against the trust store and derives
//!   the figures of the dashboard;
//! - [`whitelist`] is the trust store and the operations that change it;
//! - [`logs`] is the bounded audit log;
//! - [`powershell`] writes the scripts that the host runs and reads what
//!   came of running one;
//! - [`models`] holds the records, [`text`] what the modules share.
//!
//! The library reads no file and starts no process. Its functions take the
//! documents and outputs that the caller has read and return what the caller
//! is to write, run or log; every one of them is total, and its contract says
//! what it returns for every input.

pub mod devices;
pub mod logs;
pub mod models;
pub mod normalizer;
pub mod powershell;
pub mod text;
pub mod whitelist;
