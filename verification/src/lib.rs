//! Decision core of a student-portal session.
//!
//! The library never touches a browser. Each workflow (opening the session,
//! logging in, reading the profile page) is a transition function: it takes
//! the state of the workflow and what the browser driver reported for the
//! previous command, and answers with the next command or with the final
//! result. Whoever owns the browser performs the commands and feeds the
//! replies back in.
//!
//! - `config`: the settings of a run.
//! - `driver`: the commands and replies, and the step a transition answers
//!   with.
//! - `error`: the page elements and the hard errors.
//! - `poll`: polling an address by count.
//! - `session`: the launch of a session and the login.
//! - `profile`: the profile and the workflow that reads it.
//! - `table`: the fields that a table gives.
//! - `run`, `script`: what it means to run a workflow against a driver's
//!   replies.
//! - `session_laws`, `profile_laws`: what holds of every run.

pub mod config;
pub mod driver;
pub mod error;
pub mod poll;
pub mod profile;
pub mod profile_laws;
pub mod run;
pub mod script;
pub mod session;
pub mod session_laws;
pub mod table;
