//! Core of a token-authenticated command-line client: obtaining a bearer
//! token through the OAuth2 device-authorization grant, caching it in a
//! single local credential file, and holding it for the life of one process.
//!
//! The modules split the work the way the running program does:
//!
//! - [`store`] keeps the durable model of the one cached credential;
//! - [`session`] holds the token resolved for the current process;
//! - [`device`] is the device-authorization state machine, one step per
//!   network response;
//! - [`login`] decides the login and logout strategy from what is cached,
//!   what the environment supplies, and whether prompting is allowed;
//! - [`http`] classifies HTTP responses into the client's error taxonomy;
//! - [`error`] is the error taxonomy those decisions surface;
//! - [`api`] and [`modules`] carry the plain data and checks behind the
//!   database and module commands;
//! - [`creds`] reads AWS CLI credential profiles out of parsed INI text;
//! - [`text`] holds the small string helpers the rest share.
//!
//! Network and terminal I/O stay with the caller: every function here is
//! deterministic, and the polling loop is driven one event at a time.

pub mod api;
pub mod creds;
pub mod device;
pub mod error;
pub mod http;
pub mod login;
pub mod modules;
pub mod session;
pub mod store;
pub mod text;
