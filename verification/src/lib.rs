//! Core of a live-session course server: a coordinator that tracks at most
//! one live connection per user, a connection handler that parses the text
//! command protocol and watches liveness, and the record assembly used by
//! the read-side endpoints.

pub mod handlers;
pub mod models;
pub mod pb;
pub mod ws_server;
pub mod ws_session;
