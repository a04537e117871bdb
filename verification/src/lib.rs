//! A small authenticated file-storage core: users log in with a password and
//! receive a time-limited bearer token; files are uploaded into, listed from
//! and downloaded out of either a shared scope or a per-user scope chosen by
//! a filename-prefix convention. This crate holds the verified logic — the
//! credential records, password hashing boundary, session table, scope
//! resolution, listing pagination and login rate limiting; the surrounding
//! process (HTTP routing, multipart parsing, disk and clock access) feeds it
//! plain values.
pub mod auth;
pub mod config;
pub mod files;
pub mod password;
pub mod session;
pub mod state;
pub mod text;
pub mod upload;
pub mod user;
