//! Verified core of a terminal client for a music library server.
pub mod api;
pub mod tags;
pub mod text;
pub mod db;
pub mod downloads;
pub mod storage;
pub mod ui;
