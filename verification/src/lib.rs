//! Structured editing of `.env` configuration templates.
pub mod app;
pub mod i18n;
pub mod item;
pub mod laws;
pub mod merge;
pub mod numeral;
pub mod parse;
pub mod remote;
pub mod reload;
pub mod roundtrip;
pub mod secret;
pub mod serialize;
pub mod session;
pub mod settings;
pub mod text;
