//! Dile's dictation logic: the capture pipeline after conversion, the engine's wake-up queue,
//! the catalogue, the panel's card, the paste decisions, the settings document and the
//! command line's grammar — each with its contract.

pub mod capture;
pub mod cli;
pub mod engine;
pub mod i18n;
pub mod panel;
pub mod paste;
pub mod platform;
pub mod session;
pub mod settings;
pub mod text;
pub mod tray;
