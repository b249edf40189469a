//! Verified core of the DeltaBeer terminal client: input fields, dialogs,
//! pages, the application state machine and the request plans that the
//! terminal front end executes.
pub mod text;
pub mod model;
pub mod auth;
pub mod fields;
pub mod key;
pub mod error;
pub mod request;
pub mod message;
pub mod dialog;
pub mod page;
pub mod app;
pub mod client;
pub mod execute;
pub mod input;
pub mod splash;
pub mod runtime;
pub mod config;
