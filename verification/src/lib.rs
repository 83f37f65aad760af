//! A desktop quota monitor's core logic: credential handling, the OAuth
//! device-code login flow, `/usages` response mapping and the polling
//! schedule, with the I/O left to the caller.
pub mod text;
pub mod json;
pub mod credentials;
pub mod auth;
pub mod usage;
pub mod bmp;
pub mod tray_icon;
pub mod poller;
pub mod widget;
