//! Emitters for the client and server source texts a service schema publishes in other languages
//! (Kotlin, Swift, Dart, TypeScript), over a plain model of the Rust declarations they describe.

pub mod text;
pub mod rename_rule;
pub mod names;
pub mod field_def;
pub mod item;
pub mod kotlin;
pub mod kotlin_text;
pub mod kotlin_ws_text;
pub mod service;
pub mod message;
pub mod kotlin_ws_client;
pub mod swift_type;
pub mod swift_ws_text;
pub mod swift_ws_client;
pub mod ws_server_text;
pub mod ws_server;
pub mod dart_result;
pub mod kotlin_laws;
