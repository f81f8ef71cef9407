//! A project registry, a resolver from directories to registered projects,
//! and a dispatcher that plans the toolchain commands for each language.
pub mod config;
pub mod dispatch;
pub mod language;
pub mod lifecycle;
pub mod paths;
pub mod registry;
pub mod resolver;
pub mod scaffold;
pub mod secrets;
