//! Sentry integration for the game engine Bevy.
//!
//! The integration starts the Sentry client from a [`SentryConfig`] resource
//! when the application is set up, keeps the client alive in a [`Sentry`]
//! resource, and mirrors [`SentryContext`] resources into the client's scope
//! so that they travel with every reported event.

pub mod client;
pub mod context;
pub mod host;
pub mod integration;
pub mod laws;

pub use context::{set_sentry_context, sync_scope, ContextData, ContextView, SentryContext};
pub use integration::{Sentry, SentryConfig, SentryIntegration, SetupError};
