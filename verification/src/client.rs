//! The Sentry client, as far as the integration drives it.
//!
//! Everything in this file is taken on trust from the `sentry` crate: the
//! types are opaque to the verifier and the contracts restate what the
//! crate's source does.

use crate::context::{apply_all, ContextData};
use std::collections::BTreeMap;
use vstd::prelude::*;

verus! {

/// Options from which a client is started. Passed through untouched.
#[verifier::external_type_specification]
#[verifier::external_body]
pub struct ExClientOptions(sentry::ClientOptions);

/// Guard returned when a client is started. Dropping it flushes and shuts
/// down the client's transport.
#[verifier::external_type_specification]
#[verifier::external_body]
pub struct ExClientInitGuard(sentry::ClientInitGuard);

/// The client's bag of data that is attached to every event.
#[verifier::external_type_specification]
#[verifier::external_body]
pub struct ExScope(sentry::Scope);

/// A JSON value inside a context mapping.
#[verifier::external_type_specification]
#[verifier::external_body]
pub struct ExValue(sentry::protocol::Value);

/// The entries of one context: field name to value.
pub type Mapping = Map<String, sentry::protocol::Value>;

/// The custom contexts of a scope: context key to its entries.
pub type Contexts = Map<Seq<char>, Mapping>;

/// The custom contexts that `scope` holds: for each key under which it
/// stores a `Context::Other`, the entries of that context.
pub uninterp spec fn scope_contexts(scope: sentry::Scope) -> Contexts;

/// `sentry::Scope::set_context` with a `Context::Other` value: the scope
/// afterwards maps `key` to a copy of `mapping`, replacing what it held under
/// that key, and keeps every other context.
#[verifier::external_body]
pub(crate) fn write_context(
    scope: &mut sentry::Scope,
    key: &str,
    mapping: &BTreeMap<String, sentry::protocol::Value>,
)
    ensures
        scope_contexts(*final(scope)) == scope_contexts(*old(scope)).insert(key@, mapping@),
{
    scope.set_context(key, sentry::protocol::Context::Other(mapping.clone()));
}

/// `sentry::init`: builds a client from `options`, filled up from the
/// `SENTRY_*` and proxy variables of the process, binds it to the current hub
/// and hands back its guard. Nothing is claimed of the guard: which client
/// comes up, and whether it is enabled, depends on those variables too.
#[verifier::external_body]
pub(crate) fn start_client(options: sentry::ClientOptions) -> (guard: sentry::ClientInitGuard) {
    sentry::init(options)
}

/// `sentry::configure_scope`: hands the scope of the current hub to
/// [`apply_all`], which writes `entries` into it. The SDK skips the call when
/// no enabled client is bound to the hub, so nothing is claimed of the
/// outcome.
#[verifier::external_body]
pub(crate) fn configure_current_scope(entries: &Vec<ContextData>) {
    sentry::configure_scope(|scope| apply_all(scope, entries));
}

} // verus!
