//! Custom contexts and the step that keeps the client's scope in line with
//! them.

use crate::client::{configure_current_scope, scope_contexts, write_context, Contexts, Mapping};
use std::collections::BTreeMap;
use std::marker::PhantomData;
use vstd::prelude::*;

verus! {

/// What a context is to the client: a key and the entries shown under it.
pub ghost struct ContextView {
    pub key: Seq<char>,
    pub mapping: Mapping,
}

/// The contexts of a scope once `entry` has been written to it: `entry`
/// replaces whatever was stored under its key, every other key is kept.
pub open spec fn with_context(contexts: Contexts, entry: ContextView) -> Contexts {
    contexts.insert(entry.key, entry.mapping)
}

/// The contexts of a scope once `entries` have been written to it, first to
/// last.
pub open spec fn with_contexts(contexts: Contexts, entries: Seq<ContextView>) -> Contexts
    decreases entries.len(),
{
    if entries.len() == 0 {
        contexts
    } else {
        with_context(with_contexts(contexts, entries.drop_last()), entries.last())
    }
}

/// The contexts of a scope after one sync step that observed `entry`:
/// written if the entry exists and changed, untouched otherwise.
pub open spec fn after_sync(contexts: Contexts, entry: Option<ContextView>, changed: bool) -> Contexts {
    match entry {
        Some(e) => if changed { with_context(contexts, e) } else { contexts },
        None => contexts,
    }
}

/// A context without its marker type: what is queued for the client.
pub struct ContextData {
    key: &'static str,
    context: BTreeMap<String, sentry::protocol::Value>,
}

impl View for ContextData {
    type V = ContextView;

    closed spec fn view(&self) -> ContextView {
        ContextView { key: self.key@, mapping: self.context@ }
    }
}

impl ContextData {
    /// Writes this context into `scope`.
    pub fn apply(&self, scope: &mut sentry::Scope)
        ensures
            scope_contexts(*final(scope)) == with_context(scope_contexts(*old(scope)), self@),
    {
        write_context(scope, self.key, &self.context);
    }

    /// A copy of this context.
    pub fn duplicate(&self) -> (copy: Self)
        ensures
            copy@ == self@,
    {
        ContextData { key: self.key, context: self.context.clone() }
    }
}

/// The views of a run of queued contexts.
pub open spec fn views(entries: Seq<ContextData>) -> Seq<ContextView> {
    entries.map_values(|entry: ContextData| entry@)
}

/// Writes `entries` into `scope`, first to last.
pub fn apply_all(scope: &mut sentry::Scope, entries: &Vec<ContextData>)
    ensures
        scope_contexts(*final(scope)) == with_contexts(
            scope_contexts(*old(scope)),
            views(entries@),
        ),
{
    let ghost before = scope_contexts(*scope);
    let mut i: usize = 0;
    while i < entries.len()
        invariant
            i <= entries.len(),
            scope_contexts(*scope) == with_contexts(before, views(entries@.take(i as int))),
        decreases entries.len() - i,
    {
        entries[i].apply(scope);
        proof {
            let done = views(entries@.take(i as int + 1));
            assert(done.drop_last() == views(entries@.take(i as int)));
            assert(done.last() == entries@[i as int]@);
        }
        i += 1;
    }
    proof {
        assert(entries@.take(entries.len() as int) == entries@);
    }
}

/// A sentry context.
///
/// The mapping is passed to Sentry as a custom context with every event. The
/// marker `T` tells contexts of the same shape apart, so that several can
/// live side by side as resources.
pub struct SentryContext<T> {
    data: ContextData,
    _phantom_data: PhantomData<T>,
}

impl<T> View for SentryContext<T> {
    type V = ContextView;

    closed spec fn view(&self) -> ContextView {
        self.data@
    }
}

impl<T> SentryContext<T> {
    /// Create a new sentry context.
    pub fn new(key: &'static str, context: BTreeMap<String, sentry::protocol::Value>) -> (entry: Self)
        ensures
            entry@ == (ContextView { key: key@, mapping: context@ }),
    {
        SentryContext { data: ContextData { key, context }, _phantom_data: PhantomData }
    }

    /// Gives up the marker type.
    pub fn into_data(self) -> (data: ContextData)
        ensures
            data@ == self@,
    {
        self.data
    }

    /// The key under which the context is shown.
    pub fn get_key(&self) -> (key: &str)
        ensures
            key@ == self@.key,
    {
        self.data.key
    }

    /// A copy of the context's entries.
    pub fn get_context(&self) -> (context: BTreeMap<String, sentry::protocol::Value>)
        ensures
            context@ == self@.mapping,
    {
        self.data.context.clone()
    }

    /// Writes this context into `scope`.
    pub fn apply(&self, scope: &mut sentry::Scope)
        ensures
            scope_contexts(*final(scope)) == with_context(scope_contexts(*old(scope)), self@),
    {
        self.data.apply(scope);
    }
}

/// One sync step against an explicit scope: writes `context` into `scope` if
/// it exists and `changed` says that it was touched since the last step.
/// Returns whether it wrote.
pub fn sync_scope<T>(
    scope: &mut sentry::Scope,
    context: Option<&SentryContext<T>>,
    changed: bool,
) -> (wrote: bool)
    ensures
        wrote == (context is Some && changed),
        scope_contexts(*final(scope)) == after_sync(
            scope_contexts(*old(scope)),
            match context {
                Some(entry) => Some(entry@),
                None => None,
            },
            changed,
        ),
{
    match context {
        Some(entry) => {
            if changed {
                entry.apply(scope);
                true
            } else {
                false
            }
        },
        None => false,
    }
}

/// One sync step against the scope of the current hub: hands `context` to
/// the client if it exists and `changed` says that it was touched since the
/// last step, and leaves the client alone otherwise. Returns whether it
/// handed the context over.
pub fn set_sentry_context<T>(context: Option<&SentryContext<T>>, changed: bool) -> (wrote: bool)
    ensures
        wrote == (context is Some && changed),
{
    match context {
        Some(entry) => {
            if changed {
                let mut update: Vec<ContextData> = Vec::new();
                update.push(entry.data.duplicate());
                configure_current_scope(&update);
                true
            } else {
                false
            }
        },
        None => false,
    }
}

} // verus!
