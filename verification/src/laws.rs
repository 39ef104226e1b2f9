//! What holds of setup and of the scope, whatever the inputs.

use crate::client::Contexts;
use crate::context::{after_sync, with_context, with_contexts, ContextView};
use crate::host::{app_resources, update_stage_systems, ResourceKind};
use crate::integration::{SentryIntegration, SetupError};
use vstd::prelude::*;

verus! {

/// Setup on an application that holds a configuration succeeds, and
/// afterwards the configuration is gone and the live handle is there.
pub proof fn setup_swaps_config_for_handle(
    integration: SentryIntegration,
    before: bevy::app::App,
    after: bevy::app::App,
    outcome: Result<(), SetupError>,
)
    requires
        integration.set_up(before, after, outcome),
        app_resources(before).contains(ResourceKind::Configuration),
    ensures
        outcome is Ok,
        !app_resources(after).contains(ResourceKind::Configuration),
        app_resources(after).contains(ResourceKind::LiveHandle),
{
}

/// Setup on an application without a configuration creates no live handle,
/// adds no system, and reports the one error there is.
pub proof fn setup_without_config_is_a_no_op(
    integration: SentryIntegration,
    before: bevy::app::App,
    after: bevy::app::App,
    outcome: Result<(), SetupError>,
)
    requires
        integration.set_up(before, after, outcome),
        !app_resources(before).contains(ResourceKind::Configuration),
    ensures
        outcome == Err::<(), SetupError>(SetupError::MissingConfig),
        app_resources(after) == app_resources(before),
        app_resources(after).contains(ResourceKind::LiveHandle) <==> app_resources(
            before,
        ).contains(ResourceKind::LiveHandle),
        update_stage_systems(after) == update_stage_systems(before),
{
}

/// Setup is single-use: once it has succeeded on an application, any
/// further setup on that application finds no configuration and changes
/// nothing.
pub proof fn setup_is_single_use(
    first: SentryIntegration,
    second: SentryIntegration,
    before: bevy::app::App,
    between: bevy::app::App,
    after: bevy::app::App,
    first_outcome: Result<(), SetupError>,
    second_outcome: Result<(), SetupError>,
)
    requires
        first.set_up(before, between, first_outcome),
        second.set_up(between, after, second_outcome),
        first_outcome is Ok,
    ensures
        second_outcome == Err::<(), SetupError>(SetupError::MissingConfig),
        app_resources(after) == app_resources(between),
        update_stage_systems(after) == update_stage_systems(between),
{
}

/// Writing a context stores exactly its mapping under its key and leaves
/// every other key as it was.
pub proof fn write_is_local(contexts: Contexts, entry: ContextView)
    ensures
        with_context(contexts, entry).contains_key(entry.key),
        with_context(contexts, entry)[entry.key] == entry.mapping,
        forall|key: Seq<char>|
            key != entry.key ==> (#[trigger] with_context(contexts, entry).contains_key(key)
                <==> contexts.contains_key(key)),
        forall|key: Seq<char>|
            key != entry.key ==> #[trigger] with_context(contexts, entry)[key] == contexts[key],
{
}

/// Writing the same context twice is the same as writing it once.
pub proof fn write_is_idempotent(contexts: Contexts, entry: ContextView)
    ensures
        with_context(with_context(contexts, entry), entry) == with_context(contexts, entry),
{
    assert(with_context(with_context(contexts, entry), entry) =~= with_context(contexts, entry));
}

/// A sync step that sees a changed context replaces what the scope held
/// under its key by the new mapping, with nothing of the old one left. The
/// step after it, which sees no further change, leaves the scope as it is.
pub proof fn sync_replaces_then_idles(contexts: Contexts, stale: ContextView, fresh: ContextView)
    requires
        stale.key == fresh.key,
    ensures
        ({
            let seeded = after_sync(contexts, Some(stale), true);
            let once = after_sync(seeded, Some(fresh), true);
            let twice = after_sync(once, Some(fresh), false);
            &&& once == with_context(contexts, fresh)
            &&& once.contains_key(fresh.key)
            &&& once[fresh.key] == fresh.mapping
            &&& twice == once
        }),
{
    let seeded = after_sync(contexts, Some(stale), true);
    assert(after_sync(seeded, Some(fresh), true) =~= with_context(contexts, fresh));
}

/// A sync step without a context, or with one that did not change, leaves
/// the scope as it is.
pub proof fn sync_without_change_is_idle(contexts: Contexts, entry: Option<ContextView>)
    ensures
        after_sync(contexts, entry, false) == contexts,
        after_sync(contexts, None, true) == contexts,
{
}

/// Contexts under distinct keys are independent: a sync step for one of
/// them never touches what the scope holds under the key of the other, and
/// the order in which the two are written does not matter.
pub proof fn distinct_keys_are_independent(
    contexts: Contexts,
    one: ContextView,
    other: ContextView,
    changed: bool,
)
    requires
        one.key != other.key,
    ensures
        after_sync(contexts, Some(other), changed).contains_key(one.key) <==> contexts.contains_key(
            one.key,
        ),
        after_sync(contexts, Some(other), changed)[one.key] == contexts[one.key],
        after_sync(with_context(contexts, one), Some(other), changed)[one.key] == one.mapping,
        with_context(with_context(contexts, one), other).contains_key(one.key),
        with_context(with_context(contexts, one), other).contains_key(other.key),
        with_context(with_context(contexts, one), other) == with_context(
            with_context(contexts, other),
            one,
        ),
{
    assert(with_context(with_context(contexts, one), other) =~= with_context(
        with_context(contexts, other),
        one,
    ));
}

/// Whether no entry after the one at `index` has the same key.
pub open spec fn is_last_for_its_key(entries: Seq<ContextView>, index: int) -> bool {
    forall|later: int| index < later < entries.len() ==> entries[later].key != entries[index].key
}

/// Whether some entry has the key `key`.
pub open spec fn names_key(entries: Seq<ContextView>, key: Seq<char>) -> bool {
    exists|index: int| 0 <= index < entries.len() && entries[index].key == key
}

/// After a run of contexts has been written, first to last, each key that
/// the run names holds the mapping of the last entry with that key, and
/// every key that the run does not name is as it was.
pub proof fn last_write_wins(contexts: Contexts, entries: Seq<ContextView>)
    ensures
        forall|index: int|
            0 <= index < entries.len() && #[trigger] is_last_for_its_key(entries, index) ==> {
                &&& with_contexts(contexts, entries).contains_key(entries[index].key)
                &&& with_contexts(contexts, entries)[entries[index].key] == entries[index].mapping
            },
        forall|key: Seq<char>|
            !#[trigger] names_key(entries, key) ==> {
                &&& with_contexts(contexts, entries).contains_key(key) <==> contexts.contains_key(
                    key,
                )
                &&& with_contexts(contexts, entries)[key] == contexts[key]
            },
    decreases entries.len(),
{
    if entries.len() > 0 {
        let front = entries.drop_last();
        let last = entries.last();
        last_write_wins(contexts, front);
        assert forall|index: int|
            0 <= index < entries.len() && #[trigger] is_last_for_its_key(entries, index) implies {
            &&& with_contexts(contexts, entries).contains_key(entries[index].key)
            &&& with_contexts(contexts, entries)[entries[index].key] == entries[index].mapping
        } by {
            if index < entries.len() - 1 {
                assert(entries[index].key != last.key);
                assert forall|later: int| index < later < front.len() implies front[later].key
                    != front[index].key by {
                    assert(front[later] == entries[later]);
                }
                assert(is_last_for_its_key(front, index));
            }
        }
        assert forall|key: Seq<char>| !#[trigger] names_key(entries, key) implies {
            &&& with_contexts(contexts, entries).contains_key(key) <==> contexts.contains_key(key)
            &&& with_contexts(contexts, entries)[key] == contexts[key]
        } by {
            assert(last.key != key) by {
                assert(entries[entries.len() - 1] == last);
            }
            if names_key(front, key) {
                let index = choose|index: int| 0 <= index < front.len() && front[index].key == key;
                assert(entries[index].key == key);
            }
        }
    }
}

/// Where all keys of a run of contexts differ, each of them is in the scope
/// with its own mapping once the run has been written.
pub proof fn distinct_initial_contexts_all_land(contexts: Contexts, entries: Seq<ContextView>)
    requires
        forall|i: int, j: int|
            0 <= i < j < entries.len() ==> #[trigger] entries[i].key != #[trigger] entries[j].key,
    ensures
        forall|index: int|
            0 <= index < entries.len() ==> {
                &&& with_contexts(contexts, entries).contains_key(#[trigger] entries[index].key)
                &&& with_contexts(contexts, entries)[entries[index].key] == entries[index].mapping
            },
{
    last_write_wins(contexts, entries);
    assert forall|index: int| 0 <= index < entries.len() implies {
        &&& with_contexts(contexts, entries).contains_key(#[trigger] entries[index].key)
        &&& with_contexts(contexts, entries)[entries[index].key] == entries[index].mapping
    } by {
        assert(is_last_for_its_key(entries, index));
    }
}

} // verus!
