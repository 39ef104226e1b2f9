//! The Bevy application, as far as the integration touches it.
//!
//! Everything in this file is taken on trust from the `bevy` crate: the
//! types are opaque to the verifier and the contracts restate what the
//! crate's source does to the application's resources and to the systems of
//! its update stage.

use crate::context::{set_sentry_context, SentryContext};
use crate::integration::{Sentry, SentryConfig};
use vstd::prelude::*;

verus! {

/// The application that hosts the integration.
#[verifier::external_type_specification]
#[verifier::external_body]
pub struct ExApp(bevy::app::App);

/// A batch of systems that is added to a stage in one go.
#[verifier::external_type_specification]
#[verifier::external_body]
pub struct ExSystemSet(bevy::ecs::schedule::SystemSet);

/// The two resources that the integration itself moves in and out of an
/// application.
pub enum ResourceKind {
    /// The [`SentryConfig`] that the host supplies.
    Configuration,
    /// The [`Sentry`] handle that setup leaves behind.
    LiveHandle,
}

/// Which of the integration's resources the world of `app` holds.
pub uninterp spec fn app_resources(app: bevy::app::App) -> Set<ResourceKind>;

/// The number of systems in the update stage of `app`, or `None` where its
/// schedule has no system stage under `CoreStage::Update`.
pub uninterp spec fn update_stage_systems(app: bevy::app::App) -> Option<nat>;

/// The number of systems in `systems` where the set is plain, that is
/// without run criteria of its own, and `None` otherwise.
pub uninterp spec fn plain_systems(systems: bevy::ecs::schedule::SystemSet) -> Option<nat>;

/// `SystemSet::new`: a set without systems and without run criteria.
#[verifier::external_body]
pub(crate) fn new_system_set() -> (systems: bevy::ecs::schedule::SystemSet)
    ensures
        plain_systems(systems) == Some(0nat),
{
    bevy::ecs::schedule::SystemSet::new()
}

/// `SystemSet::with_system`: appends one system to the set and leaves the
/// rest of it alone. The system added observes the `SentryContext<T>`
/// resource through `Res::is_changed` and runs [`set_sentry_context`] on what
/// it sees.
#[verifier::external_body]
pub(crate) fn with_context_system<T: Send + Sync + 'static>(
    systems: bevy::ecs::schedule::SystemSet,
) -> (extended: bevy::ecs::schedule::SystemSet)
    ensures
        plain_systems(extended) == match plain_systems(systems) {
            Some(n) => Some(n + 1),
            None => None,
        },
{
    systems.with_system(|context: Option<bevy::ecs::system::Res<SentryContext<T>>>| {
        set_sentry_context(context.as_deref(), context.as_ref().is_some_and(|c| c.is_changed()));
    })
}

/// `World::contains_resource` for [`SentryConfig`]: whether the world holds
/// a configuration.
#[verifier::external_body]
pub(crate) fn config_present(app: &bevy::app::App) -> (present: bool)
    ensures
        present == app_resources(*app).contains(ResourceKind::Configuration),
{
    app.world.contains_resource::<SentryConfig>()
}

/// `Schedule::get_stage` for `CoreStage::Update`: whether the schedule has a
/// system stage under that label.
#[verifier::external_body]
pub(crate) fn update_stage_present(app: &bevy::app::App) -> (present: bool)
    ensures
        present == update_stage_systems(*app) is Some,
{
    app.schedule.get_stage::<bevy::ecs::schedule::SystemStage>(&bevy::app::CoreStage::Update).is_some()
}

/// `World::remove_resource` for [`SentryConfig`]: hands the configuration
/// out if the world holds one, and the world holds none afterwards. Nothing
/// else in the application changes.
#[verifier::external_body]
pub(crate) fn take_config(app: &mut bevy::app::App) -> (config: Option<SentryConfig>)
    ensures
        config is Some <==> app_resources(*old(app)).contains(ResourceKind::Configuration),
        app_resources(*final(app)) == app_resources(*old(app)).remove(ResourceKind::Configuration),
        update_stage_systems(*final(app)) == update_stage_systems(*old(app)),
{
    app.world.remove_resource::<SentryConfig>()
}

/// `App::insert_resource` for [`Sentry`]: the world holds the handle
/// afterwards. Nothing else in the application changes.
#[verifier::external_body]
pub(crate) fn store_handle(app: &mut bevy::app::App, handle: Sentry)
    ensures
        app_resources(*final(app)) == app_resources(*old(app)).insert(ResourceKind::LiveHandle),
        update_stage_systems(*final(app)) == update_stage_systems(*old(app)),
{
    app.insert_resource(handle);
}

/// `App::add_system_set`: moves every system of a plain set into the update
/// stage. Bevy panics where that stage is missing, so the caller has to know
/// that it is there.
#[verifier::external_body]
pub(crate) fn add_systems(app: &mut bevy::app::App, systems: bevy::ecs::schedule::SystemSet)
    requires
        update_stage_systems(*old(app)) is Some,
        plain_systems(systems) is Some,
    ensures
        update_stage_systems(*final(app)) == Some(
            update_stage_systems(*old(app))->Some_0 + plain_systems(systems)->Some_0,
        ),
        app_resources(*final(app)) == app_resources(*old(app)),
{
    app.add_system_set(systems);
}

} // verus!
