//! Setting the integration up in an application.

use crate::client::{configure_current_scope, scope_contexts, start_client};
use crate::context::{apply_all, views, with_contexts, ContextData, ContextView, SentryContext};
use crate::host::{
    add_systems, app_resources, config_present, new_system_set, plain_systems, store_handle,
    take_config, update_stage_present, update_stage_systems, with_context_system, ResourceKind,
};
use vstd::prelude::*;

verus! {

/// Configuration resource for the integration.
///
/// This resource is removed from the app during setup!
pub struct SentryConfig {
    options: sentry::ClientOptions,
}

impl SentryConfig {
    /// The client options that the configuration carries.
    pub closed spec fn options(&self) -> sentry::ClientOptions {
        self.options
    }

    /// Build the configuration from Sentry's client options, which are kept
    /// as they are.
    pub fn from_options(options: sentry::ClientOptions) -> (config: Self)
        ensures
            config.options() == options,
    {
        SentryConfig { options }
    }
}

/// Runtime data of the integration: keeps the client alive for as long as
/// the application holds it.
pub struct Sentry {
    guard: sentry::ClientInitGuard,
}

/// Why setup did not take place.
#[derive(Debug, PartialEq, Eq, Structural)]
pub enum SetupError {
    /// The application holds no [`SentryConfig`] resource.
    MissingConfig,
}

impl SetupError {
    /// The diagnostic that goes with the error.
    pub fn message(&self) -> (text: &'static str)
        ensures
            text@ == "Please supply a `SentryConfig` as resource"@,
    {
        match self {
            SetupError::MissingConfig => "Please supply a `SentryConfig` as resource",
        }
    }
}

/// Sentry integration for Bevy applications.
pub struct SentryIntegration {
    systems: bevy::ecs::schedule::SystemSet,
    initial_contexts: Vec<ContextData>,
}

impl SentryIntegration {
    #[verifier::type_invariant]
    spec fn plain(self) -> bool {
        plain_systems(self.systems) is Some
    }

    /// The contexts that are handed to the client at setup, in the order of
    /// their registration.
    pub closed spec fn initial_contexts(&self) -> Seq<ContextView> {
        views(self.initial_contexts@)
    }

    /// The number of context types registered: one sync system each.
    pub closed spec fn registered(&self) -> nat {
        plain_systems(self.systems)->Some_0
    }

    /// Create a new integration, with nothing registered.
    pub fn new() -> (integration: Self)
        ensures
            integration.initial_contexts() == Seq::<ContextView>::empty(),
            integration.registered() == 0,
    {
        SentryIntegration { systems: new_system_set(), initial_contexts: Vec::new() }
    }

    /// Register a new Sentry context.
    ///
    /// An initial value is handed to the client as soon as it is started.
    /// Later the context follows the resource `SentryContext<T>`.
    pub fn register_context<T: Send + Sync + 'static>(
        self,
        initial_value: Option<SentryContext<T>>,
    ) -> (integration: Self)
        ensures
            integration.registered() == self.registered() + 1,
            integration.initial_contexts() == match initial_value {
                Some(context) => self.initial_contexts().push(context@),
                None => self.initial_contexts(),
            },
    {
        proof {
            use_type_invariant(&self);
        }
        let SentryIntegration { systems, mut initial_contexts } = self;
        let systems = with_context_system::<T>(systems);
        if let Some(context) = initial_value {
            let ghost before = initial_contexts@;
            initial_contexts.push(context.into_data());
            assert(views(initial_contexts@) == views(before).push(context@));
        }
        SentryIntegration { systems, initial_contexts }
    }

    /// Writes the initial contexts into `scope`, in the order of their
    /// registration. This is what setup asks of the client.
    pub fn apply_initial_contexts(&self, scope: &mut sentry::Scope)
        ensures
            scope_contexts(*final(scope)) == with_contexts(
                scope_contexts(*old(scope)),
                self.initial_contexts(),
            ),
    {
        apply_all(scope, &self.initial_contexts);
    }

    /// What [`build`](Self::build) has done to an application that went from
    /// `before` to `after`.
    pub open spec fn set_up(
        &self,
        before: bevy::app::App,
        after: bevy::app::App,
        outcome: Result<(), SetupError>,
    ) -> bool {
        if app_resources(before).contains(ResourceKind::Configuration) {
            &&& outcome == Ok::<(), SetupError>(())
            &&& app_resources(after) == app_resources(before).remove(
                ResourceKind::Configuration,
            ).insert(ResourceKind::LiveHandle)
            &&& update_stage_systems(after) == Some(
                update_stage_systems(before)->Some_0 + self.registered(),
            )
        } else {
            &&& outcome == Err::<(), SetupError>(SetupError::MissingConfig)
            &&& app_resources(after) == app_resources(before)
            &&& update_stage_systems(after) == update_stage_systems(before)
        }
    }

    /// Finish configuring the integration.
    ///
    /// With a [`SentryConfig`] in the application: takes it out, starts the
    /// client from it, stores the [`Sentry`] handle, hands the initial
    /// contexts to the client and adds the sync systems to the update stage.
    /// Without one: leaves the application alone and reports
    /// [`SetupError::MissingConfig`].
    ///
    /// Bevy panics when systems are added to an application that has no
    /// update stage, so an application with a configuration has to have one.
    /// [`try_build`](Self::try_build) tests for it.
    pub fn build(self, app: &mut bevy::app::App) -> (outcome: Result<(), SetupError>)
        requires
            app_resources(*old(app)).contains(ResourceKind::Configuration)
                ==> update_stage_systems(*old(app)) is Some,
        ensures
            self.set_up(*old(app), *final(app), outcome),
    {
        proof {
            use_type_invariant(&self);
        }
        match take_config(app) {
            Some(configuration) => {
                let guard = start_client(configuration.options);
                store_handle(app, Sentry { guard });
                if self.initial_contexts.len() > 0 {
                    configure_current_scope(&self.initial_contexts);
                }
                add_systems(app, self.systems);
                Ok(())
            },
            None => {
                proof {
                    let held = app_resources(*old(app));
                    assert(held.remove(ResourceKind::Configuration) =~= held);
                }
                Err(SetupError::MissingConfig)
            },
        }
    }

    /// [`build`](Self::build) for an application of which nothing is known:
    /// returns `None`, with the application untouched, where it holds a
    /// configuration but no update stage to take the sync systems.
    pub fn try_build(self, app: &mut bevy::app::App) -> (outcome: Option<Result<(), SetupError>>)
        ensures
            outcome is None <==> app_resources(*old(app)).contains(ResourceKind::Configuration)
                && update_stage_systems(*old(app)) is None,
            outcome is None ==> *final(app) == *old(app),
            outcome matches Some(result) ==> self.set_up(*old(app), *final(app), result),
    {
        if !config_present(app) || update_stage_present(app) {
            Some(self.build(app))
        } else {
            None
        }
    }
}

} // verus!
