use bevy::app::{App, CoreStage};
use bevy::ecs::schedule::SystemStage;
use bevy_sentry::{Sentry, SentryConfig, SentryContext, SentryIntegration, SetupError};
use sentry::protocol::{Context, Event, Value};
use sentry::test::TestTransport;
use sentry::{ClientOptions, Envelope, Hub, Level, Transport};
use std::collections::BTreeMap;
use std::sync::atomic::{AtomicUsize, Ordering};
use std::sync::Arc;
use std::time::Duration;

struct CharacterContext;

struct WorldContext;

struct CountingTransport {
    shutdowns: AtomicUsize,
}

impl Transport for CountingTransport {
    fn send_envelope(&self, _envelope: Envelope) {}

    fn shutdown(&self, _timeout: Duration) -> bool {
        self.shutdowns.fetch_add(1, Ordering::SeqCst);
        true
    }
}

fn mapping(entries: &[(&str, &str)]) -> BTreeMap<String, Value> {
    let mut map = BTreeMap::new();
    for (name, value) in entries {
        map.insert((*name).to_owned(), Value::from(*value));
    }
    map
}

fn options(transport: &Arc<TestTransport>) -> ClientOptions {
    ClientOptions {
        dsn: Some("https://public@sentry.invalid/1".parse().unwrap()),
        transport: Some(Arc::new(transport.clone())),
        ..ClientOptions::default()
    }
}

/// An application whose update stage runs its systems on the calling thread,
/// so that they write to the scope that the test reads.
fn single_threaded_app() -> App {
    let mut app = App::empty();
    app.add_stage(CoreStage::Update, SystemStage::single_threaded());
    app
}

fn report(transport: &Arc<TestTransport>) -> Event<'static> {
    sentry::capture_message("report", Level::Info);
    let mut events = transport.fetch_and_clear_events();
    assert_eq!(events.len(), 1);
    events.remove(0)
}

#[test]
fn setup_swaps_the_config_for_a_handle() {
    let transport = TestTransport::new();
    let mut app = App::new();
    app.insert_resource(SentryConfig::from_options(options(&transport)));
    assert!(app.world.contains_resource::<SentryConfig>());
    assert!(!app.world.contains_resource::<Sentry>());

    let outcome = SentryIntegration::new().build(&mut app);

    assert_eq!(outcome, Ok(()));
    assert!(!app.world.contains_resource::<SentryConfig>());
    assert!(app.world.contains_resource::<Sentry>());
}

#[test]
fn setup_runs_at_most_once() {
    let transport = TestTransport::new();
    let mut app = App::new();
    app.insert_resource(SentryConfig::from_options(options(&transport)));
    assert_eq!(SentryIntegration::new().build(&mut app), Ok(()));
    assert_eq!(
        SentryIntegration::new().build(&mut app),
        Err(SetupError::MissingConfig)
    );
    assert!(app.world.contains_resource::<Sentry>());
}

#[test]
fn setup_without_config_reports_it() {
    let mut app = App::new();
    let outcome = SentryIntegration::new()
        .register_context(Some(SentryContext::<CharacterContext>::new(
            "Character",
            mapping(&[("name", "Nikl")]),
        )))
        .build(&mut app);
    assert_eq!(outcome, Err(SetupError::MissingConfig));
    assert!(!app.world.contains_resource::<Sentry>());
    assert!(!app.world.contains_resource::<SentryConfig>());
}

#[test]
fn missing_config_has_one_message() {
    assert_eq!(
        SetupError::MissingConfig.message(),
        "Please supply a `SentryConfig` as resource"
    );
}

#[test]
fn setup_starts_the_client_from_the_options() {
    let transport = TestTransport::new();
    let mut app = App::new();
    app.insert_resource(SentryConfig::from_options(ClientOptions {
        release: Some("game@1.2.3".into()),
        ..options(&transport)
    }));
    assert_eq!(SentryIntegration::new().build(&mut app), Ok(()));
    let client = Hub::current().client().expect("a client is bound");
    assert!(client.is_enabled());
    assert_eq!(client.options().release.as_deref(), Some("game@1.2.3"));
}

#[test]
fn initial_context_travels_with_events() {
    let transport = TestTransport::new();
    let mut app = App::new();
    app.insert_resource(SentryConfig::from_options(options(&transport)));
    let outcome = SentryIntegration::new()
        .register_context(Some(SentryContext::<CharacterContext>::new("Character", {
            let mut context = BTreeMap::new();
            context.insert("name".to_owned(), "Nikl".into());
            context.insert("age".to_owned(), "38".into());
            context
        })))
        .build(&mut app);
    assert_eq!(outcome, Ok(()));

    let event = report(&transport);
    match event.contexts.get("Character") {
        Some(Context::Other(map)) => {
            assert_eq!(map.len(), 2);
            assert_eq!(map.get("name"), Some(&Value::from("Nikl")));
            assert_eq!(map.get("age"), Some(&Value::from("38")));
        }
        other => panic!("unexpected context: {:?}", other),
    }
}

#[test]
fn two_initial_contexts_get_a_key_each() {
    let transport = TestTransport::new();
    let mut app = App::new();
    app.insert_resource(SentryConfig::from_options(options(&transport)));
    let outcome = SentryIntegration::new()
        .register_context(Some(SentryContext::<CharacterContext>::new(
            "Character",
            mapping(&[("name", "Nikl"), ("age", "38")]),
        )))
        .register_context(Some(SentryContext::<WorldContext>::new(
            "World",
            mapping(&[("seed", "7")]),
        )))
        .build(&mut app);
    assert_eq!(outcome, Ok(()));

    let event = report(&transport);
    assert_eq!(
        event.contexts.get("Character"),
        Some(&Context::Other(mapping(&[("name", "Nikl"), ("age", "38")])))
    );
    assert_eq!(
        event.contexts.get("World"),
        Some(&Context::Other(mapping(&[("seed", "7")])))
    );
}

#[test]
fn changed_resource_is_synced_once_per_change() {
    let transport = TestTransport::new();
    let mut app = single_threaded_app();
    app.insert_resource(SentryConfig::from_options(options(&transport)));
    let outcome = SentryIntegration::new()
        .register_context::<CharacterContext>(None)
        .build(&mut app);
    assert_eq!(outcome, Ok(()));
    assert!(report(&transport).contexts.get("Character").is_none());

    // A cycle without the resource writes nothing.
    app.update();
    assert!(report(&transport).contexts.get("Character").is_none());

    // The resource appears: the next cycle writes it.
    app.insert_resource(SentryContext::<CharacterContext>::new(
        "Character",
        mapping(&[("name", "Nikl"), ("age", "38")]),
    ));
    app.update();
    assert_eq!(
        report(&transport).contexts.get("Character"),
        Some(&Context::Other(mapping(&[("name", "Nikl"), ("age", "38")])))
    );

    // The resource changes: the next cycle replaces the mapping.
    *app.world.resource_mut::<SentryContext<CharacterContext>>() =
        SentryContext::new("Character", mapping(&[("name", "Nikl"), ("age", "39")]));
    app.update();
    assert_eq!(
        report(&transport).contexts.get("Character"),
        Some(&Context::Other(mapping(&[("name", "Nikl"), ("age", "39")])))
    );

    // No further change: a cycle leaves the scope alone, whatever it holds.
    sentry::configure_scope(|scope| {
        scope.set_context("Character", Context::Other(mapping(&[("name", "Eve")])))
    });
    app.update();
    assert_eq!(
        report(&transport).contexts.get("Character"),
        Some(&Context::Other(mapping(&[("name", "Eve")])))
    );
}

#[test]
fn resources_of_two_markers_are_synced_apart() {
    let transport = TestTransport::new();
    let mut app = single_threaded_app();
    app.insert_resource(SentryConfig::from_options(options(&transport)));
    let outcome = SentryIntegration::new()
        .register_context::<CharacterContext>(None)
        .register_context::<WorldContext>(None)
        .build(&mut app);
    assert_eq!(outcome, Ok(()));

    app.insert_resource(SentryContext::<CharacterContext>::new(
        "Character",
        mapping(&[("name", "Nikl")]),
    ));
    app.insert_resource(SentryContext::<WorldContext>::new(
        "World",
        mapping(&[("seed", "7")]),
    ));
    app.update();

    *app.world.resource_mut::<SentryContext<WorldContext>>() =
        SentryContext::new("World", mapping(&[("seed", "8")]));
    app.update();

    let event = report(&transport);
    assert_eq!(
        event.contexts.get("Character"),
        Some(&Context::Other(mapping(&[("name", "Nikl")])))
    );
    assert_eq!(
        event.contexts.get("World"),
        Some(&Context::Other(mapping(&[("seed", "8")])))
    );
}

#[test]
fn teardown_shuts_the_client_down_once() {
    let transport = Arc::new(CountingTransport {
        shutdowns: AtomicUsize::new(0),
    });
    let mut app = App::new();
    app.insert_resource(SentryConfig::from_options(ClientOptions {
        dsn: Some("https://public@sentry.invalid/1".parse().unwrap()),
        transport: Some(Arc::new(transport.clone())),
        ..ClientOptions::default()
    }));
    assert_eq!(SentryIntegration::new().build(&mut app), Ok(()));
    assert_eq!(transport.shutdowns.load(Ordering::SeqCst), 0);

    drop(app);
    assert_eq!(transport.shutdowns.load(Ordering::SeqCst), 1);
}

#[test]
fn try_build_sets_up_an_ordinary_app() {
    let transport = TestTransport::new();
    let mut app = App::new();
    app.insert_resource(SentryConfig::from_options(options(&transport)));
    let outcome = SentryIntegration::new()
        .register_context::<CharacterContext>(None)
        .try_build(&mut app);
    assert_eq!(outcome, Some(Ok(())));
    assert!(!app.world.contains_resource::<SentryConfig>());
    assert!(app.world.contains_resource::<Sentry>());
}

#[test]
fn try_build_leaves_an_app_without_update_stage_alone() {
    let transport = TestTransport::new();
    let mut app = App::empty();
    app.insert_resource(SentryConfig::from_options(options(&transport)));
    let outcome = SentryIntegration::new()
        .register_context::<CharacterContext>(None)
        .try_build(&mut app);
    assert_eq!(outcome, None);
    assert!(app.world.contains_resource::<SentryConfig>());
    assert!(!app.world.contains_resource::<Sentry>());
}

#[test]
fn try_build_reports_a_missing_config_without_update_stage() {
    let mut app = App::empty();
    let outcome = SentryIntegration::new().try_build(&mut app);
    assert_eq!(outcome, Some(Err(SetupError::MissingConfig)));
    assert!(!app.world.contains_resource::<Sentry>());
}
