use plugin_registry::config::RepositoryPluginManagerConfig;
use plugin_registry::errors::{PluginError, PluginFailure};
use plugin_registry::plugin::{RepositoryPlugin, RepositoryPluginBuild};
use plugin_registry::plugins::{EchoPluginBuilder, FixedPluginBuilder};
use plugin_registry::registry::find_first_match;

fn config(work_dir: &str, enabled: &[&str]) -> RepositoryPluginManagerConfig {
    RepositoryPluginManagerConfig::new(
        work_dir.to_string(),
        enabled.iter().map(|s| s.to_string()).collect(),
    )
}

fn fixed(name: &str, payload: &[u8]) -> FixedPluginBuilder {
    FixedPluginBuilder { plugin_name: name.to_string(), payload: payload.to_vec() }
}

#[test]
fn end_to_end_echo() {
    let cfg = config("/tmp/x", &["echo"]);
    let builders = vec![EchoPluginBuilder { plugin_name: "echo".to_string() }];
    let mut manager = cfg.create_plugin_manager(&builders).unwrap();
    assert_eq!(manager.plugin_count(), 1);
    let payload = manager.dispatch_get_request("echo", "foo", "bar=1").unwrap();
    assert_eq!(payload, b"foo?bar=1".to_vec());
    let miss = manager.dispatch_get_request("missing", "foo", "");
    match miss {
        Err(PluginError::NotFoundError { plugin_name }) => assert_eq!(plugin_name, "missing"),
        other => panic!("expected NotFoundError, got {:?}", other),
    }
}

#[test]
fn construction_fails_on_unknown_name() {
    let cfg = config("/tmp/x", &["alpha", "nope"]);
    let builders = vec![fixed("alpha", b"from-alpha")];
    match cfg.create_plugin_manager(&builders) {
        Err(PluginError::ConfigurationError { plugin_name }) => assert_eq!(plugin_name, "nope"),
        Ok(_) => panic!("expected ConfigurationError, got a registry"),
        Err(other) => panic!("expected ConfigurationError, got {:?}", other),
    }
}

#[test]
fn construction_reports_first_unknown_name() {
    let cfg = config("/tmp/x", &["ghost", "alpha", "phantom"]);
    let builders = vec![fixed("alpha", b"from-alpha")];
    match cfg.create_plugin_manager(&builders) {
        Err(PluginError::ConfigurationError { plugin_name }) => assert_eq!(plugin_name, "ghost"),
        Ok(_) => panic!("expected ConfigurationError, got a registry"),
        Err(other) => panic!("expected ConfigurationError, got {:?}", other),
    }
}

#[test]
fn construction_with_empty_enabled_list() {
    let cfg = config("/tmp/x", &[]);
    let builders: Vec<FixedPluginBuilder> = vec![fixed("alpha", b"a")];
    let mut manager = cfg.create_plugin_manager(&builders).unwrap();
    assert_eq!(manager.plugin_count(), 0);
    match manager.dispatch_get_request("alpha", "r", "q") {
        Err(PluginError::NotFoundError { plugin_name }) => assert_eq!(plugin_name, "alpha"),
        other => panic!("expected NotFoundError, got {:?}", other),
    }
}

#[test]
fn dispatch_routes_by_name_in_order() {
    let cfg = config("/tmp/x", &["alpha", "beta"]);
    let builders = vec![fixed("alpha", b"from-alpha"), fixed("beta", b"from-beta")];
    let mut manager = cfg.create_plugin_manager(&builders).unwrap();
    assert_eq!(manager.plugin_count(), 2);
    let a = manager.dispatch_get_request("alpha", "r", "q").unwrap();
    assert_eq!(a, b"from-alpha".to_vec());
    let b = manager.dispatch_get_request("beta", "r", "q").unwrap();
    assert_eq!(b, b"from-beta".to_vec());
}

#[test]
fn dispatch_routes_by_name_with_reversed_registration() {
    let cfg = config("/tmp/x", &["beta", "alpha"]);
    let builders = vec![fixed("alpha", b"from-alpha"), fixed("beta", b"from-beta")];
    let mut manager = cfg.create_plugin_manager(&builders).unwrap();
    let a = manager.dispatch_get_request("alpha", "r", "q").unwrap();
    assert_eq!(a, b"from-alpha".to_vec());
    let b = manager.dispatch_get_request("beta", "r", "q").unwrap();
    assert_eq!(b, b"from-beta".to_vec());
}

#[test]
fn duplicate_enabled_names_register_twice_and_first_wins() {
    let cfg = config("/tmp/x", &["dup", "dup"]);
    let builders = vec![fixed("dup", b"first"), fixed("dup", b"second")];
    let mut manager = cfg.create_plugin_manager(&builders).unwrap();
    assert_eq!(manager.plugin_count(), 2);
    let payload = manager.dispatch_get_request("dup", "r", "q").unwrap();
    assert_eq!(payload, b"first".to_vec());
}

struct FailingBuilder {
    plugin_name: String,
}

struct NeverPlugin;

impl RepositoryPlugin for NeverPlugin {
    fn get_plugin_resource(
        &mut self,
        _resource: &str,
        _query_string: &str,
    ) -> Result<Vec<u8>, PluginFailure> {
        panic!("a NeverPlugin is never built");
    }
}

impl RepositoryPluginBuild for FailingBuilder {
    type Built = NeverPlugin;

    fn get_plugin_name(&self) -> &str {
        self.plugin_name.as_str()
    }

    fn create_plugin(&self, _plugin_dir: &str) -> Result<Self::Built, PluginFailure> {
        Err(PluginFailure { message: "broken on purpose".to_string() })
    }
}

#[test]
fn construction_fails_when_a_builder_fails() {
    let cfg = config("/tmp/x", &["bad"]);
    let builders = vec![FailingBuilder { plugin_name: "bad".to_string() }];
    match cfg.create_plugin_manager(&builders) {
        Err(PluginError::BuildError { plugin_name, failure }) => {
            assert_eq!(plugin_name, "bad");
            assert_eq!(failure.message, "broken on purpose");
        },
        Ok(_) => panic!("expected BuildError, got a registry"),
        Err(other) => panic!("expected BuildError, got {:?}", other),
    }
}

struct SometimesPlugin;

impl RepositoryPlugin for SometimesPlugin {
    fn get_plugin_resource(
        &mut self,
        resource: &str,
        _query_string: &str,
    ) -> Result<Vec<u8>, PluginFailure> {
        if resource == "good" {
            Ok(b"fine".to_vec())
        } else {
            Err(PluginFailure { message: format!("no such resource: {}", resource) })
        }
    }
}

struct SometimesBuilder {
    plugin_name: String,
}

impl RepositoryPluginBuild for SometimesBuilder {
    type Built = SometimesPlugin;

    fn get_plugin_name(&self) -> &str {
        self.plugin_name.as_str()
    }

    fn create_plugin(&self, _plugin_dir: &str) -> Result<Self::Built, PluginFailure> {
        Ok(SometimesPlugin)
    }
}

#[test]
fn plugin_failure_surfaces_as_resolution_error() {
    let cfg = config("/tmp/x", &["flaky"]);
    let builders = vec![SometimesBuilder { plugin_name: "flaky".to_string() }];
    let mut manager = cfg.create_plugin_manager(&builders).unwrap();
    let ok = manager.dispatch_get_request("flaky", "good", "").unwrap();
    assert_eq!(ok, b"fine".to_vec());
    match manager.dispatch_get_request("flaky", "bad", "") {
        Err(PluginError::ResolutionError { failure }) => {
            assert_eq!(failure.message, "no such resource: bad");
        },
        other => panic!("expected ResolutionError, got {:?}", other),
    }
}

#[test]
fn find_first_match_picks_earliest() {
    let names = vec!["a".to_string(), "b".to_string(), "a".to_string()];
    assert_eq!(find_first_match(&names, "a"), Some(0));
    assert_eq!(find_first_match(&names, "b"), Some(1));
    assert_eq!(find_first_match(&names, "c"), None);
    assert_eq!(find_first_match(&Vec::new(), "a"), None);
}
