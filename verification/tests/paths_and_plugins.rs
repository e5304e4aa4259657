use plugin_registry::config::RepositoryPluginManagerConfig;
use plugin_registry::plugin::{RepositoryPlugin, RepositoryPluginBuild};
use plugin_registry::plugins::{EchoPlugin, EchoPluginBuilder, FixedPlugin, FixedPluginBuilder};
use plugin_registry::registry::plugin_dir;

#[test]
fn plugin_dir_joins_with_a_slash() {
    assert_eq!(plugin_dir("/tmp/x", "echo"), "/tmp/x/echo");
    assert_eq!(plugin_dir("", "p"), "/p");
    assert_eq!(plugin_dir("w", ""), "w/");
}

#[test]
fn echo_response_joins_resource_and_query() {
    assert_eq!(EchoPlugin::echo_response("foo", "bar=1"), b"foo?bar=1".to_vec());
    assert_eq!(EchoPlugin::echo_response("", ""), b"?".to_vec());
}

#[test]
fn echo_plugin_answers_through_the_trait() {
    let builder = EchoPluginBuilder { plugin_name: "echo".to_string() };
    assert_eq!(builder.get_plugin_name(), "echo");
    let mut plugin = builder.create_plugin("/tmp/x/echo").unwrap();
    let payload = plugin.get_plugin_resource("a/b", "k=v").unwrap();
    assert_eq!(payload, b"a/b?k=v".to_vec());
}

#[test]
fn fixed_plugin_ignores_the_request() {
    let builder = FixedPluginBuilder { plugin_name: "fixed".to_string(), payload: b"data".to_vec() };
    assert_eq!(builder.get_plugin_name(), "fixed");
    let mut plugin: FixedPlugin = builder.create_plugin("/tmp/x/fixed").unwrap();
    assert_eq!(plugin.get_plugin_resource("r1", "q1").unwrap(), b"data".to_vec());
    assert_eq!(plugin.get_plugin_resource("r2", "q2").unwrap(), b"data".to_vec());
}

#[test]
fn config_holds_what_it_was_given() {
    let cfg = RepositoryPluginManagerConfig::new(
        "/srv/plugins".to_string(),
        vec!["a".to_string(), "b".to_string()],
    );
    assert_eq!(cfg.work_dir, "/srv/plugins");
    assert_eq!(cfg.enabled_plugins, vec!["a".to_string(), "b".to_string()]);
}

#[test]
fn default_config_is_empty() {
    let cfg = RepositoryPluginManagerConfig::default();
    assert_eq!(cfg.work_dir, "");
    assert!(cfg.enabled_plugins.is_empty());
}
