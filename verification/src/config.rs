use vstd::prelude::*;

verus! {

/// Declarative input to registry construction: the root working directory
/// and the ordered list of plugin names to enable.
///
/// Every entry of `enabled_plugins` must match the name of exactly one
/// known builder, else construction fails; the order of the entries is the
/// order in which the constructed plugins are registered and scanned.
#[derive(Debug, Clone)]
pub struct RepositoryPluginManagerConfig {
    pub work_dir: String,
    pub enabled_plugins: Vec<String>,
}

impl RepositoryPluginManagerConfig {
    pub fn new(work_dir: String, enabled_plugins: Vec<String>) -> (config: Self)
        ensures
            config.work_dir == work_dir,
            config.enabled_plugins == enabled_plugins,
    {
        RepositoryPluginManagerConfig { work_dir, enabled_plugins }
    }
}

impl core::default::Default for RepositoryPluginManagerConfig {
    /// An empty configuration: no working directory, no enabled plugins.
    fn default() -> (config: Self)
        ensures
            config.work_dir@ == Seq::<char>::empty(),
            config.enabled_plugins@ == Seq::<String>::empty(),
    {
        RepositoryPluginManagerConfig { work_dir: String::new(), enabled_plugins: Vec::new() }
    }
}

} // verus!
