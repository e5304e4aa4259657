use vstd::prelude::*;
use crate::errors::PluginFailure;

verus! {

/// A live plugin: a named unit that answers a resource request with bytes
/// or fails with its own error.
///
/// Every access goes through `&mut self`: the registry grants at most one
/// caller at a time access to a plugin instance, so an implementation may
/// keep request-mutable state without further coordination.
pub trait RepositoryPlugin: Sized {
    /// What one resource request is promised to do: relates the instance
    /// before and after the call, the request, and the outcome.  The
    /// default promises nothing, so an implementation written outside the
    /// registry need not state one.
    open spec fn resource_ens(
        pre: Self,
        post: Self,
        resource: Seq<char>,
        query_string: Seq<char>,
        outcome: Result<Vec<u8>, PluginFailure>,
    ) -> bool {
        true
    }

    /// Answer a request for `resource` with query `query_string`, returning
    /// the resource payload or the plugin's own failure.
    fn get_plugin_resource(&mut self, resource: &str, query_string: &str) -> (r: Result<
        Vec<u8>,
        PluginFailure,
    >)
        ensures
            Self::resource_ens(*old(self), *final(self), resource@, query_string@, r),
    ;
}

/// A stateless factory that names and constructs one kind of plugin.
///
/// The set of available builders is fixed per host build; the registry
/// resolves each enabled plugin name against `get_plugin_name` and invokes
/// `create_plugin` with the plugin's private subdirectory.
pub trait RepositoryPluginBuild: Sized {
    /// The kind of plugin this builder constructs.
    type Built: RepositoryPlugin;

    /// The stable identity under which this builder's plugin is registered.
    /// The default leaves it unconstrained; a builder whose callers rely on
    /// name resolution states its name here.
    open spec fn spec_name(&self) -> Seq<char> {
        arbitrary()
    }

    /// What one construction call is promised to do: relates the plugin
    /// directory the builder was handed and the outcome.  The default
    /// promises nothing, so an implementation written outside the registry
    /// need not state one; a builder that cannot fail states `outcome is Ok`
    /// here, and registry construction then owes success wherever only such
    /// builders are consulted.
    open spec fn create_ens(
        &self,
        plugin_dir: Seq<char>,
        outcome: Result<Self::Built, PluginFailure>,
    ) -> bool {
        true
    }

    /// The name used to match this builder against an enabled plugin name.
    fn get_plugin_name(&self) -> (name: &str)
        ensures
            name@ == self.spec_name(),
    ;

    /// Construct and initialize a plugin instance rooted at `plugin_dir`.
    /// A failure aborts the whole registry construction.
    fn create_plugin(&self, plugin_dir: &str) -> (r: Result<Self::Built, PluginFailure>)
        ensures
            self.create_ens(plugin_dir@, r),
    ;
}

} // verus!
