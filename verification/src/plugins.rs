use vstd::prelude::*;
use vstd::string::{StrSliceExecFns, StringExecFns};
use vstd::utf8::encode_utf8;
use crate::errors::PluginFailure;
use crate::plugin::{RepositoryPlugin, RepositoryPluginBuild};

verus! {

/// The answer of an echo plugin: the requested resource and the query
/// string, joined by `'?'`, as UTF-8 bytes.
pub open spec fn echo_payload(resource: Seq<char>, query_string: Seq<char>) -> Seq<u8> {
    encode_utf8(resource + seq!['?'] + query_string)
}

/// A stateless plugin that answers every request by echoing it back:
/// the payload for `(resource, query_string)` is `resource?query_string`.
pub struct EchoPlugin {
}

impl EchoPlugin {
    /// Compute the echoed payload for one request.
    pub fn echo_response(resource: &str, query_string: &str) -> (payload: Vec<u8>)
        ensures
            payload@ == echo_payload(resource@, query_string@),
    {
        let mut text: String = resource.to_owned();
        text.append("?");
        text.append(query_string);
        let payload = text.as_str().as_bytes_vec();
        proof {
            reveal_strlit("?");
            assert(text@ =~= resource@ + seq!['?'] + query_string@);
        }
        payload
    }
}

impl RepositoryPlugin for EchoPlugin {
    open spec fn resource_ens(
        pre: Self,
        post: Self,
        resource: Seq<char>,
        query_string: Seq<char>,
        outcome: Result<Vec<u8>, PluginFailure>,
    ) -> bool {
        &&& post == pre
        &&& outcome matches Ok(payload) && payload@ == echo_payload(resource, query_string)
    }

    fn get_plugin_resource(&mut self, resource: &str, query_string: &str) -> (r: Result<
        Vec<u8>,
        PluginFailure,
    >) {
        Ok(EchoPlugin::echo_response(resource, query_string))
    }
}

/// A builder for [`EchoPlugin`], registered under a configurable name.
/// The plugin needs no working directory, so building always succeeds.
pub struct EchoPluginBuilder {
    pub plugin_name: String,
}

impl RepositoryPluginBuild for EchoPluginBuilder {
    type Built = EchoPlugin;

    open spec fn spec_name(&self) -> Seq<char> {
        self.plugin_name@
    }

    open spec fn create_ens(
        &self,
        plugin_dir: Seq<char>,
        outcome: Result<Self::Built, PluginFailure>,
    ) -> bool {
        outcome is Ok
    }

    fn get_plugin_name(&self) -> (name: &str) {
        self.plugin_name.as_str()
    }

    fn create_plugin(&self, plugin_dir: &str) -> (r: Result<Self::Built, PluginFailure>) {
        Ok(EchoPlugin {  })
    }
}

/// A stateless plugin that answers every request with one fixed payload,
/// whatever the resource and query string.
pub struct FixedPlugin {
    pub payload: Vec<u8>,
}

impl RepositoryPlugin for FixedPlugin {
    open spec fn resource_ens(
        pre: Self,
        post: Self,
        resource: Seq<char>,
        query_string: Seq<char>,
        outcome: Result<Vec<u8>, PluginFailure>,
    ) -> bool {
        &&& post == pre
        &&& outcome matches Ok(payload) && payload@ == pre.payload@
    }

    fn get_plugin_resource(&mut self, resource: &str, query_string: &str) -> (r: Result<
        Vec<u8>,
        PluginFailure,
    >) {
        Ok(vstd::slice::slice_to_vec(self.payload.as_slice()))
    }
}

/// A builder for [`FixedPlugin`]: registered under a configurable name,
/// it hands every built plugin a copy of one configured payload.
pub struct FixedPluginBuilder {
    pub plugin_name: String,
    pub payload: Vec<u8>,
}

impl RepositoryPluginBuild for FixedPluginBuilder {
    type Built = FixedPlugin;

    open spec fn spec_name(&self) -> Seq<char> {
        self.plugin_name@
    }

    open spec fn create_ens(
        &self,
        plugin_dir: Seq<char>,
        outcome: Result<Self::Built, PluginFailure>,
    ) -> bool {
        outcome matches Ok(built) && built.payload@ == self.payload@
    }

    fn get_plugin_name(&self) -> (name: &str) {
        self.plugin_name.as_str()
    }

    fn create_plugin(&self, plugin_dir: &str) -> (r: Result<Self::Built, PluginFailure>) {
        Ok(FixedPlugin { payload: vstd::slice::slice_to_vec(self.payload.as_slice()) })
    }
}

} // verus!
