use vstd::prelude::*;
use vstd::string::StringExecFns;
use crate::config::RepositoryPluginManagerConfig;
use crate::errors::{PluginError, PluginFailure};
use crate::plugin::{RepositoryPlugin, RepositoryPluginBuild};

verus! {

/// Whether some entry of `names` is `name`.
pub open spec fn contains_name(names: Seq<Seq<char>>, name: Seq<char>) -> bool {
    exists|i: int| 0 <= i < names.len() && names[i] == name
}

/// Whether `i` is the first index of `names` whose entry is `name`.
pub open spec fn is_first_index_of(names: Seq<Seq<char>>, name: Seq<char>, i: int) -> bool {
    &&& 0 <= i < names.len()
    &&& names[i] == name
    &&& forall|j: int| 0 <= j < i ==> names[j] != name
}

/// Scan `names` in order for the first entry equal to `plugin_name`.
pub fn find_first_match(names: &Vec<String>, plugin_name: &str) -> (r: Option<usize>)
    ensures
        match r {
            Some(i) => is_first_index_of(names.deep_view(), plugin_name@, i as int),
            None => !contains_name(names.deep_view(), plugin_name@),
        },
{
    let needle: String = plugin_name.to_owned();
    let n = names.len();
    let mut idx: usize = 0;
    while idx < n
        invariant
            n == names@.len(),
            0 <= idx <= n,
            needle@ == plugin_name@,
            forall|j: int| 0 <= j < idx ==> names.deep_view()[j] != plugin_name@,
        decreases n - idx,
    {
        if needle == names[idx] {
            return Some(idx);
        }
        idx = idx + 1;
    }
    None
}

/// Dispatch targets are deterministic: a name has at most one
/// first-match position in a list of names.
pub proof fn lemma_first_index_unique(names: Seq<Seq<char>>, name: Seq<char>, i: int, j: int)
    requires
        is_first_index_of(names, name, i),
        is_first_index_of(names, name, j),
    ensures
        i == j,
{
}

/// A name borne by some entry has a first index: a scan for a registered
/// name always lands on its earliest holder, so dispatch of a registered
/// name never reports a miss.
pub proof fn lemma_contains_has_first_index(names: Seq<Seq<char>>, name: Seq<char>)
    requires
        contains_name(names, name),
    ensures
        exists|i: int| is_first_index_of(names, name, i),
{
    let k = choose|k: int| 0 <= k < names.len() && names[k] == name;
    lemma_first_index_below(names, name, k);
}

proof fn lemma_first_index_below(names: Seq<Seq<char>>, name: Seq<char>, k: int)
    requires
        0 <= k < names.len(),
        names[k] == name,
    ensures
        exists|i: int| is_first_index_of(names, name, i),
    decreases k,
{
    if forall|j: int| 0 <= j < k ==> names[j] != name {
        assert(is_first_index_of(names, name, k));
    } else {
        let j = choose|j: int| 0 <= j < k && names[j] == name;
        lemma_first_index_below(names, name, j);
    }
}

/// The immutable-membership collection of live plugins, supporting
/// name-based dispatch.
///
/// Each plugin's name is captured once, at construction time, from the
/// builder that made it, so a dispatch scan reads names without touching
/// the plugin instances themselves.  Membership never changes after
/// construction; only the plugin instances' own state does, one instance
/// per dispatch call at most.
pub struct RepositoryPluginManager<P> {
    names: Vec<String>,
    plugins: Vec<P>,
}

impl<P> RepositoryPluginManager<P> {
    /// The registered plugin names, in registration order.
    pub closed spec fn names(&self) -> Seq<Seq<char>> {
        self.names.deep_view()
    }

    /// The plugin instance at registration position `i`.
    pub closed spec fn plugin_at(&self, i: int) -> P {
        self.plugins@[i]
    }

    /// The two internal columns, names and instances, line up.
    pub closed spec fn well_formed(&self) -> bool {
        self.names@.len() == self.plugins@.len()
    }

    pub open spec fn num_plugins(&self) -> nat {
        self.names().len()
    }

    /// Whether some registered plugin bears `name`.
    pub open spec fn has_plugin(&self, name: Seq<char>) -> bool {
        contains_name(self.names(), name)
    }

    /// Whether `i` is the position of the earliest-registered plugin
    /// bearing `name`.
    pub open spec fn is_first_match(&self, name: Seq<char>, i: int) -> bool {
        is_first_index_of(self.names(), name, i)
    }

    /// How many plugins are registered.
    pub fn plugin_count(&self) -> (n: usize)
        ensures
            n == self.num_plugins(),
    {
        self.names.len()
    }

    /// An empty registry, with no plugins registered.
    fn empty() -> (manager: Self)
        ensures
            manager.well_formed(),
            manager.num_plugins() == 0,
    {
        RepositoryPluginManager { names: Vec::new(), plugins: Vec::new() }
    }

    /// Register one more plugin under `name`, after all current ones.
    fn register(&mut self, name: String, plugin: P)
        requires
            old(self).well_formed(),
        ensures
            final(self).well_formed(),
            final(self).names() == old(self).names().push(name@),
            forall|i: int|
                0 <= i < old(self).num_plugins() ==> final(self).plugin_at(i) == old(
                    self,
                ).plugin_at(i),
            final(self).plugin_at(old(self).num_plugins() as int) == plugin,
    {
        self.names.push(name);
        self.plugins.push(plugin);
        proof {
            assert(final(self).names() =~= old(self).names().push(name@));
        }
    }
}

impl<P: RepositoryPlugin> RepositoryPluginManager<P> {
    /// Route a request to the earliest-registered plugin named
    /// `plugin_name` and return that plugin's answer; report a miss as
    /// `NotFoundError`.
    ///
    /// Plugins are scanned in registration order and only the first match
    /// is consulted, so an earlier-registered plugin shadows any later one
    /// with the same name.  Every other plugin instance is left untouched,
    /// whatever the outcome.
    pub fn dispatch_get_request(
        &mut self,
        plugin_name: &str,
        resource: &str,
        query_string: &str,
    ) -> (r: Result<Vec<u8>, PluginError>)
        requires
            old(self).well_formed(),
        ensures
            final(self).well_formed(),
            final(self).names() == old(self).names(),
            !old(self).has_plugin(plugin_name@) ==> {
                &&& *final(self) == *old(self)
                &&& r matches Err(e) && (e matches PluginError::NotFoundError {
                    plugin_name: missing,
                } && missing@ == plugin_name@)
            },
            (r matches Err(e) && e matches PluginError::NotFoundError { .. }) ==> !old(
                self,
            ).has_plugin(plugin_name@),
            old(self).has_plugin(plugin_name@) ==> forall|i: int|
                old(self).is_first_match(plugin_name@, i) ==> {
                    &&& forall|j: int|
                        0 <= j < old(self).num_plugins() && j != i ==> final(self).plugin_at(j)
                            == old(self).plugin_at(j)
                    &&& match r {
                        Ok(payload) => P::resource_ens(
                            old(self).plugin_at(i),
                            final(self).plugin_at(i),
                            resource@,
                            query_string@,
                            Ok(payload),
                        ),
                        Err(e) => e matches PluginError::ResolutionError { failure }
                            && P::resource_ens(
                            old(self).plugin_at(i),
                            final(self).plugin_at(i),
                            resource@,
                            query_string@,
                            Err(failure),
                        ),
                    }
                },
    {
        match find_first_match(&self.names, plugin_name) {
            Some(idx) => {
                let plugin: &mut P = &mut self.plugins[idx];
                match plugin.get_plugin_resource(resource, query_string) {
                    Ok(payload) => Ok(payload),
                    Err(failure) => Err(PluginError::ResolutionError { failure }),
                }
            },
            None => {
                Err(PluginError::NotFoundError { plugin_name: plugin_name.to_owned() })
            },
        }
    }
}

/// The names of `builders`, in order.
pub open spec fn builder_names<B: RepositoryPluginBuild>(builders: Seq<B>) -> Seq<Seq<char>> {
    Seq::new(builders.len(), |i: int| builders[i].spec_name())
}

/// The private subdirectory under `work_dir` handed to the plugin named
/// `plugin_name`.
pub open spec fn plugin_dir_spec(work_dir: Seq<char>, plugin_name: Seq<char>) -> Seq<char> {
    work_dir + seq!['/'] + plugin_name
}

/// Whether `plugin` was produced, under `work_dir`, by the first builder
/// of `builders` bearing `name`.
pub open spec fn built_by_first_builder<B: RepositoryPluginBuild>(
    builders: Seq<B>,
    work_dir: Seq<char>,
    name: Seq<char>,
    plugin: B::Built,
) -> bool {
    exists|j: int|
        {
            &&& #[trigger] is_first_index_of(builder_names(builders), name, j)
            &&& builders[j].create_ens(plugin_dir_spec(work_dir, name), Ok(plugin))
        }
}

/// Whether `builder`, handed `plugin_dir`, promises that building cannot
/// fail.
pub open spec fn always_builds<B: RepositoryPluginBuild>(builder: B, plugin_dir: Seq<char>) -> bool {
    forall|outcome: Result<B::Built, PluginFailure>|
        #[trigger] builder.create_ens(plugin_dir, outcome) ==> outcome is Ok
}

/// Whether the first builder of `builders` bearing `name` exists and
/// promises, for its subdirectory of `work_dir`, that building cannot
/// fail.
pub open spec fn first_builder_always_builds<B: RepositoryPluginBuild>(
    builders: Seq<B>,
    work_dir: Seq<char>,
    name: Seq<char>,
) -> bool {
    exists|j: int|
        {
            &&& #[trigger] is_first_index_of(builder_names(builders), name, j)
            &&& always_builds(builders[j], plugin_dir_spec(work_dir, name))
        }
}

/// Compute the private subdirectory under `work_dir` for the plugin named
/// `plugin_name`.
pub fn plugin_dir(work_dir: &str, plugin_name: &str) -> (dir: String)
    ensures
        dir@ == plugin_dir_spec(work_dir@, plugin_name@),
{
    let mut dir: String = work_dir.to_owned();
    dir.append("/");
    dir.append(plugin_name);
    proof {
        reveal_strlit("/");
        assert(dir@ =~= plugin_dir_spec(work_dir@, plugin_name@));
    }
    dir
}

/// Read each builder's name once, in order.
fn builder_name_list<B: RepositoryPluginBuild>(builders: &Vec<B>) -> (names: Vec<String>)
    ensures
        names.deep_view() == builder_names(builders@),
{
    let mut names: Vec<String> = Vec::new();
    let n = builders.len();
    let mut idx: usize = 0;
    while idx < n
        invariant
            n == builders@.len(),
            0 <= idx <= n,
            names@.len() == idx,
            forall|j: int| 0 <= j < idx ==> names@[j]@ == builder_names(builders@)[j],
        decreases n - idx,
    {
        names.push(builders[idx].get_plugin_name().to_owned());
        idx = idx + 1;
    }
    proof {
        assert forall|j: int| 0 <= j < n implies names.deep_view()[j] == builder_names(
            builders@,
        )[j] by {
            assert(names.deep_view()[j] == names@[j]@);
        }
        assert(names.deep_view() =~= builder_names(builders@));
    }
    names
}

/// Whether every enabled name resolves to a builder that promises it
/// cannot fail; construction is owed success under this hypothesis.
pub open spec fn all_first_builders_always_build<B: RepositoryPluginBuild>(
    builders: Seq<B>,
    work_dir: Seq<char>,
    enabled: Seq<Seq<char>>,
) -> bool {
    forall|i: int|
        0 <= i < enabled.len() ==> #[trigger] first_builder_always_builds(
            builders,
            work_dir,
            enabled[i],
        )
}

/// The report owed when an enabled name matches no builder: `name` is an
/// unmatched entry of `enabled` and every entry before it is matched, so
/// it is the first entry the construction scan could not resolve.
pub open spec fn unmatched_first<B: RepositoryPluginBuild>(
    builders: Seq<B>,
    enabled: Seq<Seq<char>>,
    name: Seq<char>,
) -> bool {
    &&& !contains_name(builder_names(builders), name)
    &&& exists|i: int|
        {
            &&& 0 <= i < enabled.len()
            &&& #[trigger] enabled[i] == name
            &&& forall|j: int|
                0 <= j < i ==> contains_name(builder_names(builders), #[trigger] enabled[j])
        }
}

/// The report owed when a builder fails: `name` is an enabled entry whose
/// earlier entries are all matched, and `failure` is an outcome that the
/// first builder bearing `name` admits for its subdirectory of `work_dir`.
pub open spec fn build_failure_of_first_builder<B: RepositoryPluginBuild>(
    builders: Seq<B>,
    work_dir: Seq<char>,
    enabled: Seq<Seq<char>>,
    name: Seq<char>,
    failure: PluginFailure,
) -> bool {
    &&& exists|i: int|
        {
            &&& 0 <= i < enabled.len()
            &&& #[trigger] enabled[i] == name
            &&& forall|j: int|
                0 <= j < i ==> contains_name(builder_names(builders), #[trigger] enabled[j])
        }
    &&& exists|j: int|
        {
            &&& #[trigger] is_first_index_of(builder_names(builders), name, j)
            &&& builders[j].create_ens(plugin_dir_spec(work_dir, name), Err(failure))
        }
}

impl RepositoryPluginManagerConfig {
    /// Construct the registry this configuration describes: resolve each
    /// enabled plugin name, in order, to the first builder bearing it, and
    /// have that builder construct its plugin under the plugin's private
    /// subdirectory of `work_dir`.
    ///
    /// Construction is all-or-nothing.  A name with no matching builder
    /// aborts it with `ConfigurationError` naming the first such entry; a
    /// builder failure aborts it with `BuildError` naming the requested
    /// plugin and carrying that builder's own failure; no partially
    /// populated registry is ever returned.  On success the registry holds
    /// one plugin per enabled name, in the configured order; and success
    /// is owed whenever every enabled name resolves to a builder that
    /// promises it cannot fail.
    #[verifier::rlimit(60)]
    pub fn create_plugin_manager<B: RepositoryPluginBuild>(&self, builders: &Vec<B>) -> (r: Result<
        RepositoryPluginManager<B::Built>,
        PluginError,
    >)
        ensures
            r matches Ok(manager) ==> {
                &&& manager.well_formed()
                &&& manager.names() == self.enabled_plugins.deep_view()
                &&& forall|i: int|
                    0 <= i < self.enabled_plugins@.len() ==> contains_name(
                        builder_names(builders@),
                        #[trigger] self.enabled_plugins.deep_view()[i],
                    )
                &&& forall|i: int|
                    0 <= i < self.enabled_plugins@.len() ==> built_by_first_builder(
                        builders@,
                        self.work_dir@,
                        self.enabled_plugins.deep_view()[i],
                        #[trigger] manager.plugin_at(i),
                    )
            },
            (exists|i: int|
                0 <= i < self.enabled_plugins@.len() && !contains_name(
                    builder_names(builders@),
                    #[trigger] self.enabled_plugins.deep_view()[i],
                )) ==> r is Err,
            all_first_builders_always_build(
                builders@,
                self.work_dir@,
                self.enabled_plugins.deep_view(),
            ) ==> r is Ok,
            r matches Err(e) ==> match e {
                PluginError::ConfigurationError { plugin_name } => unmatched_first(
                    builders@,
                    self.enabled_plugins.deep_view(),
                    plugin_name@,
                ),
                PluginError::BuildError { plugin_name, failure } => build_failure_of_first_builder(
                    builders@,
                    self.work_dir@,
                    self.enabled_plugins.deep_view(),
                    plugin_name@,
                    failure,
                ),
                _ => false,
            },
    {
        let available: Vec<String> = builder_name_list(builders);
        let mut manager: RepositoryPluginManager<B::Built> = RepositoryPluginManager::empty();
        let n = self.enabled_plugins.len();
        let mut idx: usize = 0;
        while idx < n
            invariant
                n == self.enabled_plugins@.len(),
                0 <= idx <= n,
                available.deep_view() == builder_names(builders@),
                manager.well_formed(),
                manager.names() == self.enabled_plugins.deep_view().take(idx as int),
                forall|k: int|
                    0 <= k < idx ==> contains_name(
                        builder_names(builders@),
                        #[trigger] self.enabled_plugins.deep_view()[k],
                    ),
                forall|k: int|
                    0 <= k < idx ==> built_by_first_builder(
                        builders@,
                        self.work_dir@,
                        self.enabled_plugins.deep_view()[k],
                        #[trigger] manager.plugin_at(k),
                    ),
            decreases n - idx,
        {
            let plugin_name: &String = &self.enabled_plugins[idx];
            match find_first_match(&available, plugin_name.as_str()) {
                None => {
                    let cloned_name = plugin_name.clone();
                    proof {
                        let ghost requested = self.enabled_plugins.deep_view()[idx as int];
                        assert(requested == cloned_name@);
                        assert(unmatched_first(
                            builders@,
                            self.enabled_plugins.deep_view(),
                            cloned_name@,
                        ));
                        assert(!all_first_builders_always_build(
                            builders@,
                            self.work_dir@,
                            self.enabled_plugins.deep_view(),
                        )) by {
                            if first_builder_always_builds(
                                builders@,
                                self.work_dir@,
                                self.enabled_plugins.deep_view()[idx as int],
                            ) {
                                assert(contains_name(builder_names(builders@), requested));
                            }
                        }
                    }
                    return Err(PluginError::ConfigurationError { plugin_name: cloned_name });
                },
                Some(j) => {
                    let dir = plugin_dir(self.work_dir.as_str(), builders[j].get_plugin_name());
                    match builders[j].create_plugin(dir.as_str()) {
                        Ok(built) => {
                            let ghost pre_manager = manager;
                            manager.register(plugin_name.clone(), built);
                            proof {
                                assert(manager.names() =~= self.enabled_plugins.deep_view().take(
                                    idx as int + 1,
                                ));
                                assert(self.enabled_plugins.deep_view()[idx as int]
                                    == plugin_name@);
                                assert(contains_name(
                                    builder_names(builders@),
                                    self.enabled_plugins.deep_view()[idx as int],
                                ));
                                assert forall|k: int|
                                    #![trigger manager.plugin_at(k)]
                                    0 <= k < idx + 1 implies built_by_first_builder(
                                    builders@,
                                    self.work_dir@,
                                    self.enabled_plugins.deep_view()[k],
                                    manager.plugin_at(k),
                                ) by {
                                    if k < idx {
                                        assert(manager.plugin_at(k) == pre_manager.plugin_at(k));
                                    } else {
                                        assert(manager.plugin_at(k) == built);
                                        assert(is_first_index_of(
                                            builder_names(builders@),
                                            self.enabled_plugins.deep_view()[k],
                                            j as int,
                                        ));
                                        assert(builders@[j as int].create_ens(
                                            plugin_dir_spec(
                                                self.work_dir@,
                                                self.enabled_plugins.deep_view()[k],
                                            ),
                                            Ok(manager.plugin_at(k)),
                                        ));
                                    }
                                }
                            }
                        },
                        Err(failure) => {
                            let cloned_name = plugin_name.clone();
                            proof {
                                let ghost requested = self.enabled_plugins.deep_view()[
                                    idx as int
                                ];
                                assert(requested == cloned_name@);
                                assert(is_first_index_of(
                                    builder_names(builders@),
                                    cloned_name@,
                                    j as int,
                                ));
                                assert(builders@[j as int].create_ens(
                                    plugin_dir_spec(self.work_dir@, cloned_name@),
                                    Err(failure),
                                ));
                                assert(build_failure_of_first_builder(
                                    builders@,
                                    self.work_dir@,
                                    self.enabled_plugins.deep_view(),
                                    cloned_name@,
                                    failure,
                                ));
                                assert(!all_first_builders_always_build(
                                    builders@,
                                    self.work_dir@,
                                    self.enabled_plugins.deep_view(),
                                )) by {
                                    if first_builder_always_builds(
                                        builders@,
                                        self.work_dir@,
                                        requested,
                                    ) {
                                        let j2 = choose|j2: int|
                                            {
                                                &&& #[trigger] is_first_index_of(
                                                    builder_names(builders@),
                                                    requested,
                                                    j2,
                                                )
                                                &&& always_builds(
                                                    builders@[j2],
                                                    plugin_dir_spec(self.work_dir@, requested),
                                                )
                                            };
                                        lemma_first_index_unique(
                                            builder_names(builders@),
                                            requested,
                                            j2,
                                            j as int,
                                        );
                                        assert(false);
                                    }
                                }
                            }
                            return Err(
                                PluginError::BuildError { plugin_name: cloned_name, failure },
                            );
                        },
                    }
                },
            }
            idx = idx + 1;
        }
        proof {
            assert(manager.names() =~= self.enabled_plugins.deep_view());
        }
        Ok(manager)
    }
}

} // verus!
