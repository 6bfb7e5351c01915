use vstd::prelude::*;

use crate::command::plugin_marker;
use crate::config::{lookup, ConfigModel, ConfigValue};
use crate::destination::{
    artifact_name, dest_crate_name_and_path, destination_parent, destination_path_key,
    joined_path, parent_directory, parent_path, path_join, policy_of, DestCrate, PlacementPolicy,
};
use crate::error::GluegunError;
use crate::handshake::{config_json, encode_config, handshake, handshake_text};
use crate::merge::{merge_metadata, merge_metadata_spec, merged_entry, same_kind};
use crate::package::Package;

verus! {

/// How a plugin process ended.
#[derive(Debug, Clone, Copy, PartialEq, Eq, Structural)]
pub struct PluginExit {
    /// Whether the process reported success.
    pub success: bool,
    /// The exit code, absent when a signal ended the process.
    pub code: Option<i32>,
}

/// Why running a plugin process failed, by step.
#[derive(Debug, PartialEq)]
pub enum DispatchFailure {
    /// The command builder failed.
    Command(String),
    /// The process could not be started.
    Spawn(String),
    /// The process offered no input stream.
    StdinUnavailable,
    /// Writing the handshake failed.
    Write(String),
    /// Waiting for the process failed.
    Wait(String),
}

/// `e` is the error of a failed dispatch of `plugin`, naming the step.
pub open spec fn is_dispatch_error(plugin: Seq<char>, failure: DispatchFailure, e: GluegunError) -> bool {
    match (failure, e) {
        (DispatchFailure::Command(c), GluegunError::PluginCommandFailed { plugin: p, cause }) => p@
            == plugin && cause == c,
        (DispatchFailure::Spawn(c), GluegunError::ProcessSpawnFailed { plugin: p, cause }) => p@
            == plugin && cause == c,
        (DispatchFailure::StdinUnavailable, GluegunError::StdinUnavailable { plugin: p }) => p@
            == plugin,
        (DispatchFailure::Write(c), GluegunError::HandshakeWriteFailed { plugin: p, cause }) => p@
            == plugin && cause == c,
        (DispatchFailure::Wait(c), GluegunError::ProcessWaitFailed { plugin: p, cause }) => p@
            == plugin && cause == c,
        _ => false,
    }
}

/// The error of a failed dispatch of `plugin`.
pub fn dispatch_error(plugin: &String, failure: DispatchFailure) -> (r: GluegunError)
    ensures
        is_dispatch_error(plugin@, failure, r),
{
    let plugin = plugin.clone();
    match failure {
        DispatchFailure::Command(cause) => GluegunError::PluginCommandFailed { plugin, cause },
        DispatchFailure::Spawn(cause) => GluegunError::ProcessSpawnFailed { plugin, cause },
        DispatchFailure::StdinUnavailable => GluegunError::StdinUnavailable { plugin },
        DispatchFailure::Write(cause) => GluegunError::HandshakeWriteFailed { plugin, cause },
        DispatchFailure::Wait(cause) => GluegunError::ProcessWaitFailed { plugin, cause },
    }
}

/// The outside work of an orchestration run: extracting interface
/// descriptions and running plugin processes. Nothing is assumed of what
/// these return; the step functions below say what follows from each result.
pub trait Environment {
    /// Extracts the interface description of `package`, whose root is
    /// `package_dir`, from `entry_file`; gives its JSON text, or the cause of
    /// the failure.
    fn extract_idl(&mut self, package: &Package, package_dir: &String, entry_file: &String) -> Result<
        String,
        String,
    >;

    /// Builds the command for `plugin` from the effective `gluegun`
    /// configuration, runs it with `marker` as its last argument, writes
    /// `handshake` to its input, closes the input and waits for it.
    fn run_plugin(
        &mut self,
        plugin: &String,
        gluegun_config: &ConfigValue,
        marker: &String,
        handshake: &String,
    ) -> Result<PluginExit, DispatchFailure>;
}

/// The configuration key under which the tool's configuration lives.
pub open spec fn gluegun_key() -> Seq<char> {
    seq!['g', 'l', 'u', 'e', 'g', 'u', 'n']
}

/// The subtree under `key` of an optional tree.
pub open spec fn lookup_in(m: Option<ConfigModel>, key: Seq<char>) -> Option<ConfigModel> {
    match m {
        Some(t) => lookup(t, key),
        None => None,
    }
}

/// A run needs at least one package and at least one plugin.
pub fn check_selection(n_selected: usize, plugins: &Vec<String>) -> (r: Result<(), GluegunError>)
    ensures
        n_selected == 0 ==> r matches Err(GluegunError::SelectionEmpty),
        n_selected > 0 && plugins.len() == 0 ==> r matches Err(GluegunError::PluginListEmpty),
        n_selected > 0 && plugins.len() > 0 ==> r is Ok,
{
    if n_selected == 0 {
        Err(GluegunError::SelectionEmpty)
    } else if plugins.len() == 0 {
        Err(GluegunError::PluginListEmpty)
    } else {
        Ok(())
    }
}

/// Only local packages can be processed.
pub fn check_local(package: &Package) -> (r: Result<(), GluegunError>)
    ensures
        package.source is None ==> r is Ok,
        package.source is Some ==> match r {
            Err(GluegunError::NonLocalPackage { name }) => name@ == package.name@,
            _ => false,
        },
{
    match package.source {
        None => Ok(()),
        Some(_) => Err(GluegunError::NonLocalPackage { name: package.name.clone() }),
    }
}

/// The effective configuration of one plugin run: the tool's configuration
/// and the plugin's own.
pub struct EffectiveConfig {
    pub gluegun: ConfigValue,
    pub plugin: ConfigValue,
}

/// Merges the workspace's and the package's configuration twice: the
/// `gluegun` trees, then the trees under the plugin's name inside each of
/// them.
pub fn effective_config(workspace_metadata: &ConfigValue, package: &Package, plugin: &String) -> (r:
    Result<EffectiveConfig, GluegunError>)
    requires
        workspace_metadata@.wf(),
        package.metadata@.wf(),
    ensures
        ({
            let ws = lookup(workspace_metadata@, gluegun_key());
            let pk = lookup(package.metadata@, gluegun_key());
            let ws_plugin = lookup_in(ws, plugin@);
            let pk_plugin = lookup_in(pk, plugin@);
            &&& r is Ok <==> (mergeable(ws, pk) && mergeable(ws_plugin, pk_plugin))
            &&& r matches Ok(c) ==> merge_metadata_spec(ws, pk, c.gluegun@) && merge_metadata_spec(
                ws_plugin,
                pk_plugin,
                c.plugin@,
            ) && c.gluegun@.wf() && c.plugin@.wf()
            &&& match r {
                Ok(_) => true,
                Err(GluegunError::ConfigMergeConflict { workspace: w, package: p }) => if !mergeable(
                    ws,
                    pk,
                ) {
                    ws == Some(w@) && pk == Some(p@)
                } else {
                    ws_plugin == Some(w@) && pk_plugin == Some(p@)
                },
                Err(_) => false,
            }
        }),
{
    let key = "gluegun".to_owned();
    proof {
        reveal_strlit("gluegun");
        assert(key@ =~= gluegun_key());
    }
    let ws = workspace_metadata.get(&key);
    let pk = package.metadata.get(&key);
    let gluegun = match merge_metadata(ws, pk) {
        Ok(v) => v,
        Err(e) => return Err(e),
    };
    let ws_plugin = match ws {
        Some(t) => t.get(plugin),
        None => None,
    };
    let pk_plugin = match pk {
        Some(t) => t.get(plugin),
        None => None,
    };
    let plugin_config = match merge_metadata(ws_plugin, pk_plugin) {
        Ok(v) => v,
        Err(e) => return Err(e),
    };
    Ok(EffectiveConfig { gluegun, plugin: plugin_config })
}

/// Two optional trees can be merged: one is absent or both have one kind.
pub open spec fn mergeable(workspace: Option<ConfigModel>, package: Option<ConfigModel>) -> bool {
    match (workspace, package) {
        (Some(w), Some(p)) => same_kind(w, p),
        _ => true,
    }
}

/// Whether a plugin's exit ends its run successfully.
pub fn exit_outcome(plugin: &String, exit: PluginExit) -> (r: Result<(), GluegunError>)
    ensures
        exit.success ==> r is Ok,
        !exit.success ==> match r {
            Err(GluegunError::PluginNonZeroExit { plugin: p, code }) => p@ == plugin@ && code
                == exit.code,
            _ => false,
        },
{
    if exit.success {
        Ok(())
    } else {
        Err(GluegunError::PluginNonZeroExit { plugin: plugin.clone(), code: exit.code })
    }
}



/// The subtree under `key` of the merge of two optional trees, read off the
/// two trees themselves.
pub open spec fn merged_lookup(
    workspace: Option<ConfigModel>,
    package: Option<ConfigModel>,
    key: Seq<char>,
) -> Option<ConfigModel> {
    match (workspace, package) {
        (Some(ConfigModel::Object(a)), Some(ConfigModel::Object(b))) => merged_entry(a, b, key),
        (_, Some(p)) => lookup(p, key),
        (Some(w), None) => lookup(w, key),
        (None, None) => None,
    }
}

proof fn lemma_merged_lookup(
    workspace: Option<ConfigModel>,
    package: Option<ConfigModel>,
    merged: ConfigModel,
    key: Seq<char>,
)
    requires
        mergeable(workspace, package),
        merge_metadata_spec(workspace, package, merged),
    ensures
        lookup(merged, key) == merged_lookup(workspace, package, key),
{
}

/// What one cycle hands to its plugin.
#[derive(Debug, PartialEq)]
pub struct CyclePlan {
    /// The effective `gluegun` configuration, from which the command is built.
    pub gluegun: ConfigValue,
    /// The effective configuration of the plugin, sent as `metadata`.
    pub plugin_config: ConfigValue,
    /// The crate that the plugin generates.
    pub dest: DestCrate,
    /// The plugin's last argument.
    pub marker: String,
    /// The handshake document written to the plugin's input.
    pub document: String,
}

/// The outcome of planning a cycle of `plugin` on `package`, once the
/// interface `idl` is extracted: a merge conflict, an unrecognised
/// placement, a missing parent directory, or the plan.
pub open spec fn plan_outcome(
    r: Result<CyclePlan, GluegunError>,
    idl: Seq<char>,
    workspace_metadata: ConfigModel,
    package: Package,
    plugin: Seq<char>,
) -> bool {
    let ws = lookup(workspace_metadata, gluegun_key());
    let pk = lookup(package.metadata@, gluegun_key());
    let ws_plugin = lookup_in(ws, plugin);
    let pk_plugin = lookup_in(pk, plugin);
    if !mergeable(ws, pk) {
        match r {
            Err(GluegunError::ConfigMergeConflict { workspace: w, package: p }) => ws == Some(w@)
                && pk == Some(p@),
            _ => false,
        }
    } else if !mergeable(ws_plugin, pk_plugin) {
        match r {
            Err(GluegunError::ConfigMergeConflict { workspace: w, package: p }) => ws_plugin == Some(
                w@,
            ) && pk_plugin == Some(p@),
            _ => false,
        }
    } else {
        match policy_of(merged_lookup(ws, pk, destination_path_key())) {
            None => match r {
                Err(GluegunError::UnsupportedPlacementPolicy { value }) => merged_lookup(
                    ws,
                    pk,
                    destination_path_key(),
                ) == Some(value@),
                _ => false,
            },
            Some(policy) => match destination_parent(policy, package.manifest_path@) {
                None => match r {
                    Err(GluegunError::PathComputationFailed { manifest_path: m }) => m@
                        == package.manifest_path@,
                    _ => false,
                },
                Some(dir) => match r {
                    Ok(plan) => {
                        &&& merge_metadata_spec(ws, pk, plan.gluegun@)
                        &&& merge_metadata_spec(ws_plugin, pk_plugin, plan.plugin_config@)
                        &&& plan.dest.crate_name@ == artifact_name(package.name@, plugin)
                        &&& plan.dest.path@ == joined_path(dir, plan.dest.crate_name@)
                        &&& plan.marker@ == seq!['g', 'g', '-'] + plugin
                        &&& plan.document@ == handshake_text(
                            idl,
                            config_json(plan.plugin_config@),
                            plan.dest.crate_name@,
                            plan.dest.path@,
                        )
                    },
                    Err(_) => false,
                },
            },
        }
    }
}

/// Plans a cycle of `plugin` on `package` from its extracted interface:
/// merges the configuration at both levels, places the generated crate and
/// writes the handshake.
pub fn prepare_cycle(
    idl_json: &String,
    workspace_metadata: &ConfigValue,
    package: &Package,
    plugin: &String,
) -> (r: Result<CyclePlan, GluegunError>)
    requires
        workspace_metadata@.wf(),
        package.metadata@.wf(),
    ensures
        plan_outcome(r, idl_json@, workspace_metadata@, *package, plugin@),
{
    let config = match effective_config(workspace_metadata, package, plugin) {
        Ok(c) => c,
        Err(e) => return Err(e),
    };
    proof {
        let ws = lookup(workspace_metadata@, gluegun_key());
        let pk = lookup(package.metadata@, gluegun_key());
        lemma_merged_lookup(ws, pk, config.gluegun@, destination_path_key());
    }
    let dest = match dest_crate_name_and_path(plugin.as_str(), &config.gluegun, package) {
        Ok(d) => d,
        Err(e) => return Err(e),
    };
    let metadata_json = encode_config(&config.plugin);
    let document = handshake(idl_json.as_str(), metadata_json.as_str(), &dest);
    let marker = plugin_marker(plugin.as_str());
    Ok(CyclePlan { gluegun: config.gluegun, plugin_config: config.plugin, dest, marker, document })
}

/// One cycle of a run: the positions of its package and of its plugin.
#[derive(Debug, Clone, Copy, PartialEq, Eq, Structural)]
pub struct Cycle {
    pub package: usize,
    pub plugin: usize,
}

/// The cycle after `c`: the next plugin on the same package, else the first
/// plugin on the next package, else none.
pub open spec fn next_cycle(c: Cycle, n_packages: nat, n_plugins: nat) -> Option<Cycle> {
    if c.plugin + 1 < n_plugins {
        Some(Cycle { package: c.package, plugin: (c.plugin + 1) as usize })
    } else if c.package + 1 < n_packages {
        Some(Cycle { package: (c.package + 1) as usize, plugin: 0 })
    } else {
        None
    }
}

/// What a run does next.
#[derive(Debug, PartialEq)]
pub enum Action {
    /// Extract the interface of the cycle's package.
    Extract { cycle: Cycle, package_dir: String, entry_file: String },
    /// Run the cycle's plugin with this plan.
    Dispatch { cycle: Cycle, plan: CyclePlan },
    /// The run is over, with this result.
    Finish(Result<(), GluegunError>),
}

/// `a` begins cycle `c`: a package from outside the workspace, or one whose
/// manifest has no directory, ends the run; otherwise its interface is
/// extracted from `src/lib.rs` in the manifest's directory.
pub open spec fn begins(a: Action, selected: Seq<Package>, c: Cycle) -> bool {
    let p = selected[c.package as int];
    if p.source is Some {
        match a {
            Action::Finish(Err(GluegunError::NonLocalPackage { name })) => name@ == p.name@,
            _ => false,
        }
    } else {
        match parent_path(p.manifest_path@) {
            None => match a {
                Action::Finish(Err(GluegunError::PathComputationFailed { manifest_path: m })) => m@
                    == p.manifest_path@,
                _ => false,
            },
            Some(dir) => match a {
                Action::Extract { cycle, package_dir, entry_file } => cycle == c && package_dir@
                    == dir && entry_file@ == joined_path(dir, "src/lib.rs"@),
                _ => false,
            },
        }
    }
}

/// Begins cycle `cycle`.
pub fn begin_cycle(selected: &Vec<Package>, cycle: Cycle) -> (a: Action)
    requires
        cycle.package < selected.len(),
    ensures
        begins(a, selected@, cycle),
{
    let package = &selected[cycle.package];
    if let Err(e) = check_local(package) {
        return Action::Finish(Err(e));
    }
    match parent_directory(PlacementPolicy::Child, package.manifest_path.as_str()) {
        Some(package_dir) => {
            let entry_file = path_join(package_dir.as_str(), "src/lib.rs");
            Action::Extract { cycle, package_dir, entry_file }
        },
        None => Action::Finish(
            Err(GluegunError::PathComputationFailed { manifest_path: package.manifest_path.clone() }),
        ),
    }
}

/// Starts a run: an empty selection or an empty plugin list ends it at
/// once; otherwise it begins with the first plugin on the first package.
pub fn start(selected: &Vec<Package>, plugins: &Vec<String>) -> (a: Action)
    ensures
        selected.len() == 0 ==> (a matches Action::Finish(Err(GluegunError::SelectionEmpty))),
        selected.len() > 0 && plugins.len() == 0 ==> (a matches Action::Finish(
            Err(GluegunError::PluginListEmpty),
        )),
        selected.len() > 0 && plugins.len() > 0 ==> begins(
            a,
            selected@,
            Cycle { package: 0, plugin: 0 },
        ),
{
    if let Err(e) = check_selection(selected.len(), plugins) {
        return Action::Finish(Err(e));
    }
    begin_cycle(selected, Cycle { package: 0, plugin: 0 })
}

/// Continues cycle `cycle` once extraction from `entry_file` has given
/// `extracted`: a failure ends the run; otherwise the cycle is planned, and
/// the run ends with the planning error or dispatches the plan.
pub fn on_extracted(
    workspace_metadata: &ConfigValue,
    selected: &Vec<Package>,
    plugins: &Vec<String>,
    cycle: Cycle,
    entry_file: String,
    extracted: Result<String, String>,
) -> (a: Action)
    requires
        workspace_metadata@.wf(),
        forall|i: int| 0 <= i < selected.len() ==> (#[trigger] selected@[i]).metadata@.wf(),
        cycle.package < selected.len(),
        cycle.plugin < plugins.len(),
    ensures
        match extracted {
            Err(cause) => match a {
                Action::Finish(Err(GluegunError::IdlExtractionFailed { entry_file: e, cause: c })) => e
                    == entry_file && c == cause,
                _ => false,
            },
            Ok(idl) => match a {
                Action::Finish(Err(e)) => plan_outcome(
                    Err(e),
                    idl@,
                    workspace_metadata@,
                    selected@[cycle.package as int],
                    plugins@[cycle.plugin as int]@,
                ),
                Action::Dispatch { cycle: c, plan } => c == cycle && plan_outcome(
                    Ok(plan),
                    idl@,
                    workspace_metadata@,
                    selected@[cycle.package as int],
                    plugins@[cycle.plugin as int]@,
                ),
                _ => false,
            },
        },
{
    match extracted {
        Err(cause) => Action::Finish(Err(GluegunError::IdlExtractionFailed { entry_file, cause })),
        Ok(idl) => match prepare_cycle(
            &idl,
            workspace_metadata,
            &selected[cycle.package],
            &plugins[cycle.plugin],
        ) {
            Ok(plan) => Action::Dispatch { cycle, plan },
            Err(e) => Action::Finish(Err(e)),
        },
    }
}

/// Continues after the plugin of cycle `cycle` ran with result `exited`: a
/// failure ends the run with its error; a successful exit begins the next
/// cycle, packages outermost, or ends the run successfully after the last.
pub fn on_exited(
    selected: &Vec<Package>,
    plugins: &Vec<String>,
    cycle: Cycle,
    exited: Result<PluginExit, DispatchFailure>,
) -> (a: Action)
    requires
        cycle.package < selected.len(),
        cycle.plugin < plugins.len(),
    ensures
        match exited {
            Err(f) => match a {
                Action::Finish(Err(e)) => is_dispatch_error(plugins@[cycle.plugin as int]@, f, e),
                _ => false,
            },
            Ok(exit) => if !exit.success {
                match a {
                    Action::Finish(Err(GluegunError::PluginNonZeroExit { plugin: p, code })) => p@
                        == plugins@[cycle.plugin as int]@ && code == exit.code,
                    _ => false,
                }
            } else {
                match next_cycle(cycle, selected.len() as nat, plugins.len() as nat) {
                    Some(c) => begins(a, selected@, c),
                    None => a matches Action::Finish(Ok(())),
                }
            },
        },
{
    let plugin = &plugins[cycle.plugin];
    match exited {
        Err(f) => Action::Finish(Err(dispatch_error(plugin, f))),
        Ok(exit) => {
            if let Err(e) = exit_outcome(plugin, exit) {
                return Action::Finish(Err(e));
            }
            if cycle.plugin + 1 < plugins.len() {
                begin_cycle(selected, Cycle { package: cycle.package, plugin: cycle.plugin + 1 })
            } else if cycle.package + 1 < selected.len() {
                begin_cycle(selected, Cycle { package: cycle.package + 1, plugin: 0 })
            } else {
                Action::Finish(Ok(()))
            }
        },
    }
}


/// A cycle of `plugin` on `package` can reach its plugin: the package is
/// local, both merges are possible, the placement is recognised and the
/// destination has a parent directory.
pub open spec fn plannable(workspace_metadata: ConfigModel, package: Package, plugin: Seq<char>) -> bool {
    let ws = lookup(workspace_metadata, gluegun_key());
    let pk = lookup(package.metadata@, gluegun_key());
    &&& package.source is None
    &&& mergeable(ws, pk)
    &&& mergeable(lookup_in(ws, plugin), lookup_in(pk, plugin))
    &&& match policy_of(merged_lookup(ws, pk, destination_path_key())) {
        Some(policy) => destination_parent(policy, package.manifest_path@) is Some,
        None => false,
    }
}

/// Cycle (`i`, `j`) has run its plugin successfully, or is running it, when
/// the run is at action `a`.
spec fn reached(a: Action, i: int, j: int) -> bool {
    match a {
        Action::Extract { cycle, .. } => i < cycle.package || (i == cycle.package && j
            < cycle.plugin),
        Action::Dispatch { cycle, .. } => i < cycle.package || (i == cycle.package && j
            <= cycle.plugin),
        Action::Finish(Ok(())) => true,
        Action::Finish(Err(_)) => false,
    }
}

/// Cycles left after `c`, for the run's termination.
spec fn cycles_after(c: Cycle, n_packages: int, n_plugins: int) -> int {
    (n_packages - 1 - c.package) * n_plugins + (n_plugins - 1 - c.plugin)
}

/// How far a run is from its end.
spec fn distance(a: Action, n_packages: int, n_plugins: int) -> int {
    match a {
        Action::Extract { cycle, .. } => 3 * cycles_after(cycle, n_packages, n_plugins) + 2,
        Action::Dispatch { cycle, .. } => 3 * cycles_after(cycle, n_packages, n_plugins) + 1,
        Action::Finish(_) => 0,
    }
}

proof fn lemma_cycles_after(c: Cycle, n_packages: int, n_plugins: int)
    requires
        c.package < n_packages <= usize::MAX,
        c.plugin < n_plugins <= usize::MAX,
    ensures
        cycles_after(c, n_packages, n_plugins) >= 0,
        next_cycle(c, n_packages as nat, n_plugins as nat) matches Some(d) ==> cycles_after(
            d,
            n_packages,
            n_plugins,
        ) == cycles_after(c, n_packages, n_plugins) - 1,
{
    let k = n_packages - 1 - c.package;
    assert(k * n_plugins >= 0) by (nonlinear_arith)
        requires
            k >= 0,
            n_plugins >= 0,
    ;
    assert((k - 1) * n_plugins == k * n_plugins - n_plugins) by (nonlinear_arith);
    if c.plugin + 1 >= n_plugins && c.package + 1 < n_packages {
        let d = Cycle { package: (c.package + 1) as usize, plugin: 0 };
        assert(n_packages - 1 - d.package == k - 1);
    }
}

/// The cycle that an action belongs to lies within the run.
spec fn in_run(a: Action, n_packages: int, n_plugins: int) -> bool {
    match a {
        Action::Extract { cycle, .. } => cycle.package < n_packages && cycle.plugin < n_plugins,
        Action::Dispatch { cycle, .. } => cycle.package < n_packages && cycle.plugin < n_plugins,
        Action::Finish(_) => true,
    }
}

/// Runs every plugin on every selected package through the step functions
/// above, doing the outside work that each action asks for: cycles go
/// packages outermost, in the given orders, and the first failure ends the
/// run with its error.
pub fn cli_main<E: Environment>(
    env: &mut E,
    selected: &Vec<Package>,
    plugins: &Vec<String>,
    workspace_metadata: &ConfigValue,
) -> (r: Result<(), GluegunError>)
    requires
        workspace_metadata@.wf(),
        forall|i: int| 0 <= i < selected.len() ==> (#[trigger] selected@[i]).metadata@.wf(),
    ensures
        selected.len() == 0 ==> (r matches Err(GluegunError::SelectionEmpty)),
        selected.len() > 0 && plugins.len() == 0 ==> (r matches Err(
            GluegunError::PluginListEmpty,
        )),
        selected.len() == 0 || plugins.len() == 0 ==> *final(env) == *old(env),
        selected.len() > 0 && plugins.len() > 0 && selected@[0].source is Some ==> *final(env)
            == *old(env) && match r {
            Err(GluegunError::NonLocalPackage { name }) => name@ == selected@[0].name@,
            _ => false,
        },
        r matches Err(GluegunError::SelectionEmpty) ==> selected.len() == 0,
        r matches Err(GluegunError::PluginListEmpty) ==> selected.len() > 0 && plugins.len() == 0,
        r is Ok ==> forall|i: int| 0 <= i < selected.len() ==> (#[trigger] selected@[i]).source is None,
        r is Ok ==> forall|i: int, j: int|
            0 <= i < selected.len() && 0 <= j < plugins.len() ==> #[trigger] plannable(
                workspace_metadata@,
                selected@[i],
                #[trigger] plugins@[j]@,
            ),
{
    let ghost n = selected.len() as int;
    let ghost m = plugins.len() as int;
    let ghost early = selected.len() > 0 && plugins.len() > 0 && selected@[0].source is Some;
    let mut action = start(selected, plugins);
    loop
        invariant
            n == selected.len(),
            m == plugins.len(),
            early == (n > 0 && m > 0 && selected@[0].source is Some),
            workspace_metadata@.wf(),
            forall|i: int| 0 <= i < selected.len() ==> (#[trigger] selected@[i]).metadata@.wf(),
            in_run(action, n, m),
            n == 0 ==> (action matches Action::Finish(Err(GluegunError::SelectionEmpty))),
            n > 0 && m == 0 ==> (action matches Action::Finish(Err(GluegunError::PluginListEmpty))),
            n == 0 || m == 0 || early ==> *env == *old(env),
            early ==> match action {
                Action::Finish(Err(GluegunError::NonLocalPackage { name })) => name@
                    == selected@[0].name@,
                _ => false,
            },
            action matches Action::Finish(Err(GluegunError::SelectionEmpty)) ==> n == 0,
            action matches Action::Finish(Err(GluegunError::PluginListEmpty)) ==> n > 0 && m == 0,
            match action {
                Action::Extract { cycle, .. } => forall|i: int|
                    0 <= i <= cycle.package ==> (#[trigger] selected@[i]).source is None,
                Action::Dispatch { cycle, .. } => forall|i: int|
                    0 <= i <= cycle.package ==> (#[trigger] selected@[i]).source is None,
                Action::Finish(Ok(())) => forall|i: int|
                    0 <= i < n ==> (#[trigger] selected@[i]).source is None,
                Action::Finish(Err(_)) => true,
            },
            forall|i: int, j: int|
                0 <= i < n && 0 <= j < m && reached(action, i, j) ==> #[trigger] plannable(
                    workspace_metadata@,
                    selected@[i],
                    #[trigger] plugins@[j]@,
                ),
        decreases distance(action, n, m),
    {
        match action {
            Action::Finish(r) => {
                return r;
            },
            Action::Extract { cycle, package_dir, entry_file } => {
                proof {
                    lemma_cycles_after(cycle, n, m);
                }
                let extracted = env.extract_idl(&selected[cycle.package], &package_dir, &entry_file);
                action = on_extracted(
                    workspace_metadata,
                    selected,
                    plugins,
                    cycle,
                    entry_file,
                    extracted,
                );
            },
            Action::Dispatch { cycle, plan } => {
                proof {
                    lemma_cycles_after(cycle, n, m);
                }
                let exited = env.run_plugin(
                    &plugins[cycle.plugin],
                    &plan.gluegun,
                    &plan.marker,
                    &plan.document,
                );
                action = on_exited(selected, plugins, cycle, exited);
            },
        }
    }
}

} // verus!
