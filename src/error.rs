use vstd::prelude::*;

use crate::config::ConfigValue;

verus! {

/// Why a `plugin-command` template cannot be turned into a command.
#[derive(Debug, Clone, Copy, PartialEq, Eq, Structural)]
pub enum TemplateProblem {
    /// The configured value is not a string.
    NotAString,
    /// The template holds an apostrophe, which is not supported.
    Apostrophe,
    /// The template holds no program name.
    Empty,
}

/// Everything that can stop an orchestration run.
#[derive(Debug, PartialEq)]
pub enum GluegunError {
    /// No package was selected.
    SelectionEmpty,
    /// No plugin was named.
    PluginListEmpty,
    /// The package comes from a registry or another outside source.
    NonLocalPackage { name: String },
    /// The interface extractor failed on the given entry file.
    IdlExtractionFailed { entry_file: String, cause: String },
    /// The workspace and package configuration have different kinds.
    ConfigMergeConflict { workspace: ConfigValue, package: ConfigValue },
    /// `destination-path` holds neither `"child"` nor `"sibling"`.
    UnsupportedPlacementPolicy { value: ConfigValue },
    /// The manifest path has no parent (or grandparent) directory.
    PathComputationFailed { manifest_path: String },
    /// The `plugin-command` template is unusable.
    PluginCommandTemplateInvalid { problem: TemplateProblem },
    /// The command builder could not make a command for the plugin.
    PluginCommandFailed { plugin: String, cause: String },
    /// The plugin process could not be started.
    ProcessSpawnFailed { plugin: String, cause: String },
    /// The plugin process offered no input stream.
    StdinUnavailable { plugin: String },
    /// The handshake could not be written to the plugin.
    HandshakeWriteFailed { plugin: String, cause: String },
    /// Waiting for the plugin process failed.
    ProcessWaitFailed { plugin: String, cause: String },
    /// The plugin process ended unsuccessfully; the code is absent when
    /// the process was stopped by a signal.
    PluginNonZeroExit { plugin: String, code: Option<i32> },
}

} // verus!
