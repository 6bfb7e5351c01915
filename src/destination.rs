use vstd::prelude::*;
use vstd::string::StringExecFns;

use crate::config::{lookup, ConfigModel, ConfigValue};
use crate::error::GluegunError;
use crate::package::Package;

verus! {

/// The directory that holds `path`, as camino computes it.
pub uninterp spec fn parent_path(path: Seq<char>) -> Option<Seq<char>>;

/// `base` with `rel` adjoined, as camino computes it.
pub uninterp spec fn joined_path(base: Seq<char>, rel: Seq<char>) -> Seq<char>;

/// Relies on camino's `Utf8Path::parent`: the path without its final
/// component, or none when the path ends in a root or prefix.
#[verifier::external_body]
fn path_parent(path: &str) -> (r: Option<String>)
    ensures
        match r {
            Some(p) => parent_path(path@) == Some(p@),
            None => parent_path(path@) is None,
        },
{
    cargo_metadata::camino::Utf8Path::new(path).parent().map(|p| p.as_str().to_owned())
}

/// Relies on camino's `Utf8Path::join`: `rel` adjoined to `base`.
#[verifier::external_body]
pub(crate) fn path_join(base: &str, rel: &str) -> (r: String)
    ensures
        r@ == joined_path(base@, rel@),
{
    cargo_metadata::camino::Utf8Path::new(base).join(rel).into_string()
}

/// Where a generated crate goes relative to the package it is made from.
#[derive(Debug, Clone, Copy, PartialEq, Eq, Structural)]
pub enum PlacementPolicy {
    /// Inside the package's directory.
    Child,
    /// Beside the package's directory.
    Sibling,
}

/// The configuration key that selects the placement policy.
pub open spec fn destination_path_key() -> Seq<char> {
    seq!['d', 'e', 's', 't', 'i', 'n', 'a', 't', 'i', 'o', 'n', '-', 'p', 'a', 't', 'h']
}

/// The policy that a configured `destination-path` value selects: child
/// when absent, none when the value is not recognised.
pub open spec fn policy_of(value: Option<ConfigModel>) -> Option<PlacementPolicy> {
    match value {
        None => Some(PlacementPolicy::Child),
        Some(ConfigModel::Text(s)) => if s == seq!['c', 'h', 'i', 'l', 'd'] {
            Some(PlacementPolicy::Child)
        } else if s == seq!['s', 'i', 'b', 'l', 'i', 'n', 'g'] {
            Some(PlacementPolicy::Sibling)
        } else {
            None
        },
        Some(_) => None,
    }
}

/// Reads the placement policy from the effective `gluegun` configuration.
pub fn placement_policy(gluegun_config: &ConfigValue) -> (r: Result<PlacementPolicy, GluegunError>)
    ensures
        match policy_of(lookup(gluegun_config@, destination_path_key())) {
            Some(p) => r == Ok::<PlacementPolicy, GluegunError>(p),
            None => match r {
                Err(GluegunError::UnsupportedPlacementPolicy { value }) => lookup(
                    gluegun_config@,
                    destination_path_key(),
                ) == Some(value@),
                _ => false,
            },
        },
{
    let key = "destination-path".to_owned();
    proof {
        reveal_strlit("destination-path");
        assert(key@ =~= destination_path_key());
    }
    match gluegun_config.get(&key) {
        None => Ok(PlacementPolicy::Child),
        Some(value) => {
            if let ConfigValue::String(s) = value {
                let child = "child".to_owned();
                let sibling = "sibling".to_owned();
                proof {
                    reveal_strlit("child");
                    reveal_strlit("sibling");
                    assert(child@ =~= seq!['c', 'h', 'i', 'l', 'd']);
                    assert(sibling@ =~= seq!['s', 'i', 'b', 'l', 'i', 'n', 'g']);
                }
                if *s == child {
                    return Ok(PlacementPolicy::Child);
                } else if *s == sibling {
                    return Ok(PlacementPolicy::Sibling);
                }
            }
            Err(GluegunError::UnsupportedPlacementPolicy { value: value.deep_copy() })
        },
    }
}

/// The directory in which the generated crate is placed.
pub open spec fn destination_parent(policy: PlacementPolicy, manifest_path: Seq<char>) -> Option<
    Seq<char>,
> {
    match policy {
        PlacementPolicy::Child => parent_path(manifest_path),
        PlacementPolicy::Sibling => match parent_path(manifest_path) {
            Some(dir) => parent_path(dir),
            None => None,
        },
    }
}

/// The name of the crate that `plugin` generates from `package`.
pub open spec fn artifact_name(package: Seq<char>, plugin: Seq<char>) -> Seq<char> {
    package + seq!['-'] + plugin
}

/// The name and location of a generated crate.
#[derive(Debug, PartialEq)]
pub struct DestCrate {
    pub crate_name: String,
    pub path: String,
}

/// Computes the directory in which the generated crate is placed.
pub fn parent_directory(policy: PlacementPolicy, manifest_path: &str) -> (r: Option<String>)
    ensures
        match r {
            Some(p) => destination_parent(policy, manifest_path@) == Some(p@),
            None => destination_parent(policy, manifest_path@) is None,
        },
{
    match policy {
        PlacementPolicy::Child => path_parent(manifest_path),
        PlacementPolicy::Sibling => match path_parent(manifest_path) {
            Some(dir) => path_parent(dir.as_str()),
            None => None,
        },
    }
}

/// Names the generated crate and places it in `parent`, the directory
/// computed for the package's manifest; without one it fails, naming the
/// manifest.
pub fn destination_in(
    parent: Option<String>,
    package_name: &str,
    plugin: &str,
    manifest_path: &str,
) -> (r: Result<DestCrate, GluegunError>)
    ensures
        match parent {
            Some(dir) => match r {
                Ok(d) => d.crate_name@ == artifact_name(package_name@, plugin@) && d.path@
                    == joined_path(dir@, d.crate_name@),
                Err(_) => false,
            },
            None => match r {
                Err(GluegunError::PathComputationFailed { manifest_path: m }) => m@
                    == manifest_path@,
                _ => false,
            },
        },
{
    match parent {
        Some(dir) => {
            let mut crate_name = package_name.to_owned();
            crate_name.append("-");
            crate_name.append(plugin);
            proof {
                reveal_strlit("-");
            }
            let path = path_join(dir.as_str(), crate_name.as_str());
            Ok(DestCrate { crate_name, path })
        },
        None => Err(GluegunError::PathComputationFailed { manifest_path: manifest_path.to_owned() }),
    }
}

/// Computes the name and path of the crate that `plugin` generates from
/// `package`, following the configured placement policy.
pub fn dest_crate_name_and_path(plugin: &str, gluegun_config: &ConfigValue, package: &Package) -> (r:
    Result<DestCrate, GluegunError>)
    ensures
        match policy_of(lookup(gluegun_config@, destination_path_key())) {
            None => match r {
                Err(GluegunError::UnsupportedPlacementPolicy { value }) => lookup(
                    gluegun_config@,
                    destination_path_key(),
                ) == Some(value@),
                _ => false,
            },
            Some(policy) => match destination_parent(policy, package.manifest_path@) {
                Some(dir) => match r {
                    Ok(d) => d.crate_name@ == artifact_name(package.name@, plugin@) && d.path@
                        == joined_path(dir, d.crate_name@),
                    Err(_) => false,
                },
                None => match r {
                    Err(GluegunError::PathComputationFailed { manifest_path: m }) => m@
                        == package.manifest_path@,
                    _ => false,
                },
            },
        },
{
    let policy = match placement_policy(gluegun_config) {
        Ok(p) => p,
        Err(e) => return Err(e),
    };
    let parent = parent_directory(policy, package.manifest_path.as_str());
    destination_in(parent, package.name.as_str(), plugin, package.manifest_path.as_str())
}

} // verus!
