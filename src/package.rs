use vstd::prelude::*;

use crate::config::ConfigValue;

verus! {

/// A package of the workspace, as the build metadata describes it.
#[derive(Debug, PartialEq)]
pub struct Package {
    /// The package's name, which identifies it.
    pub name: String,
    /// The path of the package's manifest file.
    pub manifest_path: String,
    /// Where the package comes from, when it is not local.
    pub source: Option<String>,
    /// The package's `package.metadata` table.
    pub metadata: ConfigValue,
}

} // verus!
