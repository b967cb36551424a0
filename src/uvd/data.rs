use std::collections::HashMap;
use vstd::prelude::*;

verus! {

/// What the hub publishes about a package: its metadata and, per operating
/// system, the builds that can be fetched.
pub struct Manifest {
    pub name: String,
    pub version: String,
    pub description: String,
    pub author: String,
    pub os: HashMap<String, Vec<PackageInfo>>,
}

/// One downloadable build of a package.
pub struct PackageInfo {
    pub package_type: String,
    pub arch: String,
    pub distro_target: Option<String>,
    pub url: String,
    pub hash_sha256: String,
}

} // verus!
