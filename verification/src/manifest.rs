//! The packages that a project depends on, as the manifest lists them.

use crate::hover::contains_name;
use vstd::prelude::*;

verus! {

/// Where the source of a package comes from.
#[derive(Debug, Clone, PartialEq, Eq)]
pub enum ManifestPackageSource {
    /// The public package registry.
    Hex,
    /// A repository, at a revision.
    Git { repo: String, commit: String },
    /// A directory of this machine.
    Local { path: String },
}

/// A package that the project depends on.
#[derive(Debug, Clone, PartialEq, Eq)]
pub struct ManifestPackage {
    pub name: String,
    pub source: ManifestPackageSource,
}

/// The names of the first `upto` packages that come from the registry, each
/// once, in the order in which they first occur.
pub open spec fn hex_names_upto(packages: Seq<ManifestPackage>, upto: int) -> Seq<Seq<char>>
    decreases upto,
{
    if upto <= 0 || upto > packages.len() {
        Seq::empty()
    } else {
        let earlier = hex_names_upto(packages, upto - 1);
        let name = packages[upto - 1].name@;
        if packages[upto - 1].source is Hex && !earlier.contains(name) {
            earlier.push(name)
        } else {
            earlier
        }
    }
}

/// The names of the packages that come from the registry, each once.
pub open spec fn hex_names(packages: Seq<ManifestPackage>) -> Seq<Seq<char>> {
    hex_names_upto(packages, packages.len() as int)
}

/// No name occurs twice among `names`.
pub open spec fn distinct_names(names: Seq<String>) -> bool {
    forall|j: int, k: int|
        0 <= j < k < names.len() ==> (#[trigger] names[j])@ != (#[trigger] names[k])@
}

/// The names of the packages that come from the registry. No name occurs
/// twice among them.
pub fn hex_package_names(packages: &Vec<ManifestPackage>) -> (names: Vec<String>)
    ensures
        names@.len() == hex_names(packages@).len(),
        forall|k: int| 0 <= k < names@.len() ==> (#[trigger] names@[k])@ == hex_names(packages@)[k],
        distinct_names(names@),
{
    let mut names: Vec<String> = Vec::new();
    let mut at: usize = 0;
    while at < packages.len()
        invariant
            at <= packages@.len(),
            names@.len() == hex_names_upto(packages@, at as int).len(),
            forall|k: int|
                0 <= k < names@.len() ==> (#[trigger] names@[k])@ == hex_names_upto(
                    packages@,
                    at as int,
                )[k],
            distinct_names(names@),
        decreases packages@.len() - at,
    {
        let ghost earlier = hex_names_upto(packages@, at as int);
        match &packages[at].source {
            ManifestPackageSource::Hex => {
                let known = contains_name(&names, &packages[at].name);
                proof {
                    if known {
                        let k = choose|k: int|
                            0 <= k < names@.len() && (#[trigger] names@[k])@
                                == packages@[at as int].name@;
                        assert(earlier[k] == packages@[at as int].name@);
                    } else if earlier.contains(packages@[at as int].name@) {
                        let k = choose|k: int|
                            0 <= k < earlier.len() && earlier[k] == packages@[at as int].name@;
                        assert(names@[k]@ == packages@[at as int].name@);
                    }
                }
                if !known {
                    names.push(packages[at].name.clone());
                }
            },
            _ => {},
        }
        at += 1;
    }
    names
}

} // verus!
