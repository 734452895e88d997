//! Setting the version of a named dependency.

use crate::manifest::{
    listed, Dependencies, Dependency, DependencyView, DetailsView, Entries, Manifest, ManifestView,
};
use crate::ordered::dependency_mut;
use vstd::prelude::*;
use vstd::string::*;

verus! {

/// A dependency with its version requirement replaced: the bare form
/// becomes the new requirement, the table form gets it as its `version`
/// and keeps its other keys.
pub open spec fn versioned(dependency: DependencyView, version: Seq<char>) -> DependencyView {
    match dependency {
        DependencyView::Version(_) => DependencyView::Version(version),
        DependencyView::Details(details) => DependencyView::Details(
            DetailsView { version: Some(version), ..details },
        ),
    }
}

/// A list in which the dependency called `name` has the new version.
pub open spec fn versioned_in(
    entries: Entries<DependencyView>,
    name: Seq<char>,
    version: Seq<char>,
) -> Entries<DependencyView> {
    entries.map_values(
        |e: (Seq<char>, DependencyView)|
            if e.0 == name {
                (e.0, versioned(e.1, version))
            } else {
                e
            },
    )
}

/// [`versioned_in`] for a list that may be absent.
pub open spec fn versioned_list(
    list: Option<Entries<DependencyView>>,
    name: Seq<char>,
    version: Seq<char>,
) -> Option<Entries<DependencyView>> {
    match list {
        Some(entries) => Some(versioned_in(entries, name, version)),
        None => None,
    }
}

/// A manifest in which the dependency called `name` has the new version
/// wherever it is listed: as a dependency, a development dependency or a
/// build dependency. Nothing else differs.
pub open spec fn with_version(
    manifest: ManifestView,
    name: Seq<char>,
    version: Seq<char>,
) -> ManifestView {
    ManifestView {
        dependencies: versioned_list(manifest.dependencies, name, version),
        dev_dependencies: versioned_list(manifest.dev_dependencies, name, version),
        build_dependencies: versioned_list(manifest.build_dependencies, name, version),
        ..manifest
    }
}

/// Replaces the version requirement of one dependency.
fn set_version(dependency: &mut Dependency, version: &str)
    ensures
        final(dependency)@ == versioned(old(dependency)@, version@),
{
    match dependency {
        Dependency::Version(requirement) => {
            *requirement = String::from_str(version);
        },
        Dependency::Details(details) => {
            details.version = Some(String::from_str(version));
        },
    }
}

/// Sets the version of the dependency called `name` in one list.
fn set_version_in(list: &mut Option<Dependencies>, name: &str, version: &str)
    ensures
        listed(*final(list)) == versioned_list(listed(*old(list)), name@, version@),
{
    match list {
        Some(map) => {
            match dependency_mut(map, name) {
                Some(dependency) => {
                    set_version(dependency, version);
                },
                None => {},
            }
        },
        None => {},
    }
}

impl Manifest {
    /// Sets the version of the dependency called `dependency` wherever the
    /// manifest lists it. A manifest that does not list it is left as it is.
    pub fn set_dependency_version(&mut self, dependency: &str, version: &str) -> (result: Result<
        (),
        String,
    >)
        ensures
            result is Ok,
            final(self)@ == with_version(old(self)@, dependency@, version@),
    {
        set_version_in(&mut self.dependencies, dependency, version);
        set_version_in(&mut self.dev_dependencies, dependency, version);
        set_version_in(&mut self.build_dependencies, dependency, version);
        Ok(())
    }
}

} // verus!
