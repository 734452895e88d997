//! The manifest, its parts, and their mathematical values.
//!
//! Sections that no edit looks into are carried as `toml::Value`. The lists
//! keep their entries in the order of the file, so that an edited manifest
//! differs from the one read only where the edit says so.

use crate::ordered::{dependency_entries, feature_entries, target_entries};
use crate::text::{text_of, texts_of};
use indexmap::IndexMap;
use vstd::prelude::*;

verus! {

/// `toml::Value`, carried through unread.
#[verifier::external_type_specification]
#[verifier::external_body]
pub struct ExValue(toml::Value);

/// The entries of an ordered map, in order: each a key's text and a value.
pub type Entries<V> = Seq<(Seq<char>, V)>;

/// A list of dependencies, keyed by crate name.
pub type Dependencies = IndexMap<String, Dependency>;

/// The features of a package: each feature with what it switches on.
pub type Features = IndexMap<String, Vec<String>>;

/// The platform-conditional sections, keyed by target specifier.
pub type Targets = IndexMap<String, Target>;

/// Keys of a table that this crate gives no meaning to.
pub type Remainder = IndexMap<String, toml::Value>;

/// A package manifest.
#[derive(Debug)]
pub struct Manifest {
    pub package: toml::Value,
    pub profile: Option<toml::Value>,
    pub lib: Option<toml::Value>,
    pub bin: Option<toml::Value>,
    pub example: Option<toml::Value>,
    pub test: Option<toml::Value>,
    pub bench: Option<toml::Value>,
    pub dependencies: Option<Dependencies>,
    pub dev_dependencies: Option<Dependencies>,
    pub build_dependencies: Option<Dependencies>,
    pub features: Option<Features>,
    pub target: Option<Targets>,
    pub badges: Option<toml::Value>,
    pub remainder: Remainder,
}

/// The dependencies of one platform-conditional section.
#[derive(Debug)]
pub struct Target {
    pub dependencies: Option<Dependencies>,
    pub dev_dependencies: Option<Dependencies>,
    pub build_dependencies: Option<Dependencies>,
    pub remainder: Remainder,
}

/// A dependency: a bare version requirement, or a table of details.
#[derive(Debug)]
pub enum Dependency {
    Version(String),
    Details(DependencyDetails),
}

/// The table form of a dependency.
#[derive(Debug)]
pub struct DependencyDetails {
    pub version: Option<String>,
    pub features: Option<Vec<String>>,
    pub optional: Option<bool>,
    pub default_features: Option<bool>,
    pub package: Option<String>,
    pub remainder: Remainder,
}

/// The mathematical value of [`DependencyDetails`].
pub ghost struct DetailsView {
    pub version: Option<Seq<char>>,
    pub features: Option<Seq<Seq<char>>>,
    pub optional: Option<bool>,
    pub default_features: Option<bool>,
    pub package: Option<Seq<char>>,
    pub remainder: Remainder,
}

/// The mathematical value of a [`Dependency`].
pub ghost enum DependencyView {
    Version(Seq<char>),
    Details(DetailsView),
}

/// The mathematical value of a [`Target`].
pub ghost struct TargetView {
    pub dependencies: Option<Entries<DependencyView>>,
    pub dev_dependencies: Option<Entries<DependencyView>>,
    pub build_dependencies: Option<Entries<DependencyView>>,
    pub remainder: Remainder,
}

/// The mathematical value of a [`Manifest`].
pub ghost struct ManifestView {
    pub package: toml::Value,
    pub profile: Option<toml::Value>,
    pub lib: Option<toml::Value>,
    pub bin: Option<toml::Value>,
    pub example: Option<toml::Value>,
    pub test: Option<toml::Value>,
    pub bench: Option<toml::Value>,
    pub dependencies: Option<Entries<DependencyView>>,
    pub dev_dependencies: Option<Entries<DependencyView>>,
    pub build_dependencies: Option<Entries<DependencyView>>,
    pub features: Option<Entries<Seq<Seq<char>>>>,
    pub target: Option<Entries<TargetView>>,
    pub badges: Option<toml::Value>,
    pub remainder: Remainder,
}

impl View for DependencyDetails {
    type V = DetailsView;

    open spec fn view(&self) -> DetailsView {
        DetailsView {
            version: text_of(self.version),
            features: match self.features {
                Some(list) => Some(texts_of(list@)),
                None => None,
            },
            optional: self.optional,
            default_features: self.default_features,
            package: text_of(self.package),
            remainder: self.remainder,
        }
    }
}

impl View for Dependency {
    type V = DependencyView;

    open spec fn view(&self) -> DependencyView {
        match self {
            Dependency::Version(requirement) => DependencyView::Version(requirement@),
            Dependency::Details(details) => DependencyView::Details(details@),
        }
    }
}

/// The value of a list of dependencies.
pub open spec fn dependencies_view(map: Dependencies) -> Entries<DependencyView> {
    dependency_entries(map).map_values(|e: (Seq<char>, Dependency)| (e.0, e.1@))
}

/// The value of a list of dependencies that may be absent.
pub open spec fn listed(list: Option<Dependencies>) -> Option<Entries<DependencyView>> {
    match list {
        Some(map) => Some(dependencies_view(map)),
        None => None,
    }
}

/// The value of a table of features.
pub open spec fn features_view(map: Features) -> Entries<Seq<Seq<char>>> {
    feature_entries(map).map_values(|e: (Seq<char>, Vec<String>)| (e.0, texts_of(e.1@)))
}

impl View for Target {
    type V = TargetView;

    open spec fn view(&self) -> TargetView {
        TargetView {
            dependencies: listed(self.dependencies),
            dev_dependencies: listed(self.dev_dependencies),
            build_dependencies: listed(self.build_dependencies),
            remainder: self.remainder,
        }
    }
}

/// The value of the platform-conditional sections.
pub open spec fn targets_view(map: Targets) -> Entries<TargetView> {
    target_entries(map).map_values(|e: (Seq<char>, Target)| (e.0, e.1@))
}

impl View for Manifest {
    type V = ManifestView;

    open spec fn view(&self) -> ManifestView {
        ManifestView {
            package: self.package,
            profile: self.profile,
            lib: self.lib,
            bin: self.bin,
            example: self.example,
            test: self.test,
            bench: self.bench,
            dependencies: listed(self.dependencies),
            dev_dependencies: listed(self.dev_dependencies),
            build_dependencies: listed(self.build_dependencies),
            features: match self.features {
                Some(map) => Some(features_view(map)),
                None => None,
            },
            target: match self.target {
                Some(map) => Some(targets_view(map)),
                None => None,
            },
            badges: self.badges,
            remainder: self.remainder,
        }
    }
}

} // verus!
