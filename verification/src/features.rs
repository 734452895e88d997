//! Removing a feature, and with it the optional dependencies that only that
//! feature switched on.

use crate::manifest::{
    dependencies_view, features_view, listed, Dependencies, Dependency, DependencyView, Entries,
    Features, Manifest, ManifestView,
};
use crate::ordered::{
    after_shift_remove, dependency_entries, dependency_refs, feature_count, feature_entries,
    feature_list_mut, feature_refs, found_at, lacks, points_at, shift_remove_dependency,
    shift_remove_feature,
};
use crate::seqs::{
    lemma_filter_agree, lemma_filter_all, lemma_filter_but_one, lemma_filter_next,
    lemma_filter_twice, lemma_take_next_contains,
};
use crate::text::{same_text, texts_of};
use vstd::prelude::*;
use vstd::string::*;

verus! {

/// The message for a manifest without a table of features.
pub open spec fn no_features() -> Seq<char> {
    "No features present in Cargo.toml."@
}

/// The message for a feature that the manifest does not have.
pub open spec fn feature_missing(feature: Seq<char>) -> Seq<char> {
    "Feature not present in Cargo.toml: "@ + feature
}

/// A list without the items equal to `name`, the others in their order.
pub open spec fn without(list: Seq<Seq<char>>, name: Seq<char>) -> Seq<Seq<char>> {
    list.filter(|item: Seq<char>| item != name)
}

/// The place of a key among the entries.
pub open spec fn position<V>(entries: Entries<V>, key: Seq<char>) -> int {
    choose|i: int| 0 <= i < entries.len() && (#[trigger] entries[i]).0 == key
}

/// The features that stay when `feature` goes: the others in their order,
/// none of them switching `feature` on any more.
pub open spec fn remaining(features: Entries<Seq<Seq<char>>>, feature: Seq<char>) -> Entries<
    Seq<Seq<char>>,
> {
    features.remove(position(features, feature)).map_values(
        |e: (Seq<char>, Seq<Seq<char>>)| (e.0, without(e.1, feature)),
    )
}

/// Whether a dependency is marked optional.
pub open spec fn is_optional(dependency: DependencyView) -> bool {
    match dependency {
        DependencyView::Details(details) => details.optional == Some(true),
        DependencyView::Version(_) => false,
    }
}

/// Whether `name` is the name of an optional dependency.
pub open spec fn names_optional(dependencies: Entries<DependencyView>, name: Seq<char>) -> bool {
    exists|i: int|
        0 <= i < dependencies.len() && (#[trigger] dependencies[i]).0 == name && is_optional(
            dependencies[i].1,
        )
}

/// Whether some feature switches `name` on.
pub open spec fn switched_on(features: Entries<Seq<Seq<char>>>, name: Seq<char>) -> bool {
    exists|i: int| 0 <= i < features.len() && (#[trigger] features[i]).1.contains(name)
}

/// Whether the removal leaves `name` without use: the removed feature
/// switched it on, it names an optional dependency, and no feature that
/// stays switches it on.
pub open spec fn orphaned(
    dependencies: Entries<DependencyView>,
    switched: Seq<Seq<char>>,
    rest: Entries<Seq<Seq<char>>>,
    name: Seq<char>,
) -> bool {
    switched.contains(name) && names_optional(dependencies, name) && !switched_on(rest, name)
}

/// The dependencies without the orphaned ones, the others in their order.
pub open spec fn pruned(
    dependencies: Entries<DependencyView>,
    switched: Seq<Seq<char>>,
    rest: Entries<Seq<Seq<char>>>,
) -> Entries<DependencyView> {
    dependencies.filter(
        |e: (Seq<char>, DependencyView)| !orphaned(dependencies, switched, rest, e.0),
    )
}

/// [`pruned`] for a list that may be absent.
pub open spec fn pruned_list(
    list: Option<Entries<DependencyView>>,
    switched: Seq<Seq<char>>,
    rest: Entries<Seq<Seq<char>>>,
) -> Option<Entries<DependencyView>> {
    match list {
        Some(dependencies) => Some(pruned(dependencies, switched, rest)),
        None => None,
    }
}

/// The dependencies of a list that may be absent.
pub open spec fn entries_of(list: Option<Entries<DependencyView>>) -> Entries<DependencyView> {
    match list {
        Some(dependencies) => dependencies,
        None => Seq::empty(),
    }
}

/// What removing a feature reports: success where the manifest has the
/// feature, a failure where it has no features or not this one.
pub open spec fn feature_removal(manifest: ManifestView, feature: Seq<char>) -> Result<
    (),
    Seq<char>,
> {
    match manifest.features {
        None => Err(no_features()),
        Some(features) => if lacks(features, feature) {
            Err(feature_missing(feature))
        } else {
            Ok(())
        },
    }
}

/// The manifest after the removal of a feature. Where the removal fails,
/// nothing changes. Where it succeeds, the features are those of
/// [`remaining`] and the dependencies those of [`pruned`]; development and
/// build dependencies stay as they are.
pub open spec fn without_feature(manifest: ManifestView, feature: Seq<char>) -> ManifestView {
    match manifest.features {
        None => manifest,
        Some(features) => if lacks(features, feature) {
            manifest
        } else {
            let rest = remaining(features, feature);
            ManifestView {
                features: Some(rest),
                dependencies: pruned_list(
                    manifest.dependencies,
                    features[position(features, feature)].1,
                    rest,
                ),
                ..manifest
            }
        },
    }
}

/// Whether `list` holds a string with the text of `name`.
fn contains_text(list: &Vec<String>, name: &str) -> (found: bool)
    ensures
        found == texts_of(list@).contains(name@),
{
    let mut found = false;
    let mut i: usize = 0;
    while i < list.len()
        invariant
            i <= list.len(),
            found == texts_of(list@).take(i as int).contains(name@),
        decreases list.len() - i,
    {
        let hit = same_text(list[i].as_str(), name);
        proof {
            lemma_take_next_contains(texts_of(list@), i as int, name@);
        }
        found = found || hit;
        i += 1;
    }
    assert(texts_of(list@).take(i as int) == texts_of(list@));
    found
}

/// Takes out of `list` the strings with the text of `name`.
fn retain_other(list: &mut Vec<String>, name: &str)
    ensures
        texts_of(final(list)@) == without(texts_of(old(list)@), name@),
{
    let mut items: Vec<String> = Vec::new();
    std::mem::swap(list, &mut items);
    let ghost texts = texts_of(items@);
    let ghost keep = |item: Seq<char>| item != name@;
    assert(texts.take(0).filter(keep) == Seq::<Seq<char>>::empty()) by {
        reveal(Seq::filter);
    }
    for item in it: items
        invariant
            it.seq() == items@,
            texts == texts_of(items@),
            keep == (|item: Seq<char>| item != name@),
            texts_of(list@) == texts.take(it.index() as int).filter(keep),
    {
        proof {
            lemma_filter_next(texts, keep, it.index() as int);
        }
        if !same_text(item.as_str(), name) {
            list.push(item);
        }
    }
    assert(texts.take(items@.len() as int) == texts);
}

/// Takes `feature` out of what each feature switches on.
fn strip_feature(features: &mut Features, feature: &str)
    ensures
        features_view(*final(features)) == features_view(*old(features)).map_values(
            |e: (Seq<char>, Seq<Seq<char>>)| (e.0, without(e.1, feature@)),
        ),
{
    let ghost start = feature_entries(*features);
    let count = feature_count(features);
    let mut index: usize = 0;
    while index < count
        invariant
            index <= count,
            count == start.len(),
            feature_entries(*features).len() == start.len(),
            forall|j: int|
                0 <= j < start.len() ==> (#[trigger] feature_entries(*features)[j]).0
                    == start[j].0,
            forall|j: int|
                0 <= j < index ==> texts_of((#[trigger] feature_entries(*features)[j]).1@)
                    == without(texts_of(start[j].1@), feature@),
            forall|j: int|
                index <= j < start.len() ==> (#[trigger] feature_entries(*features)[j]).1
                    == start[j].1,
        decreases count - index,
    {
        match feature_list_mut(features, index) {
            Some(list) => {
                retain_other(list, feature);
            },
            None => {},
        }
        index += 1;
    }
    assert(features_view(*features) =~= features_view(*old(features)).map_values(
        |e: (Seq<char>, Seq<Seq<char>>)| (e.0, without(e.1, feature@)),
    ));
}

/// The names of the optional dependencies of a list.
fn optional_names(list: &Option<Dependencies>) -> (names: Vec<String>)
    ensures
        forall|name: Seq<char>|
            texts_of(names@).contains(name) <==> names_optional(entries_of(listed(*list)), name),
{
    let mut names: Vec<String> = Vec::new();
    match list {
        Some(map) => {
            let ghost dependencies = dependencies_view(*map);
            let items = dependency_refs(map);
            let mut i: usize = 0;
            while i < items.len()
                invariant
                    i <= items.len(),
                    points_at(items@, dependency_entries(*map)),
                    dependencies == dependencies_view(*map),
                    forall|name: Seq<char>|
                        texts_of(names@).contains(name) <==> names_optional(
                            dependencies.take(i as int),
                            name,
                        ),
                decreases items.len() - i,
            {
                let (name, dependency) = items[i];
                let ghost before = texts_of(names@);
                let mut optional = false;
                if let Dependency::Details(details) = dependency {
                    if let Some(true) = details.optional {
                        optional = true;
                    }
                }
                if optional {
                    names.push(name.clone());
                }
                proof {
                    let after = texts_of(names@);
                    let shorter = dependencies.take(i as int);
                    let longer = dependencies.take(i + 1);
                    assert forall|text: Seq<char>| after.contains(text) <==> names_optional(
                        longer,
                        text,
                    ) by {
                        if after.contains(text) {
                            let j = choose|j: int| 0 <= j < after.len() && after[j] == text;
                            if j < before.len() {
                                assert(before[j] == text);
                                assert(before.contains(text));
                            } else {
                                assert(longer[i as int].0 == text);
                            }
                        }
                        if names_optional(longer, text) {
                            let k = choose|k: int|
                                0 <= k < longer.len() && (#[trigger] longer[k]).0 == text
                                    && is_optional(longer[k].1);
                            if k < i {
                                assert(before.contains(text));
                                let j = choose|j: int| 0 <= j < before.len() && before[j] == text;
                                assert(after[j] == before[j]);
                            } else {
                                assert(after[after.len() - 1] == text);
                            }
                        }
                    }
                }
                i += 1;
            }
            assert(dependencies.take(i as int) == dependencies);
        },
        None => {},
    }
    names
}

/// Whether some feature switches `name` on.
fn is_switched_on(features: &Features, name: &str) -> (found: bool)
    ensures
        found == switched_on(features_view(*features), name@),
{
    let ghost rest = features_view(*features);
    let items = feature_refs(features);
    let mut found = false;
    let mut i: usize = 0;
    while i < items.len()
        invariant
            i <= items.len(),
            points_at(items@, feature_entries(*features)),
            rest == features_view(*features),
            found == exists|j: int| 0 <= j < i && (#[trigger] rest[j]).1.contains(name@),
        decreases items.len() - i,
    {
        let (_, list) = items[i];
        let hit = contains_text(list, name);
        assert(hit == rest[i as int].1.contains(name@));
        found = found || hit;
        i += 1;
    }
    found
}

/// `IndexMap::shift_remove` on the values: what [`after_shift_remove`] says
/// of the entries is, of their values, the list without the entries of
/// that name.
proof fn lemma_shift_remove_view(
    before: Entries<Dependency>,
    after: Entries<Dependency>,
    name: Seq<char>,
    taken: Option<Dependency>,
)
    requires
        after_shift_remove(before, after, name, taken),
    ensures
        after.map_values(|e: (Seq<char>, Dependency)| (e.0, e.1@)) == before.map_values(
            |e: (Seq<char>, Dependency)| (e.0, e.1@),
        ).filter(|e: (Seq<char>, DependencyView)| e.0 != name),
{
    let view = |e: (Seq<char>, Dependency)| (e.0, e.1@);
    let other = |e: (Seq<char>, DependencyView)| e.0 != name;
    let values = before.map_values(view);
    match taken {
        Some(value) => {
            let i = choose|i: int| #[trigger]
                found_at(before, name, i) && value == before[i].1 && after == before.remove(i);
            assert forall|j: int| 0 <= j < values.len() && j != i implies other(
                #[trigger] values[j],
            ) by {}
            lemma_filter_but_one(values, other, i);
        },
        None => {
            assert forall|j: int| 0 <= j < values.len() implies other(#[trigger] values[j]) by {}
            lemma_filter_all(values, other);
        },
    }
}

/// Takes out of `list` the dependencies that the removal orphans.
fn prune(
    list: &mut Option<Dependencies>,
    switched: &Vec<String>,
    optionals: &Vec<String>,
    features: &Features,
)
    requires
        forall|name: Seq<char>|
            texts_of(optionals@).contains(name) <==> names_optional(
                entries_of(listed(*old(list))),
                name,
            ),
    ensures
        listed(*final(list)) == pruned_list(
            listed(*old(list)),
            texts_of(switched@),
            features_view(*features),
        ),
{
    let ghost start = entries_of(listed(*list));
    let ghost names = texts_of(switched@);
    let ghost rest = features_view(*features);
    proof {
        let keep = |e: (Seq<char>, DependencyView)| !orphaned(start, names.take(0), rest, e.0);
        assert forall|j: int| 0 <= j < start.len() implies keep(#[trigger] start[j]) by {}
        lemma_filter_all(start, keep);
    }
    let mut k: usize = 0;
    while k < switched.len()
        invariant
            k <= switched.len(),
            start == entries_of(listed(*old(list))),
            names == texts_of(switched@),
            rest == features_view(*features),
            listed(*list) is Some <==> listed(*old(list)) is Some,
            forall|name: Seq<char>|
                texts_of(optionals@).contains(name) <==> names_optional(start, name),
            entries_of(listed(*list)) == pruned(start, names.take(k as int), rest),
        decreases switched.len() - k,
    {
        let dropped = &switched[k];
        let ghost current = entries_of(listed(*list));
        let ghost name = dropped@;
        let ghost before = |e: (Seq<char>, DependencyView)|
            !orphaned(start, names.take(k as int), rest, e.0);
        let ghost after = |e: (Seq<char>, DependencyView)|
            !orphaned(start, names.take(k + 1), rest, e.0);
        let ghost other = |e: (Seq<char>, DependencyView)| e.0 != name;
        proof {
            assert forall|text: Seq<char>|
                names.take(k + 1).contains(text) <==> names.take(k as int).contains(text) || name
                    == text by {
                lemma_take_next_contains(names, k as int, text);
            }
        }
        let mut goes = false;
        if contains_text(optionals, dropped.as_str()) {
            if !is_switched_on(features, dropped.as_str()) {
                goes = true;
            }
        }
        assert(goes == (names_optional(start, name) && !switched_on(rest, name)));
        if goes {
            match list {
                Some(map) => {
                    let ghost held = dependency_entries(*map);
                    let taken = shift_remove_dependency(map, dropped.as_str());
                    proof {
                        lemma_shift_remove_view(held, dependency_entries(*map), name, taken);
                    }
                },
                None => {},
            }
            proof {
                assert(entries_of(listed(*list)) == current.filter(other)) by {
                    if listed(*list) is None {
                        reveal(Seq::filter);
                    }
                }
                lemma_filter_twice(start, before, other);
                let both = |e: (Seq<char>, DependencyView)| before(e) && other(e);
                assert forall|j: int| 0 <= j < start.len() implies both(#[trigger] start[j])
                    == after(start[j]) by {}
                lemma_filter_agree(start, both, after);
            }
        } else {
            proof {
                assert forall|j: int| 0 <= j < start.len() implies before(#[trigger] start[j])
                    == after(start[j]) by {}
                lemma_filter_agree(start, before, after);
            }
        }
        k += 1;
    }
    assert(names.take(k as int) == names);
}

impl Manifest {
    /// Removes a feature: from the table of features, from what the other
    /// features switch on, and with it each optional dependency that it
    /// switched on and that no other feature needs.
    ///
    /// Fails, and changes nothing, where the manifest has no table of
    /// features or the table has no such feature.
    pub fn remove_feature(&mut self, feature: &str) -> (result: Result<(), String>)
        ensures
            final(self)@ == without_feature(old(self)@, feature@),
            match result {
                Ok(_) => feature_removal(old(self)@, feature@) is Ok,
                Err(message) => feature_removal(old(self)@, feature@) == Err::<(), Seq<char>>(
                    message@,
                ),
            },
    {
        let mut features = match self.features.take() {
            Some(features) => features,
            None => {
                return Err(String::from_str("No features present in Cargo.toml."));
            },
        };
        let ghost held = feature_entries(features);
        let ghost table = features_view(features);
        let switched = match shift_remove_feature(&mut features, feature) {
            Some(values) => values,
            None => {
                assert(lacks(table, feature@));
                self.features = Some(features);
                return Err(
                    String::from_str("Feature not present in Cargo.toml: ").concat(feature),
                );
            },
        };
        proof {
            let i = choose|i: int| #[trigger]
                found_at(held, feature@, i) && switched == held[i].1 && feature_entries(features)
                    == held.remove(i);
            assert(table[i].0 == feature@);
            assert(position(table, feature@) == i);
            assert(features_view(features) =~= table.remove(i));
        }
        strip_feature(&mut features, feature);
        let optionals = optional_names(&self.dependencies);
        prune(&mut self.dependencies, &switched, &optionals, &features);
        self.features = Some(features);
        Ok(())
    }
}

} // verus!
