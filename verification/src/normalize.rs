//! Folding the platform-conditional sections into the manifest's own lists.

use crate::eval::{is_linux_target, judged, outcome_of, parsed_target, Outcome};
use crate::manifest::{
    dependencies_view, listed, targets_view, Dependencies, Dependency, DependencyView, Entries,
    Manifest, ManifestView, Target, TargetView,
};
use crate::ordered::{
    after_insert, dependency_entries, drain_dependencies, drain_targets, found_at, hands_out,
    insert_dependency, lacks, new_dependencies, target_entries,
};
use vstd::prelude::*;

verus! {

/// A list after one insertion: a name that is listed keeps its place and
/// gets the new dependency, a new name goes last.
pub open spec fn inserted(
    entries: Entries<DependencyView>,
    name: Seq<char>,
    dependency: DependencyView,
) -> Entries<DependencyView> {
    if lacks(entries, name) {
        entries.push((name, dependency))
    } else {
        entries.map_values(
            |e: (Seq<char>, DependencyView)|
                if e.0 == name {
                    (e.0, dependency)
                } else {
                    e
                },
        )
    }
}

/// A list after the insertion of `items`, one after the other. A list that
/// is absent comes into being with the first item.
pub open spec fn merged(
    base: Option<Entries<DependencyView>>,
    items: Entries<DependencyView>,
) -> Option<Entries<DependencyView>>
    decreases items.len(),
{
    if items.len() == 0 {
        base
    } else {
        let list = match merged(base, items.drop_last()) {
            Some(entries) => entries,
            None => Seq::empty(),
        };
        Some(inserted(list, items.last().0, items.last().1))
    }
}

/// [`merged`] for items that may be absent.
pub open spec fn merged_list(
    base: Option<Entries<DependencyView>>,
    extra: Option<Entries<DependencyView>>,
) -> Option<Entries<DependencyView>> {
    match extra {
        Some(items) => merged(base, items),
        None => base,
    }
}

/// The three lists of dependencies of a manifest.
pub ghost struct Lists {
    pub dependencies: Option<Entries<DependencyView>>,
    pub dev_dependencies: Option<Entries<DependencyView>>,
    pub build_dependencies: Option<Entries<DependencyView>>,
}

/// The lists of a manifest.
pub open spec fn lists_of(manifest: ManifestView) -> Lists {
    Lists {
        dependencies: manifest.dependencies,
        dev_dependencies: manifest.dev_dependencies,
        build_dependencies: manifest.build_dependencies,
    }
}

/// The lists after one section has been folded in, each list of the
/// section into the list of the same name.
pub open spec fn absorbed(lists: Lists, section: TargetView) -> Lists {
    Lists {
        dependencies: merged_list(lists.dependencies, section.dependencies),
        dev_dependencies: merged_list(lists.dev_dependencies, section.dev_dependencies),
        build_dependencies: merged_list(lists.build_dependencies, section.build_dependencies),
    }
}

/// Where the folding of sections stands: the lists so far, and the failure
/// that stopped it, if one did.
pub ghost struct Folding {
    pub lists: Lists,
    pub failure: Option<Seq<char>>,
}

/// The sections folded in order. A section whose key matches the reference
/// platform is folded in, one whose key does not is dropped, and the first
/// key that cannot be judged stops the folding with its failure.
pub open spec fn folded(lists: Lists, sections: Entries<TargetView>) -> Folding
    decreases sections.len(),
{
    if sections.len() == 0 {
        Folding { lists, failure: None }
    } else {
        let before = folded(lists, sections.drop_last());
        if before.failure is Some {
            before
        } else {
            match judged(parsed_target(sections.last().0)) {
                Ok(true) => Folding {
                    lists: absorbed(before.lists, sections.last().1),
                    failure: None,
                },
                Ok(false) => before,
                Err(message) => Folding { lists: before.lists, failure: Some(message) },
            }
        }
    }
}

/// The manifest after normalisation. Without sections nothing changes. With
/// sections, the lists are those of [`folded`]; the sections are gone, or,
/// where a key could not be judged, left behind empty.
pub open spec fn normalized(manifest: ManifestView) -> ManifestView {
    match manifest.target {
        None => manifest,
        Some(sections) => {
            let folding = folded(lists_of(manifest), sections);
            ManifestView {
                dependencies: folding.lists.dependencies,
                dev_dependencies: folding.lists.dev_dependencies,
                build_dependencies: folding.lists.build_dependencies,
                target: match folding.failure {
                    Some(_) => Some(Seq::empty()),
                    None => None,
                },
                ..manifest
            }
        },
    }
}

/// What normalisation reports: whether the manifest had sections, or the
/// failure of the first key that could not be judged.
pub open spec fn normalization(manifest: ManifestView) -> Outcome {
    match manifest.target {
        None => Ok(false),
        Some(sections) => match folded(lists_of(manifest), sections).failure {
            Some(message) => Err(message),
            None => Ok(true),
        },
    }
}

/// `IndexMap::insert` on the values: what [`after_insert`] says of the
/// entries is [`inserted`] of their values.
proof fn lemma_insert_view(
    before: Entries<Dependency>,
    after: Entries<Dependency>,
    name: Seq<char>,
    dependency: Dependency,
)
    requires
        after_insert(before, after, name, dependency),
    ensures
        after.map_values(|e: (Seq<char>, Dependency)| (e.0, e.1@)) == inserted(
            before.map_values(|e: (Seq<char>, Dependency)| (e.0, e.1@)),
            name,
            dependency@,
        ),
{
    let values = before.map_values(|e: (Seq<char>, Dependency)| (e.0, e.1@));
    if !lacks(before, name) {
        let i = choose|i: int| #[trigger]
            found_at(before, name, i) && after == before.update(i, (name, dependency));
        assert(values[i].0 == name);
    }
}

/// Folds the entries of `extra` into `base`, in order.
fn merge_list(base: &mut Option<Dependencies>, extra: Option<Dependencies>)
    ensures
        listed(*final(base)) == merged_list(listed(*old(base)), listed(extra)),
{
    match extra {
        Some(mut source) => {
            let ghost raw = dependency_entries(source);
            let ghost entries = dependencies_view(source);
            let ghost start = listed(*base);
            let items = drain_dependencies(&mut source);
            for item in it: items
                invariant
                    hands_out(items@, raw),
                    entries == raw.map_values(|e: (Seq<char>, Dependency)| (e.0, e.1@)),
                    it.seq() == items@,
                    listed(*base) == merged(start, entries.take(it.index() as int)),
            {
                let ghost i = it.index() as int;
                let (name, dependency) = item;
                match base {
                    Some(list) => {
                        let ghost held = dependency_entries(*list);
                        insert_dependency(list, name, dependency);
                        proof {
                            lemma_insert_view(held, dependency_entries(*list), name@, dependency);
                        }
                    },
                    None => {
                        let mut list = new_dependencies();
                        let ghost held = dependency_entries(list);
                        insert_dependency(&mut list, name, dependency);
                        proof {
                            lemma_insert_view(held, dependency_entries(list), name@, dependency);
                            assert(dependencies_view(list) == inserted(
                                Seq::empty(),
                                name@,
                                dependency@,
                            ));
                        }
                        *base = Some(list);
                    },
                }
                proof {
                    let prefix = entries.take(i + 1);
                    assert(prefix.drop_last() == entries.take(i));
                }
            }
            assert(entries.take(items@.len() as int) == entries);
        },
        None => {},
    }
}

/// Once a key has failed, sections behind it change nothing.
proof fn lemma_failure_is_final(lists: Lists, sections: Entries<TargetView>, reached: int)
    requires
        0 <= reached <= sections.len(),
        folded(lists, sections.take(reached)).failure is Some,
    ensures
        folded(lists, sections) == folded(lists, sections.take(reached)),
    decreases sections.len(),
{
    if reached == sections.len() {
        assert(sections.take(reached) == sections);
    } else {
        let shorter = sections.drop_last();
        assert(shorter.take(reached) == sections.take(reached));
        lemma_failure_is_final(lists, shorter, reached);
    }
}

impl Manifest {
    /// Folds the sections for the reference platform into the manifest's
    /// own lists and drops the others.
    ///
    /// Returns whether the manifest had sections at all. Fails on the first
    /// key that cannot be judged; the sections before it have then been
    /// folded in, and the table of sections is left empty.
    pub fn normalize_targets(&mut self) -> (result: Result<bool, String>)
        ensures
            final(self)@ == normalized(old(self)@),
            outcome_of(result) == normalization(old(self)@),
    {
        let mut table = match self.target.take() {
            Some(table) => table,
            None => {
                return Ok(false);
            },
        };
        let ghost raw = target_entries(table);
        let ghost sections = targets_view(table);
        let ghost start = lists_of(self@);
        let items = drain_targets(&mut table);
        for item in it: items
            invariant
                hands_out(items@, raw),
                sections == raw.map_values(|e: (Seq<char>, Target)| (e.0, e.1@)),
                old(self)@.target == Some(sections),
                start == lists_of(old(self)@),
                target_entries(table).len() == 0,
                it.seq() == items@,
                self.target is None,
                self@ == (ManifestView {
                    dependencies: self@.dependencies,
                    dev_dependencies: self@.dev_dependencies,
                    build_dependencies: self@.build_dependencies,
                    target: None,
                    ..old(self)@
                }),
                folded(start, sections.take(it.index() as int)) == (Folding {
                    lists: lists_of(self@),
                    failure: None,
                }),
        {
            let ghost i = it.index() as int;
            let (key, section) = item;
            proof {
                let prefix = sections.take(i + 1);
                assert(prefix.drop_last() == sections.take(i));
            }
            match is_linux_target(key.as_str()) {
                Ok(true) => {
                    merge_list(&mut self.dependencies, section.dependencies);
                    merge_list(&mut self.dev_dependencies, section.dev_dependencies);
                    merge_list(&mut self.build_dependencies, section.build_dependencies);
                },
                Ok(false) => {},
                Err(message) => {
                    proof {
                        lemma_failure_is_final(start, sections, i + 1);
                        assert(targets_view(table) == Seq::<(Seq<char>, TargetView)>::empty());
                    }
                    self.target = Some(table);
                    return Err(message);
                },
            }
        }
        assert(sections.take(items@.len() as int) == sections);
        Ok(true)
    }
}

} // verus!
