//! The dependency table of a manifest as a mathematical map, and what
//! merging component dependencies into it means.

use vstd::prelude::*;
use crate::catalog::{ComponentView, DependencyView};

verus! {

/// The shape in which a manifest states a dependency.
pub enum EntryForm {
    /// A bare version string.
    Bare,
    /// A reference to the workspace's declaration.
    Inherited,
    /// A detailed record.
    Detailed,
}

/// What a manifest holds under one key of its dependency table.
pub struct EntryView {
    /// The shape of the entry.
    pub form: EntryForm,
    /// The version requirement, where the entry states one.
    pub version: Option<Seq<char>>,
    /// The features switched on.
    pub features: Seq<Seq<char>>,
    /// Whether the dependency is optional.
    pub optional: bool,
    /// Whether the dependency's default features are on.
    pub default_features: bool,
    /// Whether the entry names no path, registry or git location.
    pub from_default_registry: bool,
}

/// A dependency table: the entry stored under each key.
pub type DependencyTable = Map<Seq<char>, EntryView>;

/// The entry that the merger writes for `dependency`: a detailed record
/// with its version, features and optional flag, default features on, from
/// the default registry.
pub open spec fn written_entry(dependency: DependencyView) -> EntryView {
    EntryView {
        form: EntryForm::Detailed,
        version: Some(dependency.version),
        features: dependency.features,
        optional: dependency.optional,
        default_features: true,
        from_default_registry: true,
    }
}

/// The table that results from writing `dependencies` into `base` one after
/// the other, each under its name and in place of what the name stood for.
pub open spec fn merged_table(base: DependencyTable, dependencies: Seq<DependencyView>) -> DependencyTable
    decreases dependencies.len(),
{
    if dependencies.len() == 0 {
        base
    } else {
        merged_table(base, dependencies.drop_last()).insert(
            dependencies.last().name,
            written_entry(dependencies.last()),
        )
    }
}

/// The dependencies that `components` contribute, in the order of the
/// components and, within one, in the order in which it declares them.
pub open spec fn contributed(components: Seq<ComponentView>) -> Seq<DependencyView>
    decreases components.len(),
{
    if components.len() == 0 {
        Seq::empty()
    } else {
        contributed(components.drop_last()) + components.last().dependencies
    }
}

/// Whether `dependencies[i]` is the last declaration of its name.
pub open spec fn is_last_of_name(dependencies: Seq<DependencyView>, i: int) -> bool {
    &&& 0 <= i < dependencies.len()
    &&& forall|j: int| i < j < dependencies.len() ==> dependencies[j].name != dependencies[i].name
}

/// Whether some declaration in `dependencies` has the name `name`.
pub open spec fn declares(dependencies: Seq<DependencyView>, name: Seq<char>) -> bool {
    exists|i: int| 0 <= i < dependencies.len() && dependencies[i].name == name
}

/// Writing `first + second` is writing `first` and then `second`.
pub proof fn lemma_merge_concat(
    base: DependencyTable,
    first: Seq<DependencyView>,
    second: Seq<DependencyView>,
)
    ensures
        merged_table(base, first + second) == merged_table(merged_table(base, first), second),
    decreases second.len(),
{
    if second.len() == 0 {
        assert(first + second =~= first);
    } else {
        lemma_merge_concat(base, first, second.drop_last());
        assert((first + second).drop_last() =~= first + second.drop_last());
        assert((first + second).last() == second.last());
    }
}

/// One more component contributes its dependencies after all the others.
pub proof fn lemma_contributed_push(components: Seq<ComponentView>, component: ComponentView)
    ensures
        contributed(components.push(component)) == contributed(components)
            + component.dependencies,
{
    assert(components.push(component).drop_last() =~= components);
}

/// A name that `dependencies` never declares stands after the merge for what
/// it stood for before.
pub proof fn lemma_undeclared_kept(
    base: DependencyTable,
    dependencies: Seq<DependencyView>,
    name: Seq<char>,
)
    requires
        !declares(dependencies, name),
    ensures
        merged_table(base, dependencies).contains_key(name) == base.contains_key(name),
        merged_table(base, dependencies)[name] == base[name],
    decreases dependencies.len(),
{
    if dependencies.len() > 0 {
        let earlier = dependencies.drop_last();
        let last = dependencies.len() - 1;
        assert(dependencies[last].name != name);
        assert forall|i: int| 0 <= i < earlier.len() implies earlier[i].name != name by {
            assert(earlier[i] == dependencies[i]);
        }
        lemma_undeclared_kept(base, earlier, name);
    }
}

/// Later wins: after the merge, a name stands for the record of its last
/// declaration, whatever it stood for before and whatever earlier
/// declarations said.
pub proof fn lemma_last_declaration_stays(
    base: DependencyTable,
    dependencies: Seq<DependencyView>,
    i: int,
)
    requires
        is_last_of_name(dependencies, i),
    ensures
        merged_table(base, dependencies).contains_key(dependencies[i].name),
        merged_table(base, dependencies)[dependencies[i].name] == written_entry(dependencies[i]),
    decreases dependencies.len(),
{
    let last = dependencies.len() - 1;
    if i < last {
        let earlier = dependencies.drop_last();
        assert(dependencies[last].name != dependencies[i].name);
        assert(earlier[i] == dependencies[i]);
        assert forall|j: int| i < j < earlier.len() implies earlier[j].name != earlier[i].name by {
            assert(earlier[j] == dependencies[j]);
        }
        lemma_last_declaration_stays(base, earlier, i);
    }
}

/// A name that is declared has a last declaration.
pub proof fn lemma_last_declaration_exists(dependencies: Seq<DependencyView>, name: Seq<char>)
    requires
        declares(dependencies, name),
    ensures
        exists|i: int| is_last_of_name(dependencies, i) && dependencies[i].name == name,
    decreases dependencies.len(),
{
    let last = dependencies.len() - 1;
    if dependencies[last].name == name {
        assert(is_last_of_name(dependencies, last));
    } else {
        let earlier = dependencies.drop_last();
        let k = choose|k: int| 0 <= k < dependencies.len() && dependencies[k].name == name;
        assert(earlier[k] == dependencies[k]);
        lemma_last_declaration_exists(earlier, name);
        let i = choose|i: int| is_last_of_name(earlier, i) && earlier[i].name == name;
        assert(dependencies[i] == earlier[i]);
        assert forall|j: int| i < j < dependencies.len() implies dependencies[j].name
            != dependencies[i].name by {
            if j < last {
                assert(earlier[j] == dependencies[j]);
            }
        }
        assert(is_last_of_name(dependencies, i));
    }
}

/// Merging is idempotent: writing the same dependencies a second time into
/// a table that already holds them changes nothing.
pub proof fn lemma_merge_idempotent(base: DependencyTable, dependencies: Seq<DependencyView>)
    ensures
        merged_table(merged_table(base, dependencies), dependencies) == merged_table(
            base,
            dependencies,
        ),
{
    let once = merged_table(base, dependencies);
    let twice = merged_table(once, dependencies);
    assert forall|name: Seq<char>|
        (#[trigger] twice.dom().contains(name)) == once.dom().contains(name) && twice[name]
            == once[name] by {
        if declares(dependencies, name) {
            lemma_last_declaration_exists(dependencies, name);
            let i = choose|i: int| is_last_of_name(dependencies, i) && dependencies[i].name == name;
            lemma_last_declaration_stays(base, dependencies, i);
            lemma_last_declaration_stays(once, dependencies, i);
        } else {
            lemma_undeclared_kept(once, dependencies, name);
        }
    }
    assert(twice =~= once);
}

/// Merging the dependencies of the same components a second time into a
/// table that already holds them changes nothing.
pub proof fn lemma_component_merge_idempotent(
    base: DependencyTable,
    components: Seq<ComponentView>,
)
    ensures
        merged_table(merged_table(base, contributed(components)), contributed(components))
            == merged_table(base, contributed(components)),
{
    lemma_merge_idempotent(base, contributed(components));
}

/// Precedence among components: where component `k` declares a name last at
/// position `i` of its dependencies and no later component declares that
/// name, the name stands after the merge for that declaration, whatever
/// earlier components declared under it.
pub proof fn lemma_later_component_wins(
    base: DependencyTable,
    components: Seq<ComponentView>,
    k: int,
    i: int,
)
    requires
        0 <= k < components.len(),
        is_last_of_name(components[k].dependencies, i),
        forall|j: int|
            k < j < components.len() ==> !declares(
                #[trigger] components[j].dependencies,
                components[k].dependencies[i].name,
            ),
    ensures
        merged_table(base, contributed(components)).contains_key(
            components[k].dependencies[i].name,
        ),
        merged_table(base, contributed(components))[components[k].dependencies[i].name]
            == written_entry(components[k].dependencies[i]),
    decreases components.len(),
{
    let earlier = components.drop_last();
    let last = components.len() - 1;
    let name = components[k].dependencies[i].name;
    lemma_merge_concat(base, contributed(earlier), components[last].dependencies);
    let before = merged_table(base, contributed(earlier));
    if k == last {
        lemma_last_declaration_stays(before, components[last].dependencies, i);
    } else {
        assert(earlier[k] == components[k]);
        assert forall|j: int| k < j < earlier.len() implies !declares(
            #[trigger] earlier[j].dependencies,
            name,
        ) by {
            assert(earlier[j] == components[j]);
        }
        lemma_later_component_wins(base, earlier, k, i);
        assert(!declares(components[last].dependencies, name));
        lemma_undeclared_kept(before, components[last].dependencies, name);
    }
}

} // verus!
