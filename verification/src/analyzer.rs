//! Counting the spaces of a parsed file by kind.
use vstd::prelude::*;

use crate::extraction::{
    forest_kind_count, forest_space_count, functions_in_forest, functions_in_tree, kind_count,
    law_functions_are_reachable_function_spaces, space_at, space_count, SpaceKind, SpaceTree,
};

verus! {

/// The class under which a space is counted.
pub enum KindClass {
    Function,
    Unit,
    Other,
}

/// The class of a space kind: functions and units apart, everything else together.
pub open spec fn class_of(kind: SpaceKind) -> KindClass {
    match kind {
        SpaceKind::Function => KindClass::Function,
        SpaceKind::Unit => KindClass::Unit,
        _ => KindClass::Other,
    }
}

/// The number of spaces of class `c` in a tree, the root included.
pub open spec fn tree_count<T>(t: SpaceTree<T>, c: KindClass) -> nat
    decreases t,
{
    (if class_of(t.kind) == c {
        1nat
    } else {
        0nat
    }) + forest_count(t.spaces@, c)
}

/// The number of spaces of class `c` in a sequence of trees.
pub open spec fn forest_count<T>(s: Seq<SpaceTree<T>>, c: KindClass) -> nat
    decreases s,
{
    if s.len() == 0 {
        0
    } else {
        forest_count(s.drop_last(), c) + tree_count(s.last(), c)
    }
}

/// A forest's count is no more than the count of any tree whose children it prefixes.
pub proof fn lemma_forest_prefix<T>(s: Seq<SpaceTree<T>>, i: int, c: KindClass)
    requires
        0 <= i <= s.len(),
    ensures
        forest_count(s.subrange(0, i), c) <= forest_count(s, c),
    decreases s.len() - i,
{
    if i < s.len() {
        lemma_forest_prefix(s, i + 1, c);
        assert(s.subrange(0, i + 1).drop_last() =~= s.subrange(0, i));
    } else {
        assert(s.subrange(0, i) =~= s);
    }
}

/// The functions that `collect_functions` gathers from a tree are as many as the function
/// spaces that `count_space_kinds` counts in it.
pub proof fn law_collected_functions_are_counted<T>(t: SpaceTree<T>)
    ensures
        functions_in_tree(t).len() == tree_count(t, KindClass::Function),
    decreases t,
{
    lemma_forest_functions_counted(t.spaces@);
}

proof fn lemma_forest_functions_counted<T>(s: Seq<SpaceTree<T>>)
    ensures
        functions_in_forest(s).len() == forest_count(s, KindClass::Function),
    decreases s,
{
    if s.len() > 0 {
        lemma_forest_functions_counted(s.drop_last());
        law_collected_functions_are_counted(s.last());
    }
}

/// The spaces of the kinds that are counted neither as functions nor as units.
pub open spec fn other_kinds_count<T>(t: SpaceTree<T>) -> nat {
    kind_count(t, SpaceKind::Unknown) + kind_count(t, SpaceKind::Class) + kind_count(t, SpaceKind::Struct)
        + kind_count(t, SpaceKind::Trait) + kind_count(t, SpaceKind::Impl) + kind_count(t, SpaceKind::Namespace)
        + kind_count(t, SpaceKind::Interface)
}

/// Spaces are counted by their kind: as functions exactly the spaces of kind `Function`, as
/// units exactly those of kind `Unit`, and as other exactly those of the seven other kinds;
/// every space of the tree is counted once.
pub proof fn law_counts_by_kind<T>(t: SpaceTree<T>)
    ensures
        tree_count(t, KindClass::Function) == kind_count(t, SpaceKind::Function),
        tree_count(t, KindClass::Unit) == kind_count(t, SpaceKind::Unit),
        tree_count(t, KindClass::Other) == other_kinds_count(t),
        tree_count(t, KindClass::Function) + tree_count(t, KindClass::Unit) + tree_count(t, KindClass::Other)
            == space_count(t),
    decreases t,
{
    lemma_forest_counts_by_kind(t.spaces@);
}

proof fn lemma_forest_counts_by_kind<T>(s: Seq<SpaceTree<T>>)
    ensures
        forest_count(s, KindClass::Function) == forest_kind_count(s, SpaceKind::Function),
        forest_count(s, KindClass::Unit) == forest_kind_count(s, SpaceKind::Unit),
        forest_count(s, KindClass::Other) == forest_kind_count(s, SpaceKind::Unknown) + forest_kind_count(
            s,
            SpaceKind::Class,
        ) + forest_kind_count(s, SpaceKind::Struct) + forest_kind_count(s, SpaceKind::Trait) + forest_kind_count(
            s,
            SpaceKind::Impl,
        ) + forest_kind_count(s, SpaceKind::Namespace) + forest_kind_count(s, SpaceKind::Interface),
        forest_count(s, KindClass::Function) + forest_count(s, KindClass::Unit) + forest_count(s, KindClass::Other)
            == forest_space_count(s),
    decreases s,
{
    if s.len() > 0 {
        lemma_forest_counts_by_kind(s.drop_last());
        law_counts_by_kind(s.last());
    }
}

/// The functions that `collect_functions` gathers from a tree are the items of its function
/// spaces, however deeply nested, one for each space of kind `Function`: every function space
/// that a path from the root reaches gives its item, and every item gathered is that of such a
/// space.
pub proof fn law_collected_functions_are_the_function_spaces<T>(t: SpaceTree<T>)
    ensures
        functions_in_tree(t).len() == kind_count(t, SpaceKind::Function),
        forall|p: Seq<int>|
            #[trigger] space_at(t, p) matches Some(sp) ==> (sp.kind == SpaceKind::Function ==> functions_in_tree(
                t,
            ).contains(sp.item)),
        forall|x: T|
            #[trigger] functions_in_tree(t).contains(x) ==> exists|p: Seq<int>|
                (#[trigger] space_at(t, p) matches Some(sp) && sp.kind == SpaceKind::Function && sp.item == x),
{
    law_collected_functions_are_counted(t);
    law_counts_by_kind(t);
    law_functions_are_reachable_function_spaces(t);
}

/// Item counts of a parsed file, by kind.
#[derive(Debug, Clone)]
pub struct ItemCounts {
    pub functions: usize,
    pub units: usize,
    pub other: usize,
}

impl Default for ItemCounts {
    fn default() -> (r: Self)
        ensures
            r.functions == 0,
            r.units == 0,
            r.other == 0,
    {
        ItemCounts { functions: 0, units: 0, other: 0 }
    }
}

/// Count items in a space tree by kind.
pub fn count_space_kinds<T>(space: &SpaceTree<T>) -> (r: ItemCounts)
    requires
        tree_count(*space, KindClass::Function) <= usize::MAX,
        tree_count(*space, KindClass::Unit) <= usize::MAX,
        tree_count(*space, KindClass::Other) <= usize::MAX,
    ensures
        r.functions == tree_count(*space, KindClass::Function),
        r.units == tree_count(*space, KindClass::Unit),
        r.other == tree_count(*space, KindClass::Other),
        r.functions == kind_count(*space, SpaceKind::Function),
        r.units == kind_count(*space, SpaceKind::Unit),
        r.other == other_kinds_count(*space),
        r.functions + r.units + r.other == space_count(*space),
{
    let mut counts = ItemCounts::default();
    count_recursive(space, &mut counts);
    proof {
        law_counts_by_kind(*space);
    }
    counts
}

fn count_recursive<T>(space: &SpaceTree<T>, counts: &mut ItemCounts)
    requires
        old(counts).functions + tree_count(*space, KindClass::Function) <= usize::MAX,
        old(counts).units + tree_count(*space, KindClass::Unit) <= usize::MAX,
        old(counts).other + tree_count(*space, KindClass::Other) <= usize::MAX,
    ensures
        final(counts).functions == old(counts).functions + tree_count(*space, KindClass::Function),
        final(counts).units == old(counts).units + tree_count(*space, KindClass::Unit),
        final(counts).other == old(counts).other + tree_count(*space, KindClass::Other),
    decreases space,
{
    let ghost f0 = counts.functions;
    let ghost u0 = counts.units;
    let ghost o0 = counts.other;
    match space.kind {
        SpaceKind::Function => counts.functions = counts.functions + 1,
        SpaceKind::Unit => counts.units = counts.units + 1,
        _ => counts.other = counts.other + 1,
    }
    let ghost f1 = counts.functions;
    let ghost u1 = counts.units;
    let ghost o1 = counts.other;
    let n = space.spaces.len();
    let mut i: usize = 0;
    while i < n
        invariant
            n == space.spaces@.len(),
            i <= n,
            f1 + forest_count(space.spaces@, KindClass::Function) <= usize::MAX,
            u1 + forest_count(space.spaces@, KindClass::Unit) <= usize::MAX,
            o1 + forest_count(space.spaces@, KindClass::Other) <= usize::MAX,
            counts.functions == f1 + forest_count(space.spaces@.subrange(0, i as int), KindClass::Function),
            counts.units == u1 + forest_count(space.spaces@.subrange(0, i as int), KindClass::Unit),
            counts.other == o1 + forest_count(space.spaces@.subrange(0, i as int), KindClass::Other),
        decreases n - i,
    {
        let ghost pre = space.spaces@.subrange(0, i + 1);
        assert(pre.drop_last() =~= space.spaces@.subrange(0, i as int));
        proof {
            lemma_forest_prefix(space.spaces@, i + 1, KindClass::Function);
            lemma_forest_prefix(space.spaces@, i + 1, KindClass::Unit);
            lemma_forest_prefix(space.spaces@, i + 1, KindClass::Other);
        }
        count_recursive(&space.spaces[i], counts);
        i = i + 1;
    }
    assert(space.spaces@.subrange(0, n as int) =~= space.spaces@);
}

} // verus!
