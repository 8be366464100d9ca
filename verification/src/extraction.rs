//! The shape of parsed source: a tree of nested spaces (the file, impl blocks, functions).
//!
//! The parser itself is an implementation detail; the library sees only the kind of each
//! space, its nesting, and an item that the caller attaches to each space.
pub mod rca;

use vstd::prelude::*;

verus! {

/// The kind of a space in a parsed source file.
#[derive(Debug, Clone, Copy, PartialEq, Eq, Structural)]
pub enum SpaceKind {
    Unknown,
    Function,
    Class,
    Struct,
    Trait,
    Impl,
    Unit,
    Namespace,
    Interface,
}

/// A space with the spaces nested in it, in source order. `item` is what the caller
/// keeps for the space (for instance a reference to the parser's own node).
pub struct SpaceTree<T> {
    pub kind: SpaceKind,
    pub item: T,
    pub spaces: Vec<SpaceTree<T>>,
}

/// The items of the function spaces of a tree, in pre-order: a space before the spaces
/// nested in it, and nested spaces in source order.
pub open spec fn functions_in_tree<T>(t: SpaceTree<T>) -> Seq<T>
    decreases t,
{
    (if t.kind == SpaceKind::Function {
        seq![t.item]
    } else {
        Seq::<T>::empty()
    }) + functions_in_forest(t.spaces@)
}

/// The items of the function spaces of a sequence of trees, tree after tree.
pub open spec fn functions_in_forest<T>(s: Seq<SpaceTree<T>>) -> Seq<T>
    decreases s,
{
    if s.len() == 0 {
        Seq::<T>::empty()
    } else {
        functions_in_forest(s.drop_last()) + functions_in_tree(s.last())
    }
}

/// The number of spaces of kind `k` in a tree, the root included.
pub open spec fn kind_count<T>(t: SpaceTree<T>, k: SpaceKind) -> nat
    decreases t,
{
    (if t.kind == k {
        1nat
    } else {
        0nat
    }) + forest_kind_count(t.spaces@, k)
}

/// The number of spaces of kind `k` in a sequence of trees.
pub open spec fn forest_kind_count<T>(s: Seq<SpaceTree<T>>, k: SpaceKind) -> nat
    decreases s,
{
    if s.len() == 0 {
        0
    } else {
        forest_kind_count(s.drop_last(), k) + kind_count(s.last(), k)
    }
}

/// The number of spaces in a tree, the root included.
pub open spec fn space_count<T>(t: SpaceTree<T>) -> nat
    decreases t,
{
    1 + forest_space_count(t.spaces@)
}

/// The number of spaces in a sequence of trees.
pub open spec fn forest_space_count<T>(s: Seq<SpaceTree<T>>) -> nat
    decreases s,
{
    if s.len() == 0 {
        0
    } else {
        forest_space_count(s.drop_last()) + space_count(s.last())
    }
}

/// The space reached from the root of `t` by following `path`: at each step, the nested space
/// at that index. `None` where an index is out of range.
pub open spec fn space_at<T>(t: SpaceTree<T>, path: Seq<int>) -> Option<SpaceTree<T>>
    decreases path.len(),
{
    if path.len() == 0 {
        Some(t)
    } else if 0 <= path[0] < t.spaces@.len() {
        space_at(t.spaces@[path[0]], path.drop_first())
    } else {
        None
    }
}

/// A sequence joined from two holds exactly what either of them holds.
pub proof fn lemma_concat_contains<A>(a: Seq<A>, b: Seq<A>, x: A)
    ensures
        (a + b).contains(x) <==> a.contains(x) || b.contains(x),
{
    if a.contains(x) {
        let i = choose|i: int| 0 <= i < a.len() && a[i] == x;
        assert((a + b)[i] == x);
    }
    if b.contains(x) {
        let j = choose|j: int| 0 <= j < b.len() && b[j] == x;
        assert((a + b)[a.len() + j] == x);
    }
    if (a + b).contains(x) {
        let k = choose|k: int| 0 <= k < (a + b).len() && (a + b)[k] == x;
        if k < a.len() {
            assert(a[k] == x);
        } else {
            assert(b[k - a.len()] == x);
        }
    }
}

/// What the functions of one tree of a forest hold, the forest's functions hold.
proof fn lemma_forest_contains<T>(s: Seq<SpaceTree<T>>, i: int, x: T)
    requires
        0 <= i < s.len(),
        functions_in_tree(s[i]).contains(x),
    ensures
        functions_in_forest(s).contains(x),
    decreases s.len(),
{
    lemma_concat_contains(functions_in_forest(s.drop_last()), functions_in_tree(s.last()), x);
    if i < s.len() - 1 {
        assert(s.drop_last()[i] == s[i]);
        lemma_forest_contains(s.drop_last(), i, x);
    }
}

/// What a forest's functions hold, the functions of one of its trees hold.
proof fn lemma_forest_member<T>(s: Seq<SpaceTree<T>>, x: T)
    requires
        functions_in_forest(s).contains(x),
    ensures
        exists|i: int| 0 <= i < s.len() && #[trigger] functions_in_tree(s[i]).contains(x),
    decreases s.len(),
{
    if s.len() == 0 {
        assert(functions_in_forest(s) =~= Seq::<T>::empty());
    } else {
        lemma_concat_contains(functions_in_forest(s.drop_last()), functions_in_tree(s.last()), x);
        if functions_in_forest(s.drop_last()).contains(x) {
            lemma_forest_member(s.drop_last(), x);
            let i = choose|i: int| 0 <= i < s.drop_last().len() && #[trigger] functions_in_tree(s.drop_last()[i]).contains(x);
            assert(s.drop_last()[i] == s[i]);
            assert(functions_in_tree(s[i]).contains(x));
        } else {
            assert(functions_in_tree(s[s.len() - 1]).contains(x));
        }
    }
}

/// The functions of a tree are its function spaces, however deeply nested: the item of every
/// function space that a path from the root reaches is among them, and each of them is the
/// item of a function space that a path reaches.
pub proof fn law_functions_are_reachable_function_spaces<T>(t: SpaceTree<T>)
    ensures
        forall|p: Seq<int>|
            #[trigger] space_at(t, p) matches Some(sp) ==> (sp.kind == SpaceKind::Function ==> functions_in_tree(
                t,
            ).contains(sp.item)),
        forall|x: T|
            #[trigger] functions_in_tree(t).contains(x) ==> exists|p: Seq<int>|
                (#[trigger] space_at(t, p) matches Some(sp) && sp.kind == SpaceKind::Function && sp.item == x),
    decreases t,
{
    let own = if t.kind == SpaceKind::Function {
        seq![t.item]
    } else {
        Seq::<T>::empty()
    };
    let forest = functions_in_forest(t.spaces@);
    assert forall|p: Seq<int>|
        (#[trigger] space_at(t, p) is Some && space_at(t, p)->0.kind == SpaceKind::Function) implies functions_in_tree(
            t,
        ).contains(space_at(t, p)->0.item) by {
        let sp = space_at(t, p)->0;
        if p.len() == 0 {
            assert(own[0] == sp.item);
            lemma_concat_contains(own, forest, sp.item);
        } else {
            let i = p[0];
            let c = t.spaces@[i];
            law_functions_are_reachable_function_spaces(c);
            assert(space_at(c, p.drop_first()) == Some(sp));
            lemma_forest_contains(t.spaces@, i, sp.item);
            lemma_concat_contains(own, forest, sp.item);
        }
    }
    assert forall|x: T| #[trigger] functions_in_tree(t).contains(x) implies exists|p: Seq<int>|
        (#[trigger] space_at(t, p) matches Some(sp) && sp.kind == SpaceKind::Function && sp.item == x) by {
        lemma_concat_contains(own, forest, x);
        if own.contains(x) {
            assert(space_at(t, Seq::<int>::empty()) == Some(t));
        } else {
            lemma_forest_member(t.spaces@, x);
            let i = choose|i: int| 0 <= i < t.spaces@.len() && #[trigger] functions_in_tree(t.spaces@[i]).contains(x);
            let c = t.spaces@[i];
            law_functions_are_reachable_function_spaces(c);
            let q = choose|q: Seq<int>| (#[trigger] space_at(c, q) matches Some(sp) && sp.kind == SpaceKind::Function && sp.item == x);
            let p = seq![i] + q;
            assert(p[0] == i);
            assert(p.drop_first() =~= q);
            assert(space_at(t, p) == space_at(c, q));
        }
    }
}

} // verus!
