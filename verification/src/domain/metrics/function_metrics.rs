//! Function-level facts that carry no measurement.
use vstd::prelude::*;

verus! {

/// The kind of function-like construct.
#[derive(Debug, Clone, Copy, PartialEq, Eq, Structural)]
pub enum FunctionKind {
    Function,
    Closure,
}

/// How many of `kinds` are closures.
pub open spec fn closures_in(kinds: Seq<FunctionKind>) -> nat
    decreases kinds.len(),
{
    if kinds.len() == 0 {
        0
    } else {
        closures_in(kinds.drop_last()) + if kinds.last() == FunctionKind::Closure {
            1nat
        } else {
            0nat
        }
    }
}

/// The closures among `kinds` are the kinds that are `Closure`: as many as filtering them
/// out of the whole sequence keeps.
pub proof fn law_closures_are_the_closure_kinds(kinds: Seq<FunctionKind>)
    ensures
        closures_in(kinds) == kinds.filter(|k: FunctionKind| k == FunctionKind::Closure).len(),
    decreases kinds.len(),
{
    reveal(Seq::filter);
    if kinds.len() > 0 {
        law_closures_are_the_closure_kinds(kinds.drop_last());
    }
}

/// Counting closures over two lists of functions together gives the sum of their counts; a
/// single closure counts one and a single plain function none.
pub proof fn law_closures_add(s: Seq<FunctionKind>, t: Seq<FunctionKind>)
    ensures
        closures_in(s + t) == closures_in(s) + closures_in(t),
        closures_in(seq![FunctionKind::Closure]) == 1,
        closures_in(seq![FunctionKind::Function]) == 0,
    decreases t.len(),
{
    let one_closure = seq![FunctionKind::Closure];
    let one_function = seq![FunctionKind::Function];
    assert(one_closure.drop_last() =~= Seq::<FunctionKind>::empty());
    assert(one_function.drop_last() =~= Seq::<FunctionKind>::empty());
    assert(closures_in(Seq::<FunctionKind>::empty()) == 0);
    assert(one_closure.last() == FunctionKind::Closure);
    assert(one_function.last() == FunctionKind::Function);
    if t.len() == 0 {
        assert(s + t =~= s);
    } else {
        law_closures_add(s, t.drop_last());
        assert((s + t).drop_last() =~= s + t.drop_last());
    }
}

/// Number of closures among the functions of a file, given their kinds in order.
pub fn count_closures(kinds: &[FunctionKind]) -> (r: usize)
    ensures
        r == closures_in(kinds@),
        r == kinds@.filter(|k: FunctionKind| k == FunctionKind::Closure).len(),
{
    let mut count: usize = 0;
    let mut i: usize = 0;
    while i < kinds.len()
        invariant
            i <= kinds@.len(),
            count == closures_in(kinds@.subrange(0, i as int)),
            count <= i,
        decreases kinds@.len() - i,
    {
        assert(kinds@.subrange(0, i + 1).drop_last() =~= kinds@.subrange(0, i as int));
        if kinds[i] == FunctionKind::Closure {
            count = count + 1;
        }
        i = i + 1;
    }
    assert(kinds@.subrange(0, i as int) =~= kinds@);
    proof {
        law_closures_are_the_closure_kinds(kinds@);
    }
    count
}

} // verus!
