use vstd::prelude::*;
use crate::diagnostics::Diagnostic;
use crate::model::{Interface, InterfaceV, Member, MemberV};
use crate::rewrite::{rewrite_diagnostics, rewrite_member, rewritten_member};
use crate::token::{concat_runs, DeepCopy, Tok, TokV};

verus! {

/// The members after the bounds are added, in their order.
pub open spec fn rewritten_members(ms: Seq<MemberV>, bounds: Seq<Seq<TokV>>, lt: TokV) -> Seq<MemberV> {
    ms.map_values(|m: MemberV| rewritten_member(m, bounds, lt))
}

/// The diagnostics of rewriting the members, in member order.
pub open spec fn variant_diagnostics(ms: Seq<MemberV>) -> Seq<Diagnostic>
    decreases ms.len(),
{
    if ms.len() == 0 {
        Seq::empty()
    } else {
        variant_diagnostics(ms.drop_last()) + rewrite_diagnostics(ms.last())
    }
}

/// The variant trait: named `name`, with the bounds added to the supertraits and to every
/// member, and everything else as in the original. `lt` names the lifetime given to borrowed
/// receivers of deferred bodies.
pub open spec fn variant_of(name: TokV, bounds: Seq<Seq<TokV>>, tr: InterfaceV, lt: TokV) -> InterfaceV {
    InterfaceV {
        name,
        supertraits: tr.supertraits + bounds,
        members: rewritten_members(tr.members, bounds, lt),
        ..tr
    }
}

/// Builds the variant trait named `name` from `tr`.
pub fn make_variant(
    name: &Tok,
    bounds: &Vec<Vec<Tok>>,
    tr: &Interface,
    lt: &Tok,
    diags: &mut Vec<Diagnostic>,
) -> (r: Interface)
    ensures
        r@ == variant_of(name@, bounds.deep_view(), tr@, lt@),
        final(diags)@ == old(diags)@ + variant_diagnostics(tr@.members),
{
    let ghost ms = tr@.members;
    let ghost bv = bounds.deep_view();
    let ghost dstart = diags@;
    let mut members: Vec<Member> = Vec::new();
    let mut i: usize = 0;
    assert(ms.take(0) =~= Seq::<MemberV>::empty());
    assert(diags@ =~= dstart + variant_diagnostics(ms.take(0)));
    while i < tr.members.len()
        invariant
            i <= tr.members@.len(),
            ms == tr@.members,
            bv == bounds.deep_view(),
            members@.len() == i,
            forall|j: int| 0 <= j < i ==> #[trigger] members@[j]@ == rewritten_member(ms[j], bv, lt@),
            diags@ == dstart + variant_diagnostics(ms.take(i as int)),
        decreases tr.members@.len() - i,
    {
        assert(ms.take(i + 1).drop_last() =~= ms.take(i as int));
        assert(ms[i as int] == tr.members@[i as int]@);
        let m = rewrite_member(&tr.members[i], bounds, lt, diags);
        members.push(m);
        assert(diags@ =~= dstart + variant_diagnostics(ms.take(i + 1)));
        i = i + 1;
    }
    assert(ms.take(i as int) =~= ms);
    assert(members.deep_view() =~= rewritten_members(ms, bv, lt@));
    Interface {
        head: tr.head.deep_copy(),
        name: name.deep_copy(),
        generics: tr.generics.deep_copy(),
        supertraits: concat_runs(&tr.supertraits, bounds),
        members,
    }
}

} // verus!
