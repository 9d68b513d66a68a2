use vstd::prelude::*;
use crate::bridge::{bridge_item, bridge_items, BridgeItemV, ForwardArgV};
use crate::directive::TransformModeV;
use crate::engine::{blanket_param, emitted, receiver_lifetime, written, ArtifactV};
use crate::fresh::{lemma_longest_ident, longest_ident, padded};
use crate::model::{InterfaceV, MemberV, MethodV, ReturnTypeV};
use crate::rewrite::{declared_result, future_bound, rewritten_method};
use crate::token::TokV;
use crate::variant::rewritten_members;

verus! {

/// A method that the rewrite touches: an `async fn`, or one returning `impl Trait`.
pub open spec fn is_async_or_opaque(m: MemberV) -> bool {
    m matches MemberV::Method(f) && (f.sig.is_async || f.sig.output is Opaque)
}

/// The position of the variant among the emitted declarations.
pub open spec fn variant_index(mode: TransformModeV) -> int {
    if mode is CreateNamed {
        1
    } else {
        0
    }
}

/// For a trait with no `async fn` and no method returning `impl Trait`, the variant has exactly
/// the original's members, attributes and generics, and its supertraits are the original's
/// followed by the added bounds.
pub proof fn lemma_plain_trait_keeps_members(mode: TransformModeV, tr: InterfaceV)
    requires
        forall|i: int| 0 <= i < tr.members.len() ==> !is_async_or_opaque(#[trigger] tr.members[i]),
    ensures
        emitted(mode, tr).artifacts[variant_index(mode)] matches ArtifactV::Trait { decl, .. }
            && decl.members == tr.members && decl.supertraits == tr.supertraits + mode.bounds()
            && decl.head == tr.head && decl.generics == tr.generics,
{
    assert(rewritten_members(tr.members, mode.bounds(), receiver_lifetime(mode, tr)) =~= tr.members);
}

/// An `async fn` without a body becomes a synchronous method returning
/// `impl Future<Output = R> + bounds`, with its receiver and parameters unchanged.
pub proof fn lemma_async_signature(m: MethodV, bounds: Seq<Seq<TokV>>, lt: TokV)
    requires
        m.sig.is_async,
        m.body is None,
    ensures
        !rewritten_method(m, bounds, lt).sig.is_async,
        rewritten_method(m, bounds, lt).sig.output == ReturnTypeV::Opaque(
            seq![future_bound(declared_result(m.sig.output))] + bounds,
        ),
        rewritten_method(m, bounds, lt).sig.receiver == m.sig.receiver,
        rewritten_method(m, bounds, lt).sig.params == m.sig.params,
        rewritten_method(m, bounds, lt).sig.name == m.sig.name,
{
}

/// Rewriting in place emits one declaration, the rewritten trait under its own name, and no
/// bridge.
pub proof fn lemma_in_place_emits_one(bounds: Seq<Seq<TokV>>, tr: InterfaceV)
    ensures
        emitted(TransformModeV::RewriteInPlace { bounds }, tr).artifacts.len() == 1,
        emitted(TransformModeV::RewriteInPlace { bounds }, tr).artifacts[0] matches ArtifactV::Trait {
            decl,
            ..
        } && decl.name == tr.name,
        forall|i: int|
            0 <= i < emitted(TransformModeV::RewriteInPlace { bounds }, tr).artifacts.len()
                ==> !(#[trigger] emitted(
                TransformModeV::RewriteInPlace { bounds },
                tr,
            ).artifacts[i] is Bridge),
{
}

/// Under a new name, three declarations are emitted: the original unchanged, the variant under
/// the new name, and the bridge from the variant to the original.
pub proof fn lemma_named_emits_three(name: TokV, bounds: Seq<Seq<TokV>>, tr: InterfaceV)
    requires
        name != tr.name,
    ensures
        emitted(TransformModeV::CreateNamed { name, bounds }, tr).artifacts.len() == 3,
        emitted(TransformModeV::CreateNamed { name, bounds }, tr).artifacts[0] matches ArtifactV::Trait {
            decl,
            ..
        } && decl == tr,
        emitted(TransformModeV::CreateNamed { name, bounds }, tr).artifacts[1] matches ArtifactV::Trait {
            decl,
            ..
        } && decl.name == name,
        emitted(TransformModeV::CreateNamed { name, bounds }, tr).artifacts[2] matches ArtifactV::Bridge(
            b,
        ) && b.trait_name == tr.name && b.variant_name == name && b.items == bridge_items(
            tr.members,
        ),
{
}

/// The bridge forwards a method with one argument per parameter, after the receiver if there is
/// one, in declared order and under the parameters' own identifiers.
pub proof fn lemma_forwarding_args(f: MethodV)
    ensures
        bridge_item(MemberV::Method(f)) matches Some(BridgeItemV::Method { args, awaited, .. }) && {
            let k: int = if f.sig.receiver is Some {
                1
            } else {
                0
            };
            &&& args.len() == k + f.sig.params.len()
            &&& awaited == f.sig.is_async
            &&& (f.sig.receiver matches Some(r) ==> args[0] == ForwardArgV::Receiver(r.self_tok))
            &&& forall|j: int|
                0 <= j < f.sig.params.len() ==> #[trigger] args[k + j] == match f.sig.params[j].name {
                    Some(n) => ForwardArgV::Named(n),
                    None => ForwardArgV::Placeholder,
                }
        },
{
}

/// The type parameter of the blanket impl and the lifetime given to borrowed receivers differ
/// from every identifier written in the trait, its bounds and the new name, so neither can
/// capture or shadow a name of the input.
pub proof fn lemma_fresh_names(mode: TransformModeV, tr: InterfaceV)
    ensures
        forall|i: int|
            0 <= i < written(mode, tr).len() && (#[trigger] written(mode, tr)[i] is Ident) ==> {
                &&& written(mode, tr)[i]->Ident_text != blanket_param(mode, tr)->Ident_text
                &&& written(mode, tr)[i]->Ident_text != receiver_lifetime(mode, tr)->Ident_text
            },
{
    let w = written(mode, tr);
    lemma_longest_ident(w);
    assert(padded("TraitVariantBlanketType"@, longest_ident(w)).len() > longest_ident(w));
    assert(padded("__self_lt"@, longest_ident(w)).len() > longest_ident(w));
}

} // verus!
