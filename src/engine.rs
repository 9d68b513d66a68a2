use vstd::prelude::*;
use crate::bridge::{bridge_diagnostics, bridge_of, make_bridge, BridgeImpl, BridgeImplV};
use crate::diagnostics::Diagnostic;
use crate::directive::{bound_is_send, is_send_bound, TransformMode, TransformModeV};
use crate::model::{Interface, InterfaceV};
use crate::fresh::{fresh_name, longest_ident, padded};
use crate::render::{interface_text, render_interface};
use crate::token::{
    ident_v, join_with, punct_v, push_joined, push_tok, DeepCopy, Tok, TokV, CALL_SITE, MIXED_SITE,
};
use crate::variant::{make_variant, variant_diagnostics, variant_of};

verus! {

/// A declaration to emit: a trait (with `#[allow(async_fn_in_trait)]` where asked) or the
/// blanket impl that bridges a variant to its original.
#[derive(Debug, PartialEq, Eq)]
pub enum Artifact {
    Trait { decl: Interface, allow_async_lint: bool },
    Bridge(BridgeImpl),
}

pub enum ArtifactV {
    Trait { decl: InterfaceV, allow_async_lint: bool },
    Bridge(BridgeImplV),
}

impl View for Artifact {
    type V = ArtifactV;

    open spec fn view(&self) -> ArtifactV {
        match self {
            Artifact::Trait { decl, allow_async_lint } => ArtifactV::Trait {
                decl: decl@,
                allow_async_lint: *allow_async_lint,
            },
            Artifact::Bridge(b) => ArtifactV::Bridge(b@),
        }
    }
}

impl DeepView for Artifact {
    type V = ArtifactV;

    open spec fn deep_view(&self) -> ArtifactV {
        self@
    }
}

/// The declarations to emit, in order, and the diagnostics to report.
#[derive(Debug, PartialEq, Eq)]
pub struct EmitSet {
    pub artifacts: Vec<Artifact>,
    pub diagnostics: Vec<Diagnostic>,
}

pub struct EmitSetV {
    pub artifacts: Seq<ArtifactV>,
    pub diagnostics: Seq<Diagnostic>,
}

impl View for EmitSet {
    type V = EmitSetV;

    open spec fn view(&self) -> EmitSetV {
        EmitSetV { artifacts: self.artifacts.deep_view(), diagnostics: self.diagnostics@ }
    }
}

/// Some bound's last path segment is `Send`.
pub open spec fn has_send_bound(bounds: Seq<Seq<TokV>>) -> bool {
    exists|i: int| 0 <= i < bounds.len() && is_send_bound(#[trigger] bounds[i])
}

/// Every token that the trait and the directive write: the trait, the bounds, and the new name.
pub open spec fn written(mode: TransformModeV, tr: InterfaceV) -> Seq<TokV> {
    interface_text(tr) + join_with(mode.bounds(), punct_v('+')) + match mode {
        TransformModeV::CreateNamed { name, .. } => seq![name],
        TransformModeV::RewriteInPlace { .. } => Seq::empty(),
    }
}

/// The type parameter of the blanket impl: longer than every identifier written in the input.
pub open spec fn blanket_param(mode: TransformModeV, tr: InterfaceV) -> TokV {
    ident_v(padded("TraitVariantBlanketType"@, longest_ident(written(mode, tr))), CALL_SITE)
}

/// The name of the lifetime given to borrowed receivers of deferred bodies: longer than every
/// identifier written in the input.
pub open spec fn receiver_lifetime(mode: TransformModeV, tr: InterfaceV) -> TokV {
    ident_v(padded("__self_lt"@, longest_ident(written(mode, tr))), MIXED_SITE)
}

/// What the engine emits for a trait under a directive. A new name keeps the original trait
/// (its `async fn` lint allowed when a bound is `Send`), adds the variant and bridges it back;
/// no name replaces the trait with its variant under the same name. Either way each member of an
/// unsupported kind is reported once, and kept as written in the emitted traits.
pub open spec fn emitted(mode: TransformModeV, tr: InterfaceV) -> EmitSetV {
    match mode {
        TransformModeV::CreateNamed { name, bounds } => EmitSetV {
            artifacts: seq![
                ArtifactV::Trait { decl: tr, allow_async_lint: has_send_bound(bounds) },
                ArtifactV::Trait {
                    decl: variant_of(name, bounds, tr, receiver_lifetime(mode, tr)),
                    allow_async_lint: false,
                },
                ArtifactV::Bridge(
                    bridge_of(name, bounds, tr, blanket_param(mode, tr), receiver_lifetime(mode, tr)),
                ),
            ],
            diagnostics: variant_diagnostics(tr.members) + bridge_diagnostics(tr.members),
        },
        TransformModeV::RewriteInPlace { bounds } => EmitSetV {
            artifacts: seq![
                ArtifactV::Trait {
                    decl: variant_of(tr.name, bounds, tr, receiver_lifetime(mode, tr)),
                    allow_async_lint: false,
                },
            ],
            diagnostics: variant_diagnostics(tr.members),
        },
    }
}

fn any_send(bounds: &Vec<Vec<Tok>>) -> (r: bool)
    ensures
        r == has_send_bound(bounds.deep_view()),
{
    let ghost bv = bounds.deep_view();
    let mut i: usize = 0;
    while i < bounds.len()
        invariant
            i <= bounds@.len(),
            bv == bounds.deep_view(),
            forall|j: int| 0 <= j < i ==> !is_send_bound(#[trigger] bv[j]),
        decreases bounds@.len() - i,
    {
        if bound_is_send(&bounds[i]) {
            assert(is_send_bound(bv[i as int]));
            return true;
        }
        i = i + 1;
    }
    false
}

/// Transforms a trait under a directive into the declarations to emit.
pub fn transform(mode: &TransformMode, tr: &Interface) -> (r: EmitSet)
    ensures
        r@ == emitted(mode@, tr@),
{
    let mut diagnostics: Vec<Diagnostic> = Vec::new();
    let mut artifacts: Vec<Artifact> = Vec::new();
    let mut w: Vec<Tok> = Vec::new();
    render_interface(&mut w, tr);
    push_joined(&mut w, mode.bounds(), '+');
    match mode {
        TransformMode::CreateNamed { name, .. } => push_tok(&mut w, name.deep_copy()),
        TransformMode::RewriteInPlace { .. } => {},
    }
    assert(w.deep_view() =~= written(mode@, tr@));
    let self_ty = fresh_name("TraitVariantBlanketType", &w, CALL_SITE);
    let lt = fresh_name("__self_lt", &w, MIXED_SITE);
    match mode {
        TransformMode::CreateNamed { name, bounds } => {
            let allow = any_send(bounds);
            artifacts.push(Artifact::Trait { decl: tr.deep_copy(), allow_async_lint: allow });
            let variant = make_variant(name, bounds, tr, &lt, &mut diagnostics);
            artifacts.push(Artifact::Trait { decl: variant, allow_async_lint: false });
            let bridge = make_bridge(name, bounds, tr, &self_ty, &lt, &mut diagnostics);
            artifacts.push(Artifact::Bridge(bridge));
        },
        TransformMode::RewriteInPlace { bounds } => {
            let variant = make_variant(&tr.name, bounds, tr, &lt, &mut diagnostics);
            artifacts.push(Artifact::Trait { decl: variant, allow_async_lint: false });
        },
    }
    let r = EmitSet { artifacts, diagnostics };
    assert(r@.artifacts =~= emitted(mode@, tr@).artifacts);
    assert(r@.diagnostics =~= emitted(mode@, tr@).diagnostics);
    r
}

} // verus!
