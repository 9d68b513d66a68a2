use vstd::prelude::*;
use crate::diagnostics::{Diagnostic, DiagnosticKind};
use crate::model::{
    Generics, GenericsV, Interface, InterfaceV, MemberV, Member, Param, ParamV,
    Signature, SignatureV,
};
use crate::rewrite::{borrows_self, pattern_diagnostics};
use crate::token::{DeepCopy, Tok, TokV};

verus! {

/// An argument of a forwarding call: the receiver, a parameter by its identifier, or a
/// placeholder for a parameter whose pattern cannot be named.
#[derive(Debug, PartialEq, Eq)]
pub enum ForwardArg {
    Receiver(Tok),
    Named(Tok),
    Placeholder,
}

pub enum ForwardArgV {
    Receiver(TokV),
    Named(TokV),
    Placeholder,
}

impl View for ForwardArg {
    type V = ForwardArgV;

    open spec fn view(&self) -> ForwardArgV {
        match self {
            ForwardArg::Receiver(t) => ForwardArgV::Receiver(t@),
            ForwardArg::Named(t) => ForwardArgV::Named(t@),
            ForwardArg::Placeholder => ForwardArgV::Placeholder,
        }
    }
}

impl DeepView for ForwardArg {
    type V = ForwardArgV;

    open spec fn deep_view(&self) -> ForwardArgV {
        self@
    }
}

/// One item of the blanket impl, forwarding to the member of the same name in the variant.
#[derive(Debug, PartialEq, Eq)]
pub enum BridgeItem {
    Const { name: Tok, generics: Generics, ty: Vec<Tok> },
    Type { name: Tok, generics: Generics },
    Method { sig: Signature, args: Vec<ForwardArg>, awaited: bool },
}

pub enum BridgeItemV {
    Const { name: TokV, generics: GenericsV, ty: Seq<TokV> },
    Type { name: TokV, generics: GenericsV },
    Method { sig: SignatureV, args: Seq<ForwardArgV>, awaited: bool },
}

impl View for BridgeItem {
    type V = BridgeItemV;

    open spec fn view(&self) -> BridgeItemV {
        match self {
            BridgeItem::Const { name, generics, ty } => BridgeItemV::Const {
                name: name@,
                generics: generics@,
                ty: ty.deep_view(),
            },
            BridgeItem::Type { name, generics } => BridgeItemV::Type {
                name: name@,
                generics: generics@,
            },
            BridgeItem::Method { sig, args, awaited } => BridgeItemV::Method {
                sig: sig@,
                args: args.deep_view(),
                awaited: *awaited,
            },
        }
    }
}

impl DeepView for BridgeItem {
    type V = BridgeItemV;

    open spec fn deep_view(&self) -> BridgeItemV {
        self@
    }
}

/// The blanket impl of the original trait for every type `self_ty` that implements the variant.
/// `borrowed_self_bound` asks for `for<'lt> &'lt self_ty: bounds`, with `lifetime` naming `'lt`.
#[derive(Debug, PartialEq, Eq)]
pub struct BridgeImpl {
    pub trait_name: Tok,
    pub variant_name: Tok,
    pub self_ty: Tok,
    pub lifetime: Tok,
    pub generics: Generics,
    pub bounds: Vec<Vec<Tok>>,
    pub borrowed_self_bound: bool,
    pub items: Vec<BridgeItem>,
}

pub struct BridgeImplV {
    pub trait_name: TokV,
    pub variant_name: TokV,
    pub self_ty: TokV,
    pub lifetime: TokV,
    pub generics: GenericsV,
    pub bounds: Seq<Seq<TokV>>,
    pub borrowed_self_bound: bool,
    pub items: Seq<BridgeItemV>,
}

impl View for BridgeImpl {
    type V = BridgeImplV;

    open spec fn view(&self) -> BridgeImplV {
        BridgeImplV {
            trait_name: self.trait_name@,
            variant_name: self.variant_name@,
            self_ty: self.self_ty@,
            lifetime: self.lifetime@,
            generics: self.generics@,
            bounds: self.bounds.deep_view(),
            borrowed_self_bound: self.borrowed_self_bound,
            items: self.items.deep_view(),
        }
    }
}

pub open spec fn param_arg(p: ParamV) -> ForwardArgV {
    match p.name {
        Some(n) => ForwardArgV::Named(n),
        None => ForwardArgV::Placeholder,
    }
}

/// The arguments of the forwarding call: the receiver, then each parameter in declared order.
pub open spec fn forward_args(sig: SignatureV) -> Seq<ForwardArgV> {
    (match sig.receiver {
        Some(r) => seq![ForwardArgV::Receiver(r.self_tok)],
        None => Seq::empty(),
    }) + sig.params.map_values(|p: ParamV| param_arg(p))
}

/// The item that forwards a member, if the member is of a supported kind.
pub open spec fn bridge_item(m: MemberV) -> Option<BridgeItemV> {
    match m {
        MemberV::Constant(c) => Some(
            BridgeItemV::Const { name: c.name, generics: c.generics, ty: c.ty },
        ),
        MemberV::AssocType(t) => Some(BridgeItemV::Type { name: t.name, generics: t.generics }),
        MemberV::Method(f) => Some(
            BridgeItemV::Method { sig: f.sig, args: forward_args(f.sig), awaited: f.sig.is_async },
        ),
        MemberV::Unsupported { .. } => None,
    }
}

/// The forwarding items of the supported members, in member order.
pub open spec fn bridge_items(ms: Seq<MemberV>) -> Seq<BridgeItemV>
    decreases ms.len(),
{
    if ms.len() == 0 {
        Seq::empty()
    } else {
        bridge_items(ms.drop_last()) + match bridge_item(ms.last()) {
            Some(it) => seq![it],
            None => Seq::empty(),
        }
    }
}

/// An async method with a body and a `&self` receiver: its variant asks that the borrow meet
/// the bounds.
pub open spec fn defers_borrowed_self(m: MemberV) -> bool {
    m matches MemberV::Method(f) && f.sig.is_async && f.body is Some && borrows_self(f.sig)
}

/// What the bridge reports: parameter patterns that a forwarding call cannot name, unless
/// rewriting the member already reported them. The bridge leaves out an unsupported member,
/// which rewriting has reported.
pub open spec fn bridge_member_diagnostics(m: MemberV) -> Seq<Diagnostic> {
    match m {
        MemberV::Method(f) => if f.sig.is_async && f.body is Some {
            Seq::empty()
        } else {
            pattern_diagnostics(f.sig.params)
        },
        _ => Seq::empty(),
    }
}

pub open spec fn bridge_diagnostics(ms: Seq<MemberV>) -> Seq<Diagnostic>
    decreases ms.len(),
{
    if ms.len() == 0 {
        Seq::empty()
    } else {
        bridge_diagnostics(ms.drop_last()) + bridge_member_diagnostics(ms.last())
    }
}

/// The blanket impl of `tr` for the implementors `self_ty` of the variant named `variant`.
pub open spec fn bridge_of(
    variant: TokV,
    bounds: Seq<Seq<TokV>>,
    tr: InterfaceV,
    self_ty: TokV,
    lt: TokV,
) -> BridgeImplV {
    BridgeImplV {
        trait_name: tr.name,
        variant_name: variant,
        self_ty,
        lifetime: lt,
        generics: tr.generics,
        bounds,
        borrowed_self_bound: exists|i: int|
            0 <= i < tr.members.len() && defers_borrowed_self(#[trigger] tr.members[i]),
        items: bridge_items(tr.members),
    }
}

/// The arguments that forward a call of a method with this signature.
fn make_forward_args(sig: &Signature, diags: &mut Vec<Diagnostic>, report: bool) -> (r: Vec<ForwardArg>)
    ensures
        r.deep_view() == forward_args(sig@),
        final(diags)@ == old(diags)@ + if report {
            pattern_diagnostics(sig@.params)
        } else {
            Seq::empty()
        },
{
    let mut r: Vec<ForwardArg> = Vec::new();
    match &sig.receiver {
        Some(recv) => r.push(ForwardArg::Receiver(recv.self_tok.deep_copy())),
        None => {},
    }
    let ghost head = r.deep_view();
    let ghost pv = sig@.params;
    let ghost dstart = diags@;
    let mut i: usize = 0;
    assert(pv.take(0) =~= Seq::<ParamV>::empty());
    assert(diags@ =~= dstart + pattern_diagnostics(pv.take(0)));
    while i < sig.params.len()
        invariant
            i <= sig.params@.len(),
            pv == sig@.params,
            r.deep_view() == head + pv.take(i as int).map_values(|p: ParamV| param_arg(p)),
            diags@ == dstart + if report {
                pattern_diagnostics(pv.take(i as int))
            } else {
                Seq::empty()
            },
        decreases sig.params@.len() - i,
    {
        let ghost before = r.deep_view();
        assert(pv.take(i + 1).drop_last() =~= pv.take(i as int));
        assert(pv[i as int] == sig.params@[i as int]@);
        let p: &Param = &sig.params[i];
        match &p.name {
            Some(n) => {
                r.push(ForwardArg::Named(n.deep_copy()));
                assert(diags@ =~= dstart + if report {
                    pattern_diagnostics(pv.take(i + 1))
                } else {
                    Seq::empty()
                });
            },
            None => {
                r.push(ForwardArg::Placeholder);
                if report {
                    diags.push(Diagnostic { kind: DiagnosticKind::UnsupportedPattern, span: p.span });
                }
                assert(diags@ =~= dstart + if report {
                    pattern_diagnostics(pv.take(i + 1))
                } else {
                    Seq::empty()
                });
            },
        }
        assert(r.deep_view() =~= before.push(param_arg(pv[i as int])));
        assert(pv.take(i + 1).map_values(|p: ParamV| param_arg(p)) =~= pv.take(i as int).map_values(
            |p: ParamV| param_arg(p),
        ).push(param_arg(pv[i as int])));
        i = i + 1;
    }
    assert(pv.take(i as int) =~= pv);
    assert(r.deep_view() =~= forward_args(sig@));
    r
}

/// Builds the blanket impl of `tr` for the implementors of the variant named `variant`.
pub fn make_bridge(
    variant: &Tok,
    bounds: &Vec<Vec<Tok>>,
    tr: &Interface,
    self_ty: &Tok,
    lt: &Tok,
    diags: &mut Vec<Diagnostic>,
) -> (r: BridgeImpl)
    ensures
        r@ == bridge_of(variant@, bounds.deep_view(), tr@, self_ty@, lt@),
        final(diags)@ == old(diags)@ + bridge_diagnostics(tr@.members),
{
    let ghost ms = tr@.members;
    let ghost dstart = diags@;
    let mut items: Vec<BridgeItem> = Vec::new();
    let mut borrowed = false;
    let mut i: usize = 0;
    assert(ms.take(0) =~= Seq::<MemberV>::empty());
    assert(diags@ =~= dstart + bridge_diagnostics(ms.take(0)));
    assert(items.deep_view() =~= bridge_items(ms.take(0)));
    while i < tr.members.len()
        invariant
            i <= tr.members@.len(),
            ms == tr@.members,
            items.deep_view() == bridge_items(ms.take(i as int)),
            diags@ == dstart + bridge_diagnostics(ms.take(i as int)),
            borrowed == exists|j: int| 0 <= j < i && defers_borrowed_self(#[trigger] ms[j]),
        decreases tr.members@.len() - i,
    {
        let ghost before = items.deep_view();
        let ghost dbefore = diags@;
        assert(ms.take(i + 1).drop_last() =~= ms.take(i as int));
        assert(ms.take(i + 1).last() == ms[i as int]);
        assert(ms[i as int] == tr.members@[i as int]@);
        let m: &Member = &tr.members[i];
        let mut this_borrows = false;
        match m {
            Member::Constant(c) => {
                items.push(BridgeItem::Const {
                    name: c.name.deep_copy(),
                    generics: c.generics.deep_copy(),
                    ty: c.ty.deep_copy(),
                });
            },
            Member::AssocType(t) => {
                items.push(BridgeItem::Type { name: t.name.deep_copy(), generics: t.generics.deep_copy() });
            },
            Member::Method(f) => {
                let deferred = f.sig.is_async && f.body.is_some();
                let args = make_forward_args(&f.sig, diags, !deferred);
                this_borrows = deferred && match &f.sig.receiver {
                    Some(recv) => recv.kind == crate::model::ReceiverKind::ByRef,
                    None => false,
                };
                items.push(BridgeItem::Method { sig: f.sig.deep_copy(), args, awaited: f.sig.is_async });
            },
            Member::Unsupported { .. } => {},
        }
        assert(this_borrows == defers_borrowed_self(ms[i as int]));
        assert(items.deep_view() =~= bridge_items(ms.take(i + 1)));
        assert(diags@ =~= dstart + bridge_diagnostics(ms.take(i + 1)));
        proof {
            if this_borrows {
                assert(defers_borrowed_self(ms[i as int]));
            }
            if borrowed {
                let j = choose|j: int| 0 <= j < i && defers_borrowed_self(#[trigger] ms[j]);
                assert(0 <= j < i + 1 && defers_borrowed_self(ms[j]));
            }
        }
        borrowed = borrowed || this_borrows;
        i = i + 1;
    }
    assert(ms.take(i as int) =~= ms);
    BridgeImpl {
        trait_name: tr.name.deep_copy(),
        variant_name: variant.deep_copy(),
        self_ty: self_ty.deep_copy(),
        lifetime: lt.deep_copy(),
        generics: tr.generics.deep_copy(),
        bounds: bounds.deep_copy(),
        borrowed_self_bound: borrowed,
        items,
    }
}

} // verus!
