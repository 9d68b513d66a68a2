use vstd::prelude::*;
use crate::bridge::{BridgeImpl, BridgeImplV, BridgeItem, BridgeItemV, ForwardArg, ForwardArgV};
use crate::engine::{Artifact, ArtifactV, EmitSet, EmitSetV};
use crate::model::{
    GenericParam, GenericParamV, Generics, Interface, InterfaceV, Member, MemberV,
    Method, MethodV, Param, ParamV, ReturnType, ReturnTypeV, Signature, SignatureV,
};
use crate::rewrite::{lifetime_toks, self_lifetime};
use crate::token::{
    close_v, join_with, kw, open_v, path_sep_v, punct_v, push_delim, push_joined,
    push_kw, push_path_sep, push_punct, push_run, push_tok, DeepCopy, Delim, Tok, TokV,
};

verus! {

/// Which part of a generic parameter to write.
#[derive(Clone, Copy, Debug, PartialEq, Eq, Structural)]
pub enum ParamPart {
    /// As declared on the trait.
    Decl,
    /// As declared on an impl: without a default.
    ImplDecl,
    /// As an argument: the name alone.
    Name,
}

pub open spec fn param_part(p: GenericParamV, part: ParamPart) -> Seq<TokV> {
    match part {
        ParamPart::Decl => p.decl,
        ParamPart::ImplDecl => p.impl_decl,
        ParamPart::Name => p.name,
    }
}

/// The runs concatenated, in order.
pub open spec fn concat_all(runs: Seq<Seq<TokV>>) -> Seq<TokV>
    decreases runs.len(),
{
    if runs.len() == 0 {
        Seq::empty()
    } else {
        concat_all(runs.drop_last()) + runs.last()
    }
}

/// `<r0, r1, ...>`, or nothing when there are no runs.
pub open spec fn angle(runs: Seq<Seq<TokV>>) -> Seq<TokV> {
    if runs.len() == 0 {
        Seq::empty()
    } else {
        seq![punct_v('<')] + join_with(runs, punct_v(',')) + seq![punct_v('>')]
    }
}

pub open spec fn params_text(ps: Seq<GenericParamV>, part: ParamPart) -> Seq<TokV> {
    angle(ps.map_values(|p: GenericParamV| param_part(p, part)))
}

/// `where p0, p1, ...`, or nothing when there are no predicates.
pub open spec fn where_text(preds: Seq<Seq<TokV>>) -> Seq<TokV> {
    if preds.len() == 0 {
        Seq::empty()
    } else {
        seq![kw("where"@)] + join_with(preds, punct_v(','))
    }
}

/// `->`
pub open spec fn arrow_v() -> Seq<TokV> {
    seq![TokV::Punct { ch: '-', joint: true, span: crate::token::CALL_SITE }, punct_v('>')]
}

pub open spec fn output_text(out: ReturnTypeV) -> Seq<TokV> {
    match out {
        ReturnTypeV::Default => Seq::empty(),
        ReturnTypeV::Plain(t) => arrow_v() + t,
        ReturnTypeV::Opaque(bs) => arrow_v() + seq![kw("impl"@)] + join_with(bs, punct_v('+')),
    }
}

pub open spec fn param_text(p: ParamV) -> Seq<TokV> {
    p.attrs + p.pat + seq![punct_v(':')] + p.ty
}

/// The receiver and the parameters, each as written.
pub open spec fn input_runs(sig: SignatureV) -> Seq<Seq<TokV>> {
    (match sig.receiver {
        Some(r) => seq![r.tokens],
        None => Seq::empty(),
    }) + sig.params.map_values(|p: ParamV| param_text(p))
}

/// `[async] quals fn name<...>(inputs) [-> R] [where ...]`
pub open spec fn signature_text(sig: SignatureV) -> Seq<TokV> {
    (if sig.is_async {
        seq![kw("async"@)]
    } else {
        Seq::empty()
    }) + sig.quals + seq![kw("fn"@), sig.name] + params_text(sig.generics.params, ParamPart::Decl)
        + seq![open_v(Delim::Paren)] + join_with(input_runs(sig), punct_v(','))
        + seq![close_v(Delim::Paren)] + output_text(sig.output) + where_text(
        sig.generics.where_preds,
    )
}

pub open spec fn method_text(m: MethodV) -> Seq<TokV> {
    m.attrs + signature_text(m.sig) + match m.body {
        Some(b) => b,
        None => seq![punct_v(';')],
    }
}

pub open spec fn member_text(m: MemberV) -> Seq<TokV> {
    match m {
        MemberV::Constant(c) => c.tokens,
        MemberV::AssocType(t) => t.tokens,
        MemberV::Method(f) => method_text(f),
        MemberV::Unsupported { tokens, .. } => tokens,
    }
}

/// `head trait Name<...>: S0 + S1 where ... { members }`
pub open spec fn interface_text(tr: InterfaceV) -> Seq<TokV> {
    tr.head + seq![kw("trait"@), tr.name] + params_text(tr.generics.params, ParamPart::Decl) + (
    if tr.supertraits.len() == 0 {
        Seq::empty()
    } else {
        seq![punct_v(':')] + join_with(tr.supertraits, punct_v('+'))
    }) + where_text(tr.generics.where_preds) + seq![open_v(Delim::Brace)] + concat_all(
        tr.members.map_values(|m: MemberV| member_text(m)),
    ) + seq![close_v(Delim::Brace)]
}

/// `#[allow(async_fn_in_trait)]`
pub open spec fn allow_lint_text() -> Seq<TokV> {
    seq![
        punct_v('#'),
        open_v(Delim::Bracket),
        kw("allow"@),
        open_v(Delim::Paren),
        kw("async_fn_in_trait"@),
        close_v(Delim::Paren),
        close_v(Delim::Bracket),
    ]
}

/// `<Self as Variant<args>>::`
pub open spec fn qualified_prefix(b: BridgeImplV) -> Seq<TokV> {
    seq![punct_v('<'), kw("Self"@), kw("as"@), b.variant_name] + params_text(
        b.generics.params,
        ParamPart::Name,
    ) + seq![punct_v('>')] + path_sep_v()
}

pub open spec fn arg_text(a: ForwardArgV) -> Seq<TokV> {
    match a {
        ForwardArgV::Receiver(t) => seq![t],
        ForwardArgV::Named(t) => seq![t],
        ForwardArgV::Placeholder => seq![kw("loop"@), open_v(Delim::Brace), close_v(Delim::Brace)],
    }
}

pub open spec fn bridge_item_text(b: BridgeImplV, it: BridgeItemV) -> Seq<TokV> {
    match it {
        BridgeItemV::Const { name, generics, ty } => seq![kw("const"@), name] + params_text(
            generics.params,
            ParamPart::Decl,
        ) + seq![punct_v(':')] + ty + seq![punct_v('=')] + qualified_prefix(b) + seq![
            name,
            punct_v(';'),
        ],
        BridgeItemV::Type { name, generics } => seq![kw("type"@), name] + params_text(
            generics.params,
            ParamPart::ImplDecl,
        ) + seq![punct_v('=')] + qualified_prefix(b) + seq![name] + params_text(
            generics.params,
            ParamPart::Name,
        ) + where_text(generics.where_preds) + seq![punct_v(';')],
        BridgeItemV::Method { sig, args, awaited } => signature_text(sig) + seq![
            open_v(Delim::Brace),
        ] + qualified_prefix(b) + seq![sig.name, open_v(Delim::Paren)] + join_with(
            args.map_values(|a: ForwardArgV| arg_text(a)),
            punct_v(','),
        ) + seq![close_v(Delim::Paren)] + (if awaited {
            seq![punct_v('.'), kw("await"@)]
        } else {
            Seq::empty()
        }) + seq![close_v(Delim::Brace)],
    }
}

/// `for<'lt> &'lt T: B0 + B1`, for the blanket impl's type parameter `T`.
pub open spec fn borrowed_blanket_pred(b: BridgeImplV) -> Seq<TokV> {
    seq![kw("for"@), punct_v('<')] + self_lifetime(b.lifetime) + seq![punct_v('>'), punct_v('&')]
        + self_lifetime(b.lifetime) + seq![b.self_ty, punct_v(':')] + join_with(
        b.bounds,
        punct_v('+'),
    )
}

pub open spec fn bridge_where(b: BridgeImplV) -> Seq<Seq<TokV>> {
    if b.borrowed_self_bound {
        b.generics.where_preds.push(borrowed_blanket_pred(b))
    } else {
        b.generics.where_preds
    }
}

/// The blanket impl: its header, then `{ items }`.
pub open spec fn bridge_text(b: BridgeImplV) -> Seq<TokV> {
    bridge_header(b) + seq![open_v(Delim::Brace)] + concat_all(
        b.items.map_values(|it: BridgeItemV| bridge_item_text(b, it)),
    ) + seq![close_v(Delim::Brace)]
}

pub open spec fn artifact_text(a: ArtifactV) -> Seq<TokV> {
    match a {
        ArtifactV::Trait { decl, allow_async_lint } => (if allow_async_lint {
            allow_lint_text()
        } else {
            Seq::empty()
        }) + interface_text(decl),
        ArtifactV::Bridge(b) => bridge_text(b),
    }
}

/// The token stream of all the emitted declarations, in order.
pub open spec fn emit_text(e: EmitSetV) -> Seq<TokV> {
    concat_all(e.artifacts.map_values(|a: ArtifactV| artifact_text(a)))
}

/// Appends every run, in order.
fn push_all(out: &mut Vec<Tok>, runs: &Vec<Vec<Tok>>)
    ensures
        final(out).deep_view() == old(out).deep_view() + concat_all(runs.deep_view()),
{
    let ghost start = out.deep_view();
    let ghost rv = runs.deep_view();
    let mut i: usize = 0;
    assert(rv.take(0) =~= Seq::<Seq<TokV>>::empty());
    assert(out.deep_view() =~= start + concat_all(rv.take(0)));
    while i < runs.len()
        invariant
            i <= runs@.len(),
            rv == runs.deep_view(),
            out.deep_view() == start + concat_all(rv.take(i as int)),
        decreases runs@.len() - i,
    {
        assert(rv.take(i + 1).drop_last() =~= rv.take(i as int));
        assert(rv.take(i + 1).last() == rv[i as int]);
        push_run(out, &runs[i]);
        assert(out.deep_view() =~= start + concat_all(rv.take(i + 1)));
        i = i + 1;
    }
    assert(rv.take(i as int) =~= rv);
}

fn part_of(p: &GenericParam, part: ParamPart) -> (r: &Vec<Tok>)
    ensures
        r.deep_view() == param_part(p@, part),
{
    match part {
        ParamPart::Decl => &p.decl,
        ParamPart::ImplDecl => &p.impl_decl,
        ParamPart::Name => &p.name,
    }
}

fn param_runs(ps: &Vec<GenericParam>, part: ParamPart) -> (r: Vec<Vec<Tok>>)
    ensures
        r.deep_view() == ps.deep_view().map_values(|p: GenericParamV| param_part(p, part)),
{
    let mut r: Vec<Vec<Tok>> = Vec::new();
    let mut i: usize = 0;
    while i < ps.len()
        invariant
            i <= ps@.len(),
            r@.len() == i,
            forall|j: int| 0 <= j < i ==> #[trigger] r@[j].deep_view() == param_part(ps@[j]@, part),
        decreases ps@.len() - i,
    {
        r.push(part_of(&ps[i], part).deep_copy());
        i = i + 1;
    }
    assert(r.deep_view() =~= ps.deep_view().map_values(|p: GenericParamV| param_part(p, part)));
    r
}

fn push_angle(out: &mut Vec<Tok>, runs: &Vec<Vec<Tok>>)
    ensures
        final(out).deep_view() == old(out).deep_view() + angle(runs.deep_view()),
{
    if runs.len() > 0 {
        let ghost start = out.deep_view();
        push_punct(out, '<', false);
        push_joined(out, runs, ',');
        push_punct(out, '>', false);
        assert(out.deep_view() =~= start + angle(runs.deep_view()));
    } else {
        assert(out.deep_view() =~= old(out).deep_view() + angle(runs.deep_view()));
    }
}

fn push_params(out: &mut Vec<Tok>, ps: &Vec<GenericParam>, part: ParamPart)
    ensures
        final(out).deep_view() == old(out).deep_view() + params_text(ps.deep_view(), part),
{
    let runs = param_runs(ps, part);
    push_angle(out, &runs);
}

fn push_where(out: &mut Vec<Tok>, preds: &Vec<Vec<Tok>>)
    ensures
        final(out).deep_view() == old(out).deep_view() + where_text(preds.deep_view()),
{
    let ghost start = out.deep_view();
    if preds.len() > 0 {
        push_kw(out, "where");
        push_joined(out, preds, ',');
    }
    assert(out.deep_view() =~= start + where_text(preds.deep_view()));
}

fn push_arrow(out: &mut Vec<Tok>)
    ensures
        final(out).deep_view() == old(out).deep_view() + arrow_v(),
{
    let ghost start = out.deep_view();
    push_punct(out, '-', true);
    push_punct(out, '>', false);
    assert(out.deep_view() =~= start + arrow_v());
}

fn push_output(out: &mut Vec<Tok>, r: &ReturnType)
    ensures
        final(out).deep_view() == old(out).deep_view() + output_text(r@),
{
    let ghost start = out.deep_view();
    match r {
        ReturnType::Default => {},
        ReturnType::Plain(t) => {
            push_arrow(out);
            push_run(out, t);
        },
        ReturnType::Opaque(bs) => {
            push_arrow(out);
            push_kw(out, "impl");
            push_joined(out, bs, '+');
        },
    }
    assert(out.deep_view() =~= start + output_text(r@));
}

fn param_run(p: &Param) -> (r: Vec<Tok>)
    ensures
        r.deep_view() == param_text(p@),
{
    let mut r = p.attrs.deep_copy();
    push_run(&mut r, &p.pat);
    push_punct(&mut r, ':', false);
    push_run(&mut r, &p.ty);
    r
}

fn inputs(sig: &Signature) -> (r: Vec<Vec<Tok>>)
    ensures
        r.deep_view() == input_runs(sig@),
{
    let mut r: Vec<Vec<Tok>> = Vec::new();
    match &sig.receiver {
        Some(recv) => r.push(recv.tokens.deep_copy()),
        None => {},
    }
    let ghost head = r.deep_view();
    let ghost pv = sig@.params;
    assert(head =~= match sig@.receiver {
        Some(recv) => seq![recv.tokens],
        None => Seq::empty(),
    });
    let mut i: usize = 0;
    while i < sig.params.len()
        invariant
            i <= sig.params@.len(),
            pv == sig@.params,
            r@.len() == head.len() + i,
            forall|j: int| 0 <= j < head.len() ==> #[trigger] r@[j].deep_view() == head[j],
            forall|j: int|
                0 <= j < i ==> #[trigger] r@[head.len() + j].deep_view() == param_text(pv[j]),
        decreases sig.params@.len() - i,
    {
        assert(pv[i as int] == sig.params@[i as int]@);
        r.push(param_run(&sig.params[i]));
        i = i + 1;
    }
    assert forall|k: int| 0 <= k < r@.len() implies #[trigger] r.deep_view()[k] == input_runs(sig@)[k] by {
        if k >= head.len() {
            assert(r@[head.len() + (k - head.len())].deep_view() == param_text(pv[k - head.len()]));
        }
    }
    assert(r.deep_view() =~= input_runs(sig@));
    r
}

fn push_signature(out: &mut Vec<Tok>, sig: &Signature)
    ensures
        final(out).deep_view() == old(out).deep_view() + signature_text(sig@),
{
    let ghost start = out.deep_view();
    if sig.is_async {
        push_kw(out, "async");
    }
    push_run(out, &sig.quals);
    push_kw(out, "fn");
    push_tok(out, sig.name.deep_copy());
    push_params(out, &sig.generics.params, ParamPart::Decl);
    push_delim(out, Delim::Paren, true);
    let ins = inputs(sig);
    push_joined(out, &ins, ',');
    push_delim(out, Delim::Paren, false);
    push_output(out, &sig.output);
    push_where(out, &sig.generics.where_preds);
    assert(out.deep_view() =~= start + signature_text(sig@));
}

fn push_method(out: &mut Vec<Tok>, m: &Method)
    ensures
        final(out).deep_view() == old(out).deep_view() + method_text(m@),
{
    let ghost start = out.deep_view();
    push_run(out, &m.attrs);
    push_signature(out, &m.sig);
    match &m.body {
        Some(b) => push_run(out, b),
        None => push_punct(out, ';', false),
    }
    assert(out.deep_view() =~= start + method_text(m@));
}

fn push_member(out: &mut Vec<Tok>, m: &Member)
    ensures
        final(out).deep_view() == old(out).deep_view() + member_text(m@),
{
    match m {
        Member::Constant(c) => push_run(out, &c.tokens),
        Member::AssocType(t) => push_run(out, &t.tokens),
        Member::Method(f) => push_method(out, f),
        Member::Unsupported { tokens, .. } => push_run(out, tokens),
    }
}

/// Writes a trait declaration.
pub fn render_interface(out: &mut Vec<Tok>, tr: &Interface)
    ensures
        final(out).deep_view() == old(out).deep_view() + interface_text(tr@),
{
    let ghost start = out.deep_view();
    push_run(out, &tr.head);
    push_kw(out, "trait");
    push_tok(out, tr.name.deep_copy());
    push_params(out, &tr.generics.params, ParamPart::Decl);
    if tr.supertraits.len() > 0 {
        push_punct(out, ':', false);
        push_joined(out, &tr.supertraits, '+');
    }
    push_where(out, &tr.generics.where_preds);
    push_delim(out, Delim::Brace, true);
    let ghost before = out.deep_view();
    let ghost mv = tr@.members;
    let mut i: usize = 0;
    assert(mv.take(0).map_values(|m: MemberV| member_text(m)) =~= Seq::<Seq<TokV>>::empty());
    assert(out.deep_view() =~= before + concat_all(mv.take(0).map_values(|m: MemberV| member_text(m))));
    while i < tr.members.len()
        invariant
            i <= tr.members@.len(),
            mv == tr@.members,
            out.deep_view() == before + concat_all(mv.take(i as int).map_values(|m: MemberV| member_text(m))),
        decreases tr.members@.len() - i,
    {
        let ghost runs = mv.take(i + 1).map_values(|m: MemberV| member_text(m));
        assert(runs.drop_last() =~= mv.take(i as int).map_values(|m: MemberV| member_text(m)));
        assert(mv[i as int] == tr.members@[i as int]@);
        push_member(out, &tr.members[i]);
        assert(out.deep_view() =~= before + concat_all(runs));
        i = i + 1;
    }
    assert(mv.take(i as int) =~= mv);
    push_delim(out, Delim::Brace, false);
    assert(out.deep_view() =~= start + interface_text(tr@));
}

fn push_qualified_prefix(out: &mut Vec<Tok>, b: &BridgeImpl)
    ensures
        final(out).deep_view() == old(out).deep_view() + qualified_prefix(b@),
{
    let ghost start = out.deep_view();
    push_punct(out, '<', false);
    push_kw(out, "Self");
    push_kw(out, "as");
    push_tok(out, b.variant_name.deep_copy());
    push_params(out, &b.generics.params, ParamPart::Name);
    push_punct(out, '>', false);
    push_path_sep(out);
    assert(out.deep_view() =~= start + qualified_prefix(b@));
}

fn arg_run(a: &ForwardArg) -> (r: Vec<Tok>)
    ensures
        r.deep_view() == arg_text(a@),
{
    let mut r: Vec<Tok> = Vec::new();
    match a {
        ForwardArg::Receiver(t) => push_tok(&mut r, t.deep_copy()),
        ForwardArg::Named(t) => push_tok(&mut r, t.deep_copy()),
        ForwardArg::Placeholder => {
            push_kw(&mut r, "loop");
            push_delim(&mut r, Delim::Brace, true);
            push_delim(&mut r, Delim::Brace, false);
        },
    }
    assert(r.deep_view() =~= arg_text(a@));
    r
}

fn arg_runs(args: &Vec<ForwardArg>) -> (r: Vec<Vec<Tok>>)
    ensures
        r.deep_view() == args.deep_view().map_values(|a: ForwardArgV| arg_text(a)),
{
    let mut r: Vec<Vec<Tok>> = Vec::new();
    let mut i: usize = 0;
    while i < args.len()
        invariant
            i <= args@.len(),
            r@.len() == i,
            forall|j: int| 0 <= j < i ==> #[trigger] r@[j].deep_view() == arg_text(args@[j]@),
        decreases args@.len() - i,
    {
        r.push(arg_run(&args[i]));
        i = i + 1;
    }
    assert(r.deep_view() =~= args.deep_view().map_values(|a: ForwardArgV| arg_text(a)));
    r
}

fn push_const_item(out: &mut Vec<Tok>, b: &BridgeImpl, name: &Tok, generics: &Generics, ty: &Vec<Tok>)
    ensures
        final(out).deep_view() == old(out).deep_view() + bridge_item_text(
            b@,
            BridgeItemV::Const { name: name@, generics: generics@, ty: ty.deep_view() },
        ),
{
    let ghost start = out.deep_view();
    push_kw(out, "const");
    push_tok(out, name.deep_copy());
    push_params(out, &generics.params, ParamPart::Decl);
    push_punct(out, ':', false);
    push_run(out, ty);
    push_punct(out, '=', false);
    push_qualified_prefix(out, b);
    push_tok(out, name.deep_copy());
    push_punct(out, ';', false);
    assert(out.deep_view() =~= start + bridge_item_text(
        b@,
        BridgeItemV::Const { name: name@, generics: generics@, ty: ty.deep_view() },
    ));
}

fn push_type_item(out: &mut Vec<Tok>, b: &BridgeImpl, name: &Tok, generics: &Generics)
    ensures
        final(out).deep_view() == old(out).deep_view() + bridge_item_text(
            b@,
            BridgeItemV::Type { name: name@, generics: generics@ },
        ),
{
    let ghost start = out.deep_view();
    push_kw(out, "type");
    push_tok(out, name.deep_copy());
    push_params(out, &generics.params, ParamPart::ImplDecl);
    push_punct(out, '=', false);
    push_qualified_prefix(out, b);
    push_tok(out, name.deep_copy());
    push_params(out, &generics.params, ParamPart::Name);
    push_where(out, &generics.where_preds);
    push_punct(out, ';', false);
    assert(out.deep_view() =~= start + bridge_item_text(
        b@,
        BridgeItemV::Type { name: name@, generics: generics@ },
    ));
}

fn push_method_item(out: &mut Vec<Tok>, b: &BridgeImpl, sig: &Signature, args: &Vec<ForwardArg>, awaited: bool)
    ensures
        final(out).deep_view() == old(out).deep_view() + bridge_item_text(
            b@,
            BridgeItemV::Method { sig: sig@, args: args.deep_view(), awaited },
        ),
{
    let ghost start = out.deep_view();
    push_signature(out, sig);
    push_delim(out, Delim::Brace, true);
    push_qualified_prefix(out, b);
    push_tok(out, sig.name.deep_copy());
    push_delim(out, Delim::Paren, true);
    let runs = arg_runs(args);
    push_joined(out, &runs, ',');
    push_delim(out, Delim::Paren, false);
    let ghost mid = out.deep_view();
    if awaited {
        push_punct(out, '.', false);
        push_kw(out, "await");
    }
    assert(out.deep_view() =~= mid + if awaited {
        seq![punct_v('.'), kw("await"@)]
    } else {
        Seq::empty()
    });
    push_delim(out, Delim::Brace, false);
    assert(out.deep_view() =~= start + bridge_item_text(
        b@,
        BridgeItemV::Method { sig: sig@, args: args.deep_view(), awaited },
    ));
}

fn push_bridge_item(out: &mut Vec<Tok>, b: &BridgeImpl, it: &BridgeItem)
    ensures
        final(out).deep_view() == old(out).deep_view() + bridge_item_text(b@, it@),
{
    match it {
        BridgeItem::Const { name, generics, ty } => push_const_item(out, b, name, generics, ty),
        BridgeItem::Type { name, generics } => push_type_item(out, b, name, generics),
        BridgeItem::Method { sig, args, awaited } => push_method_item(out, b, sig, args, *awaited),
    }
}

fn bridge_preds(b: &BridgeImpl) -> (r: Vec<Vec<Tok>>)
    ensures
        r.deep_view() == bridge_where(b@),
{
    let mut preds = b.generics.where_preds.deep_copy();
    if b.borrowed_self_bound {
        let mut p: Vec<Tok> = Vec::new();
        push_kw(&mut p, "for");
        push_punct(&mut p, '<', false);
        push_run(&mut p, &lifetime_toks(&b.lifetime));
        push_punct(&mut p, '>', false);
        push_punct(&mut p, '&', false);
        push_run(&mut p, &lifetime_toks(&b.lifetime));
        push_tok(&mut p, b.self_ty.deep_copy());
        push_punct(&mut p, ':', false);
        push_joined(&mut p, &b.bounds, '+');
        assert(p.deep_view() =~= borrowed_blanket_pred(b@));
        let ghost before = preds.deep_view();
        preds.push(p);
        assert(preds.deep_view() =~= before.push(borrowed_blanket_pred(b@)));
    }
    preds
}

/// `impl<params, T: Variant<args>> Trait<args> for T where ...`
pub open spec fn bridge_header(b: BridgeImplV) -> Seq<TokV> {
    seq![kw("impl"@), punct_v('<')] + join_with(
        b.generics.params.map_values(|p: GenericParamV| p.impl_decl).push(
            seq![b.self_ty, punct_v(':'), b.variant_name] + params_text(
                b.generics.params,
                ParamPart::Name,
            ),
        ),
        punct_v(','),
    ) + seq![punct_v('>'), b.trait_name] + params_text(b.generics.params, ParamPart::Name) + seq![
        kw("for"@),
        b.self_ty,
    ] + where_text(bridge_where(b))
}

fn push_bridge_header(out: &mut Vec<Tok>, b: &BridgeImpl)
    ensures
        final(out).deep_view() == old(out).deep_view() + bridge_header(b@),
{
    let ghost start = out.deep_view();
    push_kw(out, "impl");
    push_punct(out, '<', false);
    let mut heads = param_runs(&b.generics.params, ParamPart::ImplDecl);
    let mut blanket: Vec<Tok> = Vec::new();
    push_tok(&mut blanket, b.self_ty.deep_copy());
    push_punct(&mut blanket, ':', false);
    push_tok(&mut blanket, b.variant_name.deep_copy());
    push_params(&mut blanket, &b.generics.params, ParamPart::Name);
    let ghost hv = heads.deep_view();
    let ghost bv = blanket.deep_view();
    assert(bv =~= seq![b@.self_ty, punct_v(':'), b@.variant_name] + params_text(
        b@.generics.params,
        ParamPart::Name,
    ));
    heads.push(blanket);
    assert(hv =~= b@.generics.params.map_values(|p: GenericParamV| p.impl_decl));
    assert(heads.deep_view() =~= hv.push(bv));
    push_joined(out, &heads, ',');
    push_punct(out, '>', false);
    push_tok(out, b.trait_name.deep_copy());
    push_params(out, &b.generics.params, ParamPart::Name);
    push_kw(out, "for");
    push_tok(out, b.self_ty.deep_copy());
    let preds = bridge_preds(b);
    push_where(out, &preds);
    assert(out.deep_view() =~= start + bridge_header(b@));
}

/// Writes the blanket impl.
pub fn render_bridge(out: &mut Vec<Tok>, b: &BridgeImpl)
    ensures
        final(out).deep_view() == old(out).deep_view() + bridge_text(b@),
{
    let ghost start = out.deep_view();
    push_bridge_header(out, b);
    push_delim(out, Delim::Brace, true);
    let ghost before = out.deep_view();
    let ghost iv = b@.items;
    let mut i: usize = 0;
    assert(iv.take(0).map_values(|it: BridgeItemV| bridge_item_text(b@, it)) =~= Seq::<Seq<TokV>>::empty());
    assert(out.deep_view() =~= before + concat_all(iv.take(0).map_values(|it: BridgeItemV| bridge_item_text(b@, it))));
    while i < b.items.len()
        invariant
            i <= b.items@.len(),
            iv == b@.items,
            out.deep_view() == before + concat_all(iv.take(i as int).map_values(|it: BridgeItemV| bridge_item_text(b@, it))),
        decreases b.items@.len() - i,
    {
        let ghost runs = iv.take(i + 1).map_values(|it: BridgeItemV| bridge_item_text(b@, it));
        assert(runs.drop_last() =~= iv.take(i as int).map_values(|it: BridgeItemV| bridge_item_text(b@, it)));
        assert(iv[i as int] == b.items@[i as int]@);
        push_bridge_item(out, b, &b.items[i]);
        assert(out.deep_view() =~= before + concat_all(runs));
        i = i + 1;
    }
    assert(iv.take(i as int) =~= iv);
    push_delim(out, Delim::Brace, false);
    assert(out.deep_view() =~= start + bridge_text(b@));
}

fn push_artifact(out: &mut Vec<Tok>, a: &Artifact)
    ensures
        final(out).deep_view() == old(out).deep_view() + artifact_text(a@),
{
    let ghost start = out.deep_view();
    match a {
        Artifact::Trait { decl, allow_async_lint } => {
            if *allow_async_lint {
                push_punct(out, '#', false);
                push_delim(out, Delim::Bracket, true);
                push_kw(out, "allow");
                push_delim(out, Delim::Paren, true);
                push_kw(out, "async_fn_in_trait");
                push_delim(out, Delim::Paren, false);
                push_delim(out, Delim::Bracket, false);
            }
            assert(out.deep_view() =~= start + if *allow_async_lint {
                allow_lint_text()
            } else {
                Seq::empty()
            });
            render_interface(out, decl);
        },
        Artifact::Bridge(b) => render_bridge(out, b),
    }
    assert(out.deep_view() =~= start + artifact_text(a@));
}

/// The token stream of all the emitted declarations, in order.
pub fn render(e: &EmitSet) -> (r: Vec<Tok>)
    ensures
        r.deep_view() == emit_text(e@),
{
    let mut out: Vec<Tok> = Vec::new();
    let ghost av = e@.artifacts;
    let mut i: usize = 0;
    assert(av.take(0).map_values(|a: ArtifactV| artifact_text(a)) =~= Seq::<Seq<TokV>>::empty());
    assert(out.deep_view() =~= concat_all(av.take(0).map_values(|a: ArtifactV| artifact_text(a))));
    while i < e.artifacts.len()
        invariant
            i <= e.artifacts@.len(),
            av == e@.artifacts,
            out.deep_view() == concat_all(av.take(i as int).map_values(|a: ArtifactV| artifact_text(a))),
        decreases e.artifacts@.len() - i,
    {
        let ghost runs = av.take(i + 1).map_values(|a: ArtifactV| artifact_text(a));
        assert(runs.drop_last() =~= av.take(i as int).map_values(|a: ArtifactV| artifact_text(a)));
        assert(av[i as int] == e.artifacts@[i as int]@);
        push_artifact(&mut out, &e.artifacts[i]);
        assert(out.deep_view() =~= concat_all(runs));
        i = i + 1;
    }
    assert(av.take(i as int) =~= av);
    out
}

} // verus!
