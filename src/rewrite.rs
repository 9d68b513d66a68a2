use vstd::prelude::*;
use crate::directive::{is_joint_colon, tok_is_punct};
use crate::diagnostics::{Diagnostic, DiagnosticKind};
use crate::model::{
    GenericParam, GenericParamV, Generics, GenericsV, Member, MemberV, Method, MethodV, ParamV,
    Param, Receiver, ReceiverKind, ReceiverV, ReturnType, ReturnTypeV, Signature, SignatureV,
};
use crate::token::{
    close_v, concat_runs, ident_v, is_ident_text, join_with, kw, mk_ident, open_v, path_sep_v,
    punct_v, push_delim, push_joined, push_kw, push_path_sep, push_punct, push_run, push_tok,
    tok_is_ident, DeepCopy, Delim, Tok, TokV, MIXED_SITE,
};

verus! {

/// `()`
pub open spec fn unit_v() -> Seq<TokV> {
    seq![open_v(Delim::Paren), close_v(Delim::Paren)]
}

/// The type that a method declares it returns, with unit where it declares none.
pub open spec fn declared_result(out: ReturnTypeV) -> Seq<TokV> {
    match out {
        ReturnTypeV::Default => unit_v(),
        ReturnTypeV::Plain(t) => t,
        ReturnTypeV::Opaque(bs) => seq![kw("impl"@)] + join_with(bs, punct_v('+')),
    }
}

/// `::core::future::Future<Output = R>`
pub open spec fn future_bound(result: Seq<TokV>) -> Seq<TokV> {
    path_sep_v() + seq![kw("core"@)] + path_sep_v() + seq![kw("future"@)] + path_sep_v() + seq![
        kw("Future"@),
        punct_v('<'),
        kw("Output"@),
        punct_v('='),
    ] + result + seq![punct_v('>')]
}

/// The name that the receiver is bound to inside a deferred body.
pub open spec fn self_alias() -> TokV {
    ident_v("__self"@, MIXED_SITE)
}

/// The lifetime `'lt` named by the identifier `lt`, given to a borrowed receiver whose body is
/// deferred.
pub open spec fn self_lifetime(lt: TokV) -> Seq<TokV> {
    seq![TokV::Punct { ch: '\'', joint: true, span: MIXED_SITE }, lt]
}

pub open spec fn self_lifetime_param(lt: TokV) -> GenericParamV {
    GenericParamV { name: self_lifetime(lt), decl: self_lifetime(lt), impl_decl: self_lifetime(lt) }
}

/// `&'lt Self: B1 + B2 + ...`
pub open spec fn borrowed_self_pred(bounds: Seq<Seq<TokV>>, lt: TokV) -> Seq<TokV> {
    seq![punct_v('&')] + self_lifetime(lt) + seq![kw("Self"@), punct_v(':')] + join_with(
        bounds,
        punct_v('+'),
    )
}

/// Token `i` of the body names the receiver: it is `self`, and not the start of a `self::` path.
pub open spec fn is_receiver_token(body: Seq<TokV>, i: int) -> bool {
    is_ident_text(body[i], "self"@) && !(i + 1 < body.len() && is_joint_colon(body[i + 1]))
}

/// The body with every token that names the receiver replaced by the receiver's alias.
pub open spec fn renamed_self(body: Seq<TokV>) -> Seq<TokV> {
    Seq::new(body.len(), |i: int| if is_receiver_token(body, i) { self_alias() } else { body[i] })
}

/// `let __self = self;` where there is a receiver.
pub open spec fn receiver_binding(r: Option<ReceiverV>) -> Seq<TokV> {
    match r {
        Some(r) => seq![kw("let"@), self_alias(), punct_v('='), r.self_tok, punct_v(';')],
        None => Seq::empty(),
    }
}

/// `let pat = name;` for a parameter with an identifier pattern.
pub open spec fn param_binding(p: ParamV) -> Seq<TokV> {
    match p.name {
        Some(n) => seq![kw("let"@)] + p.pat + seq![punct_v('='), n, punct_v(';')],
        None => Seq::empty(),
    }
}

pub open spec fn param_bindings(ps: Seq<ParamV>) -> Seq<TokV>
    decreases ps.len(),
{
    if ps.len() == 0 {
        Seq::empty()
    } else {
        param_bindings(ps.drop_last()) + param_binding(ps.last())
    }
}

/// One diagnostic for each parameter whose pattern is not an identifier, in order.
pub open spec fn pattern_diagnostics(ps: Seq<ParamV>) -> Seq<Diagnostic>
    decreases ps.len(),
{
    if ps.len() == 0 {
        Seq::empty()
    } else {
        pattern_diagnostics(ps.drop_last()) + if ps.last().name is None {
            seq![Diagnostic { kind: DiagnosticKind::UnsupportedPattern, span: ps.last().span }]
        } else {
            Seq::empty()
        }
    }
}

/// `{ let __self = self; let a = a; ... async move { body } }`: every input is taken by value
/// before the deferred computation is built, and the body names the receiver by its alias.
pub open spec fn deferred_body(sig: SignatureV, body: Seq<TokV>) -> Seq<TokV> {
    seq![open_v(Delim::Brace)] + receiver_binding(sig.receiver) + param_bindings(sig.params)
        + seq![kw("async"@), kw("move"@)] + (if sig.receiver is Some {
        renamed_self(body)
    } else {
        body
    }) + seq![close_v(Delim::Brace)]
}

pub open spec fn borrows_self(sig: SignatureV) -> bool {
    sig.receiver matches Some(r) && r.kind == ReceiverKind::ByRef
}

/// The synchronous signature of an async method with a body. A borrowed receiver gets a fresh
/// lifetime and the predicate that the borrow meets the added bounds.
pub open spec fn deferred_signature(
    sig: SignatureV,
    out: ReturnTypeV,
    bounds: Seq<Seq<TokV>>,
    lt: TokV,
) -> SignatureV {
    if borrows_self(sig) {
        let r = sig.receiver->0;
        SignatureV {
            is_async: false,
            output: out,
            receiver: Some(
                ReceiverV { tokens: seq![punct_v('&')] + self_lifetime(lt) + seq![r.self_tok], ..r },
            ),
            generics: GenericsV {
                params: seq![self_lifetime_param(lt)] + sig.generics.params,
                where_preds: sig.generics.where_preds.push(borrowed_self_pred(bounds, lt)),
            },
            ..sig
        }
    } else {
        SignatureV { is_async: false, output: out, ..sig }
    }
}

/// A method after the bounds are added: an async method becomes a synchronous one returning
/// `impl Future<Output = R> + bounds`; a method returning `impl Trait` gets the bounds
/// appended; any other method is unchanged.
pub open spec fn rewritten_method(m: MethodV, bounds: Seq<Seq<TokV>>, lt: TokV) -> MethodV {
    if m.sig.is_async {
        let out = ReturnTypeV::Opaque(seq![future_bound(declared_result(m.sig.output))] + bounds);
        match m.body {
            Some(b) => MethodV {
                sig: deferred_signature(m.sig, out, bounds, lt),
                body: Some(deferred_body(m.sig, b)),
                ..m
            },
            None => MethodV { sig: SignatureV { is_async: false, output: out, ..m.sig }, ..m },
        }
    } else {
        match m.sig.output {
            ReturnTypeV::Opaque(bs) => MethodV {
                sig: SignatureV { output: ReturnTypeV::Opaque(bs + bounds), ..m.sig },
                ..m
            },
            _ => m,
        }
    }
}

/// A member after the bounds are added; members other than methods are unchanged.
pub open spec fn rewritten_member(m: MemberV, bounds: Seq<Seq<TokV>>, lt: TokV) -> MemberV {
    match m {
        MemberV::Method(f) => MemberV::Method(rewritten_method(f, bounds, lt)),
        _ => m,
    }
}

/// The diagnostics that rewriting a member reports: a member of an unsupported kind (kept as
/// written), and parameters that a deferred body cannot capture.
pub open spec fn rewrite_diagnostics(m: MemberV) -> Seq<Diagnostic> {
    match m {
        MemberV::Unsupported { span, .. } => seq![
            Diagnostic { kind: DiagnosticKind::UnsupportedMember, span },
        ],
        MemberV::Method(f) => if f.sig.is_async && f.body is Some {
            pattern_diagnostics(f.sig.params)
        } else {
            Seq::empty()
        },
        _ => Seq::empty(),
    }
}

/// `::core::future::Future<Output = R>` for the declared result `R` of a method.
fn future_bound_toks(out: &ReturnType) -> (r: Vec<Tok>)
    ensures
        r.deep_view() == future_bound(declared_result(out@)),
{
    let mut r: Vec<Tok> = Vec::new();
    push_path_sep(&mut r);
    push_kw(&mut r, "core");
    push_path_sep(&mut r);
    push_kw(&mut r, "future");
    push_path_sep(&mut r);
    push_kw(&mut r, "Future");
    push_punct(&mut r, '<', false);
    push_kw(&mut r, "Output");
    push_punct(&mut r, '=', false);
    let ghost before = r.deep_view();
    match out {
        ReturnType::Default => {
            push_delim(&mut r, Delim::Paren, true);
            push_delim(&mut r, Delim::Paren, false);
        },
        ReturnType::Plain(t) => {
            push_run(&mut r, t);
        },
        ReturnType::Opaque(bs) => {
            push_kw(&mut r, "impl");
            push_joined(&mut r, bs, '+');
        },
    }
    assert(r.deep_view() =~= before + declared_result(out@));
    push_punct(&mut r, '>', false);
    assert(r.deep_view() =~= future_bound(declared_result(out@)));
    r
}

/// The bounds of the opaque type that an async method returns after the rewrite.
fn async_output(out: &ReturnType, bounds: &Vec<Vec<Tok>>) -> (r: ReturnType)
    ensures
        r@ == ReturnTypeV::Opaque(seq![future_bound(declared_result(out@))] + bounds.deep_view()),
{
    let mut first: Vec<Vec<Tok>> = Vec::new();
    first.push(future_bound_toks(out));
    assert(first.deep_view() =~= seq![future_bound(declared_result(out@))]);
    ReturnType::Opaque(concat_runs(&first, bounds))
}

/// Every `self` token of the body replaced by the receiver's alias.
fn rename_self(body: &Vec<Tok>) -> (r: Vec<Tok>)
    ensures
        r.deep_view() == renamed_self(body.deep_view()),
{
    let mut r: Vec<Tok> = Vec::new();
    let mut i: usize = 0;
    while i < body.len()
        invariant
            i <= body@.len(),
            r@.len() == i,
            forall|j: int|
                0 <= j < i ==> #[trigger] r@[j]@ == renamed_self(body.deep_view())[j],
        decreases body@.len() - i,
    {
        let ghost b = body.deep_view();
        assert(b[i as int] == body@[i as int]@);
        if i + 1 < body.len() {
            assert(b[i + 1] == body@[i + 1]@);
        }
        let path_follows = i + 1 < body.len() && tok_is_punct(&body[i + 1], ':', Some(true));
        if tok_is_ident(&body[i], "self") && !path_follows {
            r.push(mk_ident("__self", MIXED_SITE));
        } else {
            r.push(body[i].deep_copy());
        }
        i = i + 1;
    }
    assert(r.deep_view() =~= renamed_self(body.deep_view()));
    r
}

/// Appends the bindings of the parameters and reports those it cannot name.
fn push_param_bindings(out: &mut Vec<Tok>, ps: &Vec<Param>, diags: &mut Vec<Diagnostic>)
    ensures
        final(out).deep_view() == old(out).deep_view() + param_bindings(ps.deep_view()),
        final(diags)@ == old(diags)@ + pattern_diagnostics(ps.deep_view()),
{
    let ghost start = out.deep_view();
    let ghost dstart = diags@;
    let ghost pv = ps.deep_view();
    let mut i: usize = 0;
    assert(pv.take(0) =~= Seq::<ParamV>::empty());
    assert(out.deep_view() =~= start + param_bindings(pv.take(0)));
    assert(diags@ =~= dstart + pattern_diagnostics(pv.take(0)));
    while i < ps.len()
        invariant
            i <= ps@.len(),
            pv == ps.deep_view(),
            out.deep_view() == start + param_bindings(pv.take(i as int)),
            diags@ == dstart + pattern_diagnostics(pv.take(i as int)),
        decreases ps@.len() - i,
    {
        let ghost before = out.deep_view();
        let ghost dbefore = diags@;
        assert(pv.take(i + 1).drop_last() =~= pv.take(i as int));
        assert(pv.take(i + 1).last() == pv[i as int]);
        let p = &ps[i];
        match &p.name {
            Some(n) => {
                push_kw(out, "let");
                push_run(out, &p.pat);
                push_punct(out, '=', false);
                push_tok(out, n.deep_copy());
                push_punct(out, ';', false);
                assert(out.deep_view() =~= before + param_binding(pv[i as int]));
                assert(diags@ =~= dbefore + Seq::<Diagnostic>::empty());
            },
            None => {
                diags.push(Diagnostic { kind: DiagnosticKind::UnsupportedPattern, span: p.span });
                assert(out.deep_view() =~= before + param_binding(pv[i as int]));
            },
        }
        assert(out.deep_view() =~= start + param_bindings(pv.take(i + 1)));
        assert(diags@ =~= dstart + pattern_diagnostics(pv.take(i + 1)));
        i = i + 1;
    }
    assert(pv.take(i as int) =~= pv);
}

/// The body of an async method, re-expressed as a synchronous body returning a deferred block.
fn make_deferred_body(sig: &Signature, body: &Vec<Tok>, diags: &mut Vec<Diagnostic>) -> (r: Vec<Tok>)
    ensures
        r.deep_view() == deferred_body(sig@, body.deep_view()),
        final(diags)@ == old(diags)@ + pattern_diagnostics(sig@.params),
{
    let mut r: Vec<Tok> = Vec::new();
    push_delim(&mut r, Delim::Brace, true);
    let ghost b0 = r.deep_view();
    match &sig.receiver {
        Some(recv) => {
            push_kw(&mut r, "let");
            push_tok(&mut r, mk_ident("__self", MIXED_SITE));
            push_punct(&mut r, '=', false);
            push_tok(&mut r, recv.self_tok.deep_copy());
            push_punct(&mut r, ';', false);
        },
        None => {},
    }
    assert(r.deep_view() =~= b0 + receiver_binding(sig@.receiver));
    push_param_bindings(&mut r, &sig.params, diags);
    push_kw(&mut r, "async");
    push_kw(&mut r, "move");
    if sig.receiver.is_some() {
        let renamed = rename_self(body);
        push_run(&mut r, &renamed);
    } else {
        push_run(&mut r, body);
    }
    push_delim(&mut r, Delim::Brace, false);
    assert(r.deep_view() =~= deferred_body(sig@, body.deep_view()));
    r
}

/// `&'lt self`
fn borrowed_receiver(r: &Receiver, lt: &Tok) -> (n: Receiver)
    ensures
        n@ == (ReceiverV { tokens: seq![punct_v('&')] + self_lifetime(lt@) + seq![r@.self_tok], ..r@ }),
{
    let mut tokens: Vec<Tok> = Vec::new();
    push_punct(&mut tokens, '&', false);
    push_tok(&mut tokens, Tok::Punct { ch: '\'', joint: true, span: MIXED_SITE });
    push_tok(&mut tokens, lt.deep_copy());
    push_tok(&mut tokens, r.self_tok.deep_copy());
    assert(tokens.deep_view() =~= seq![punct_v('&')] + self_lifetime(lt@) + seq![r@.self_tok]);
    Receiver { kind: r.kind, tokens, self_tok: r.self_tok.deep_copy() }
}

/// The tokens of the lifetime named by `lt`.
pub fn lifetime_toks(lt: &Tok) -> (r: Vec<Tok>)
    ensures
        r.deep_view() == self_lifetime(lt@),
{
    let mut r: Vec<Tok> = Vec::new();
    push_tok(&mut r, Tok::Punct { ch: '\'', joint: true, span: MIXED_SITE });
    push_tok(&mut r, lt.deep_copy());
    assert(r.deep_view() =~= self_lifetime(lt@));
    r
}

/// The generics of a method with a borrowed receiver whose body is deferred.
fn borrowed_self_generics(g: &Generics, bounds: &Vec<Vec<Tok>>, lt: &Tok) -> (r: Generics)
    ensures
        r@ == (GenericsV {
            params: seq![self_lifetime_param(lt@)] + g@.params,
            where_preds: g@.where_preds.push(borrowed_self_pred(bounds.deep_view(), lt@)),
        }),
{
    let mut params: Vec<GenericParam> = Vec::new();
    params.push(GenericParam { name: lifetime_toks(lt), decl: lifetime_toks(lt), impl_decl: lifetime_toks(lt) });
    let mut i: usize = 0;
    while i < g.params.len()
        invariant
            i <= g.params@.len(),
            params.deep_view() == seq![self_lifetime_param(lt@)] + g@.params.take(i as int),
        decreases g.params@.len() - i,
    {
        let ghost before = params.deep_view();
        params.push(g.params[i].deep_copy());
        assert(params.deep_view() =~= before.push(g@.params[i as int]));
        assert(g@.params.take(i + 1) =~= g@.params.take(i as int).push(g@.params[i as int]));
        i = i + 1;
    }
    assert(g@.params.take(i as int) =~= g@.params);
    let mut pred: Vec<Tok> = Vec::new();
    push_punct(&mut pred, '&', false);
    push_run(&mut pred, &lifetime_toks(lt));
    push_kw(&mut pred, "Self");
    push_punct(&mut pred, ':', false);
    push_joined(&mut pred, bounds, '+');
    assert(pred.deep_view() =~= borrowed_self_pred(bounds.deep_view(), lt@));
    let mut where_preds = g.where_preds.deep_copy();
    let ghost wb = where_preds.deep_view();
    where_preds.push(pred);
    assert(where_preds.deep_view() =~= wb.push(borrowed_self_pred(bounds.deep_view(), lt@)));
    Generics { params, where_preds }
}

/// The signature without `async`, returning `out`.
fn synchronous(sig: &Signature, out: ReturnType) -> (r: Signature)
    ensures
        r@ == (SignatureV { is_async: false, output: out@, ..sig@ }),
{
    Signature {
        quals: sig.quals.deep_copy(),
        is_async: false,
        name: sig.name.deep_copy(),
        generics: sig.generics.deep_copy(),
        receiver: sig.receiver.deep_copy(),
        params: sig.params.deep_copy(),
        output: out,
    }
}

fn rewrite_method(m: &Method, bounds: &Vec<Vec<Tok>>, lt: &Tok, diags: &mut Vec<Diagnostic>) -> (r: Method)
    ensures
        r@ == rewritten_method(m@, bounds.deep_view(), lt@),
        final(diags)@ == old(diags)@ + rewrite_diagnostics(MemberV::Method(m@)),
{
    let sig = &m.sig;
    if sig.is_async {
        let out = async_output(&sig.output, bounds);
        match &m.body {
            Some(b) => {
                let body = make_deferred_body(sig, b, diags);
                let new_sig = match &sig.receiver {
                    Some(recv) => if recv.kind == ReceiverKind::ByRef {
                        Signature {
                            quals: sig.quals.deep_copy(),
                            is_async: false,
                            name: sig.name.deep_copy(),
                            generics: borrowed_self_generics(&sig.generics, bounds, lt),
                            receiver: Some(borrowed_receiver(recv, lt)),
                            params: sig.params.deep_copy(),
                            output: out,
                        }
                    } else {
                        synchronous(sig, out)
                    },
                    None => synchronous(sig, out),
                };
                Method { attrs: m.attrs.deep_copy(), sig: new_sig, body: Some(body) }
            },
            None => {
                assert(diags@ =~= old(diags)@ + rewrite_diagnostics(MemberV::Method(m@)));
                Method { attrs: m.attrs.deep_copy(), sig: synchronous(sig, out), body: None }
            },
        }
    } else {
        assert(diags@ =~= old(diags)@ + rewrite_diagnostics(MemberV::Method(m@)));
        match &sig.output {
            ReturnType::Opaque(bs) => Method {
                attrs: m.attrs.deep_copy(),
                sig: Signature {
                    quals: sig.quals.deep_copy(),
                    is_async: sig.is_async,
                    name: sig.name.deep_copy(),
                    generics: sig.generics.deep_copy(),
                    receiver: sig.receiver.deep_copy(),
                    params: sig.params.deep_copy(),
                    output: ReturnType::Opaque(concat_runs(bs, bounds)),
                },
                body: m.body.deep_copy(),
            },
            _ => m.deep_copy(),
        }
    }
}

/// Rewrites one member of the trait for the added bounds, reporting a member of an unsupported
/// kind and parameters that a deferred body cannot capture.
pub fn rewrite_member(
    m: &Member,
    bounds: &Vec<Vec<Tok>>,
    lt: &Tok,
    diags: &mut Vec<Diagnostic>,
) -> (r: Member)
    ensures
        r@ == rewritten_member(m@, bounds.deep_view(), lt@),
        final(diags)@ == old(diags)@ + rewrite_diagnostics(m@),
{
    match m {
        Member::Method(f) => Member::Method(rewrite_method(f, bounds, lt, diags)),
        Member::Unsupported { span, .. } => {
            diags.push(Diagnostic { kind: DiagnosticKind::UnsupportedMember, span: *span });
            assert(diags@ =~= old(diags)@ + rewrite_diagnostics(m@));
            m.deep_copy()
        },
        _ => {
            assert(diags@ =~= old(diags)@ + rewrite_diagnostics(m@));
            m.deep_copy()
        },
    }
}

} // verus!
