use trait_variant::bridge::{BridgeItem, ForwardArg};
use trait_variant::diagnostics::{Diagnostic, DiagnosticKind};
use trait_variant::directive::{parse_directive, DirectiveError, TransformMode};
use trait_variant::engine::{transform, Artifact, EmitSet};
use trait_variant::expand::make;
use trait_variant::model::{
    ConstItem, GenericParam, Generics, Interface, Member, Method, Param, Receiver, ReceiverKind,
    ReturnType, Signature, TypeItem,
};
use trait_variant::render::render;
use trait_variant::token::{Delim, Tok};

const SPAN: usize = 7;

/// Splits text at spaces into tokens: `::`, `->` and `'a` become joint punctuation, brackets
/// become group delimiters, words become identifiers and digits literals.
fn toks(text: &str) -> Vec<Tok> {
    let mut out = Vec::new();
    for word in text.split_whitespace() {
        match word {
            "::" => {
                out.push(Tok::Punct { ch: ':', joint: true, span: SPAN });
                out.push(Tok::Punct { ch: ':', joint: false, span: SPAN });
            }
            "->" => {
                out.push(Tok::Punct { ch: '-', joint: true, span: SPAN });
                out.push(Tok::Punct { ch: '>', joint: false, span: SPAN });
            }
            "(" => out.push(Tok::Open { delim: Delim::Paren, span: SPAN }),
            ")" => out.push(Tok::Close { delim: Delim::Paren, span: SPAN }),
            "{" => out.push(Tok::Open { delim: Delim::Brace, span: SPAN }),
            "}" => out.push(Tok::Close { delim: Delim::Brace, span: SPAN }),
            "[" => out.push(Tok::Open { delim: Delim::Bracket, span: SPAN }),
            "]" => out.push(Tok::Close { delim: Delim::Bracket, span: SPAN }),
            _ if word.starts_with('\'') => {
                out.push(Tok::Punct { ch: '\'', joint: true, span: SPAN });
                out.push(Tok::Ident { text: word[1..].to_string(), span: SPAN });
            }
            _ if word.chars().next().unwrap().is_ascii_digit() || word.starts_with('"') => {
                out.push(Tok::Literal { text: word.to_string(), span: SPAN });
            }
            _ if word.chars().next().unwrap().is_alphabetic() || word.starts_with('_') => {
                out.push(Tok::Ident { text: word.to_string(), span: SPAN });
            }
            _ => {
                for c in word.chars() {
                    out.push(Tok::Punct { ch: c, joint: false, span: SPAN });
                }
            }
        }
    }
    out
}

fn ident(text: &str) -> Tok {
    Tok::Ident { text: text.to_string(), span: SPAN }
}

/// Writes tokens back as text, one space between tokens except after joint punctuation.
fn show(ts: &[Tok]) -> String {
    let mut s = String::new();
    let mut glue = true;
    for t in ts {
        if !glue {
            s.push(' ');
        }
        glue = false;
        match t {
            Tok::Ident { text, .. } | Tok::Literal { text, .. } => s.push_str(text),
            Tok::Punct { ch, joint, .. } => {
                s.push(*ch);
                glue = *joint;
            }
            Tok::Open { delim, .. } => s.push_str(match delim {
                Delim::Paren => "(",
                Delim::Bracket => "[",
                Delim::Brace => "{",
                Delim::Invisible => "",
            }),
            Tok::Close { delim, .. } => s.push_str(match delim {
                Delim::Paren => ")",
                Delim::Bracket => "]",
                Delim::Brace => "}",
                Delim::Invisible => "",
            }),
        }
    }
    s
}

fn no_generics() -> Generics {
    Generics { params: Vec::new(), where_preds: Vec::new() }
}

fn receiver(kind: ReceiverKind) -> Receiver {
    let text = match kind {
        ReceiverKind::ByRef => "& self",
        ReceiverKind::ByMutRef => "& mut self",
        ReceiverKind::ByValue => "self",
    };
    Receiver { kind, tokens: toks(text), self_tok: ident("self") }
}

fn param(name: &str, ty: &str) -> Param {
    Param { attrs: Vec::new(), pat: toks(name), name: Some(ident(name)), ty: toks(ty), span: SPAN }
}

fn method(
    name: &str,
    is_async: bool,
    recv: Option<ReceiverKind>,
    params: Vec<Param>,
    output: ReturnType,
    body: Option<&str>,
) -> Member {
    Member::Method(Method {
        attrs: Vec::new(),
        sig: Signature {
            quals: Vec::new(),
            is_async,
            name: ident(name),
            generics: no_generics(),
            receiver: recv.map(receiver),
            params,
            output,
        },
        body: body.map(toks),
    })
}

fn plain(ty: &str) -> ReturnType {
    ReturnType::Plain(toks(ty))
}

fn opaque(bounds: &[&str]) -> ReturnType {
    ReturnType::Opaque(bounds.iter().map(|b| toks(b)).collect())
}

fn interface(name: &str, members: Vec<Member>) -> Interface {
    Interface {
        head: Vec::new(),
        name: ident(name),
        generics: no_generics(),
        supertraits: Vec::new(),
        members,
    }
}

fn factory() -> Interface {
    interface(
        "Factory",
        vec![
            method("make", true, Some(ReceiverKind::ByRef), vec![], plain("i32"), None),
            method("call", false, Some(ReceiverKind::ByRef), vec![], plain("u32"), None),
        ],
    )
}

fn run(directive: &str, tr: &Interface) -> EmitSet {
    let mode = parse_directive(&toks(directive)).expect("directive parses");
    transform(&mode, tr)
}

fn trait_decl(a: &Artifact) -> &Interface {
    match a {
        Artifact::Trait { decl, .. } => decl,
        Artifact::Bridge(_) => panic!("expected a trait"),
    }
}

fn rendered(e: &EmitSet) -> String {
    show(&render(e))
}

fn method_output(m: &Member) -> String {
    match m {
        Member::Method(f) => match &f.sig.output {
            ReturnType::Default => String::new(),
            ReturnType::Plain(t) => show(t),
            ReturnType::Opaque(bs) => {
                let parts: Vec<String> = bs.iter().map(|b| show(b)).collect();
                format!("impl {}", parts.join(" + "))
            }
        },
        _ => panic!("expected a method"),
    }
}

const FUTURE_I32_SEND: &str = "impl :: core :: future :: Future < Output = i32 > + Send";

#[test]
fn test() {
    let unit = || toks("( )");
    let ab = || vec![param("a", "( )"), param("b", "( )")];
    let unused_ab = || vec![param("_a", "( )"), param("_b", "( )")];
    let by_ref = Some(ReceiverKind::ByRef);
    let tr = interface(
        "Trait",
        vec![
            Member::Constant(ConstItem {
                tokens: toks("const CONST : & 'static ( ) ;"),
                name: ident("CONST"),
                generics: no_generics(),
                ty: toks("& 'static ( )"),
            }),
            Member::AssocType(TypeItem {
                tokens: toks("type Gat < 'a > where Self : 'a ;"),
                name: ident("Gat"),
                generics: Generics {
                    params: vec![GenericParam { name: toks("'a"), decl: toks("'a"), impl_decl: toks("'a") }],
                    where_preds: vec![toks("Self : 'a")],
                },
            }),
            method("assoc_async_fn_no_ret", true, None, ab(), ReturnType::Default, None),
            method("assoc_async_method_no_ret", true, by_ref, ab(), ReturnType::Default, None),
            method("assoc_async_fn", true, None, ab(), ReturnType::Plain(unit()), None),
            method("assoc_async_method", true, by_ref, ab(), ReturnType::Plain(unit()), None),
            method("assoc_sync_fn_no_ret", false, None, ab(), ReturnType::Default, None),
            method("assoc_sync_method_no_ret", false, by_ref, ab(), ReturnType::Default, None),
            method("assoc_sync_fn", false, None, ab(), ReturnType::Plain(unit()), None),
            method("assoc_sync_method", false, by_ref, ab(), ReturnType::Plain(unit()), None),
            method("dft_assoc_sync_fn_no_ret", false, None, unused_ab(), ReturnType::Default, Some("{ }")),
            method("dft_assoc_sync_method_no_ret", false, by_ref, unused_ab(), ReturnType::Default, Some("{ }")),
            method("dft_assoc_sync_fn", false, None, unused_ab(), ReturnType::Plain(unit()), Some("{ }")),
            method("dft_assoc_sync_method", false, by_ref, unused_ab(), ReturnType::Plain(unit()), Some("{ }")),
        ],
    );
    let e = run("Send + Sync", &tr);
    assert_eq!(e.artifacts.len(), 1);
    assert!(e.diagnostics.is_empty());
    let v = trait_decl(&e.artifacts[0]);
    assert_eq!(show(std::slice::from_ref(&v.name)), "Trait");
    let sup: Vec<String> = v.supertraits.iter().map(|b| show(b)).collect();
    assert_eq!(sup, vec!["Send", "Sync"]);
    assert_eq!(v.members.len(), tr.members.len());
    let bounded = "impl :: core :: future :: Future < Output = ( ) > + Send + Sync";
    for i in 2..6 {
        assert_eq!(method_output(&v.members[i]), bounded);
    }
    for i in 6..14 {
        assert_eq!(v.members[i], tr.members[i]);
    }
    let text = rendered(&e);
    assert!(text.starts_with("trait Trait : Send + Sync { const CONST : & 'static ( ) ; type Gat < 'a > where Self : 'a ;"));
    assert!(text.contains(
        "fn assoc_async_method ( & self , a : ( ) , b : ( ) ) -> impl :: core :: future :: Future < Output = ( ) > + Send + Sync ;"
    ));
    assert!(text.contains("fn dft_assoc_sync_method ( & self , _a : ( ) , _b : ( ) ) -> ( ) { }"));
}

#[test]
fn scenario_named_variant_of_factory() {
    let e = run("Fast : Send", &factory());
    assert_eq!(e.artifacts.len(), 3);
    assert!(e.diagnostics.is_empty());
    assert_eq!(
        rendered(&e),
        format!(
            "# [ allow ( async_fn_in_trait ) ] trait Factory {{ async fn make ( & self ) -> i32 ; fn call ( & self ) -> u32 ; }} \
             trait Fast : Send {{ fn make ( & self ) -> {FUTURE_I32_SEND} ; fn call ( & self ) -> u32 ; }} \
             impl < TraitVariantBlanketType : Fast > Factory for TraitVariantBlanketType {{ \
             async fn make ( & self ) -> i32 {{ < Self as Fast > :: make ( self ) . await }} \
             fn call ( & self ) -> u32 {{ < Self as Fast > :: call ( self ) }} }}"
        )
    );
}

#[test]
fn scenario_in_place_factory() {
    let e = run("Send", &factory());
    assert_eq!(e.artifacts.len(), 1);
    assert_eq!(
        rendered(&e),
        format!("trait Factory : Send {{ fn make ( & self ) -> {FUTURE_I32_SEND} ; fn call ( & self ) -> u32 ; }}")
    );
}

#[test]
fn scenario_opaque_return_gains_bound() {
    let tr = interface(
        "Numbers",
        vec![method("stream", false, Some(ReceiverKind::ByRef), vec![], opaque(&["Iterator < Item = i32 >"]), None)],
    );
    let e = run("Send", &tr);
    let v = trait_decl(&e.artifacts[0]);
    assert_eq!(method_output(&v.members[0]), "impl Iterator < Item = i32 > + Send");
    assert_eq!(
        rendered(&e),
        "trait Numbers : Send { fn stream ( & self ) -> impl Iterator < Item = i32 > + Send ; }"
    );
}

#[test]
fn scenario_default_body_is_deferred() {
    let tr = interface(
        "Greeter",
        vec![method(
            "greet",
            true,
            Some(ReceiverKind::ByRef),
            vec![param("x", "u32"), param("y", "String")],
            plain("u32"),
            Some("{ self . count ( x , y ) }"),
        )],
    );
    let e = run("V : Send", &tr);
    assert!(e.diagnostics.is_empty());
    let v = trait_decl(&e.artifacts[1]);
    match &v.members[0] {
        Member::Method(f) => {
            assert!(!f.sig.is_async);
            assert_eq!(show(&f.sig.receiver.as_ref().unwrap().tokens), "& '__self_lt self");
            assert_eq!(show(&f.sig.generics.params[0].decl), "'__self_lt");
            assert_eq!(f.sig.generics.where_preds.len(), 1);
            assert_eq!(show(&f.sig.generics.where_preds[0]), "& '__self_lt Self : Send");
            assert_eq!(
                show(f.body.as_ref().unwrap()),
                "{ let __self = self ; let x = x ; let y = y ; async move { __self . count ( x , y ) } }"
            );
        }
        _ => panic!("expected a method"),
    }
    let text = rendered(&e);
    assert!(text.contains(
        "fn greet < '__self_lt > ( & '__self_lt self , x : u32 , y : String ) -> impl :: core :: future :: Future < Output = u32 > + Send where & '__self_lt Self : Send {"
    ));
    assert!(text.contains("for TraitVariantBlanketType where for < '__self_lt > & '__self_lt TraitVariantBlanketType : Send {"));
    // the original keeps its body untouched
    assert!(text.contains("async fn greet ( & self , x : u32 , y : String ) -> u32 { self . count ( x , y ) }"));
}

#[test]
fn plain_trait_only_gains_supertraits() {
    let tr = Interface {
        supertraits: vec![toks("Clone")],
        ..interface(
            "Plain",
            vec![
                method("get", false, Some(ReceiverKind::ByRef), vec![param("k", "u8")], plain("u32"), None),
                method("set", false, Some(ReceiverKind::ByMutRef), vec![], ReturnType::Default, Some("{ }")),
            ],
        )
    };
    let e = run("Local : Send + Sync", &tr);
    let v = trait_decl(&e.artifacts[1]);
    let sup: Vec<String> = v.supertraits.iter().map(|b| show(b)).collect();
    assert_eq!(sup, vec!["Clone", "Send", "Sync"]);
    for i in 0..2 {
        assert_eq!(v.members[i], tr.members[i]);
    }
}

#[test]
fn async_without_body_keeps_parameters() {
    let tr = interface(
        "Store",
        vec![method(
            "put",
            true,
            Some(ReceiverKind::ByMutRef),
            vec![param("key", "u64"), param("value", "Vec < u8 >")],
            ReturnType::Default,
            None,
        )],
    );
    let e = run("Send", &tr);
    let v = trait_decl(&e.artifacts[0]);
    match &v.members[0] {
        Member::Method(f) => {
            assert!(!f.sig.is_async);
            assert_eq!(show(&f.sig.receiver.as_ref().unwrap().tokens), "& mut self");
            let ps: Vec<String> = f.sig.params.iter().map(|p| format!("{}: {}", show(&p.pat), show(&p.ty))).collect();
            assert_eq!(ps, vec!["key: u64", "value: Vec < u8 >"]);
            assert!(f.sig.generics.where_preds.is_empty());
        }
        _ => panic!("expected a method"),
    }
    assert_eq!(method_output(&v.members[0]), "impl :: core :: future :: Future < Output = ( ) > + Send");
}

#[test]
fn in_place_emits_single_declaration() {
    let e = run("Send + Sync", &factory());
    assert_eq!(e.artifacts.len(), 1);
    assert!(matches!(e.artifacts[0], Artifact::Trait { allow_async_lint: false, .. }));
    assert_eq!(show(std::slice::from_ref(&trait_decl(&e.artifacts[0]).name)), "Factory");
}

#[test]
fn named_emits_original_variant_and_bridge() {
    let e = run("SendFactory : Send", &factory());
    assert_eq!(e.artifacts.len(), 3);
    assert_eq!(show(std::slice::from_ref(&trait_decl(&e.artifacts[0]).name)), "Factory");
    assert_eq!(show(std::slice::from_ref(&trait_decl(&e.artifacts[1]).name)), "SendFactory");
    assert!(matches!(e.artifacts[2], Artifact::Bridge(_)));
}

#[test]
fn lint_allowed_only_for_send() {
    let e = run("Shared : Sync", &factory());
    assert!(matches!(e.artifacts[0], Artifact::Trait { allow_async_lint: false, .. }));
    let e = run("Moving : core :: marker :: Send", &factory());
    assert!(matches!(e.artifacts[0], Artifact::Trait { allow_async_lint: true, .. }));
}

#[test]
fn bridge_forwards_arguments_in_order() {
    let tr = interface(
        "Calc",
        vec![
            method("add", false, Some(ReceiverKind::ByRef), vec![param("a", "u8"), param("b", "u8"), param("c", "u8")], plain("u8"), None),
            method("zero", true, None, vec![], plain("u8"), None),
        ],
    );
    let e = run("SendCalc : Send", &tr);
    match &e.artifacts[2] {
        Artifact::Bridge(b) => {
            match &b.items[0] {
                BridgeItem::Method { args, awaited, .. } => {
                    assert_eq!(args.len(), 4);
                    assert!(!awaited);
                    let names: Vec<String> = args
                        .iter()
                        .map(|a| match a {
                            ForwardArg::Receiver(t) | ForwardArg::Named(t) => show(std::slice::from_ref(t)),
                            ForwardArg::Placeholder => "_".to_string(),
                        })
                        .collect();
                    assert_eq!(names, vec!["self", "a", "b", "c"]);
                }
                _ => panic!("expected a method"),
            }
            match &b.items[1] {
                BridgeItem::Method { args, awaited, .. } => {
                    assert!(args.is_empty());
                    assert!(awaited);
                }
                _ => panic!("expected a method"),
            }
        }
        _ => panic!("expected the bridge"),
    }
    assert!(rendered(&e).contains("{ < Self as SendCalc > :: add ( self , a , b , c ) }"));
    assert!(rendered(&e).contains("{ < Self as SendCalc > :: zero ( ) . await }"));
}

#[test]
fn bridge_threads_generics() {
    let gp = |name: &str, decl: &str, imp: &str| GenericParam { name: toks(name), decl: toks(decl), impl_decl: toks(imp) };
    let tr = Interface {
        generics: Generics {
            params: vec![
                gp("'x", "'x", "'x"),
                gp("S", "S : Sync", "S : Sync"),
                gp("Y", "Y = u8", "Y"),
                gp("X", "const X : usize", "const X : usize"),
            ],
            where_preds: vec![toks("Y : Sync")],
        },
        ..interface(
            "LocalGeneric",
            vec![
                Member::Constant(ConstItem {
                    tokens: toks("const CONST : usize = 3 ;"),
                    name: ident("CONST"),
                    generics: no_generics(),
                    ty: toks("usize"),
                }),
                Member::AssocType(TypeItem {
                    tokens: toks("type B < T : Display > : FromIterator < T > ;"),
                    name: ident("B"),
                    generics: Generics { params: vec![gp("T", "T : Display", "T : Display")], where_preds: vec![] },
                }),
                method("take", true, Some(ReceiverKind::ByRef), vec![param("s", "S")], ReturnType::Default, None),
            ],
        )
    };
    let text = rendered(&run("Generic : Send", &tr));
    assert!(text.contains("trait Generic < 'x , S : Sync , Y = u8 , const X : usize > : Send where Y : Sync {"));
    assert!(text.contains(
        "impl < 'x , S : Sync , Y , const X : usize , TraitVariantBlanketType : Generic < 'x , S , Y , X > > LocalGeneric < 'x , S , Y , X > for TraitVariantBlanketType where Y : Sync {"
    ));
    assert!(text.contains("const CONST : usize = < Self as Generic < 'x , S , Y , X > > :: CONST ;"));
    assert!(text.contains("type B < T : Display > = < Self as Generic < 'x , S , Y , X > > :: B < T > ;"));
    assert!(text.contains("async fn take ( & self , s : S ) { < Self as Generic < 'x , S , Y , X > > :: take ( self , s ) . await }"));
}

#[test]
fn directive_forms() {
    match parse_directive(&toks("Fast : Send + Sync")).unwrap() {
        TransformMode::CreateNamed { name, bounds } => {
            assert_eq!(show(std::slice::from_ref(&name)), "Fast");
            assert_eq!(bounds.iter().map(|b| show(b)).collect::<Vec<_>>(), vec!["Send", "Sync"]);
        }
        _ => panic!("expected a name"),
    }
    match parse_directive(&toks(":: core :: marker :: Send")).unwrap() {
        TransformMode::RewriteInPlace { bounds } => {
            assert_eq!(bounds.len(), 1);
            assert_eq!(show(&bounds[0]), ":: core :: marker :: Send");
        }
        _ => panic!("expected no name"),
    }
    match parse_directive(&toks("Fast :: Send")).unwrap() {
        TransformMode::RewriteInPlace { bounds } => assert_eq!(show(&bounds[0]), "Fast :: Send"),
        _ => panic!("a path is no name"),
    }
}

#[test]
fn directive_errors() {
    assert_eq!(parse_directive(&toks("")).unwrap_err(), DirectiveError);
    assert_eq!(parse_directive(&toks("Fast :")).unwrap_err(), DirectiveError);
    assert_eq!(parse_directive(&toks("Send +")).unwrap_err(), DirectiveError);
    assert_eq!(parse_directive(&toks("Fast : 3")).unwrap_err(), DirectiveError);
    assert_eq!(parse_directive(&toks("Send + + Sync")).unwrap_err(), DirectiveError);
    assert!(!DirectiveError.message().is_empty());
    assert!(make(&toks("Fast : Send +"), &factory()).is_err());
}

#[test]
fn unsupported_member_reported_once() {
    let mut tr = factory();
    tr.members.push(Member::Unsupported { tokens: toks("my_macro ! ( ) ;"), span: 42 });
    let e = run("Fast : Send", &tr);
    assert_eq!(e.diagnostics, vec![Diagnostic { kind: DiagnosticKind::UnsupportedMember, span: 42 }]);
    assert_eq!(e.diagnostics[0].message(), "unsupported item type");
    // kept as written in both traits, left out of the bridge
    let text = rendered(&e);
    assert_eq!(text.matches("my_macro ! ( ) ;").count(), 2);
    let e = run("Send", &tr);
    assert_eq!(e.diagnostics, vec![Diagnostic { kind: DiagnosticKind::UnsupportedMember, span: 42 }]);
    assert_eq!(rendered(&e).matches("my_macro ! ( ) ;").count(), 1);
}

#[test]
fn pattern_parameter_gets_placeholder() {
    let pair = Param { attrs: Vec::new(), pat: toks("( a , b )"), name: None, ty: toks("( u8 , u8 )"), span: 99 };
    let tr = interface(
        "Pairs",
        vec![method("sum", false, Some(ReceiverKind::ByRef), vec![pair], plain("u8"), None)],
    );
    let e = run("SendPairs : Send", &tr);
    assert_eq!(e.diagnostics, vec![Diagnostic { kind: DiagnosticKind::UnsupportedPattern, span: 99 }]);
    assert_eq!(e.diagnostics[0].message(), "patterns are not supported in arguments");
    assert!(rendered(&e).contains(":: sum ( self , loop { } )"));
}

#[test]
fn pattern_parameter_in_deferred_body_reported_once() {
    let pair = Param { attrs: Vec::new(), pat: toks("( a , b )"), name: None, ty: toks("( u8 , u8 )"), span: 5 };
    let tr = interface(
        "Pairs",
        vec![method("sum", true, None, vec![pair, param("c", "u8")], plain("u8"), Some("{ a + b + c }"))],
    );
    let e = run("SendPairs : Send", &tr);
    assert_eq!(e.diagnostics, vec![Diagnostic { kind: DiagnosticKind::UnsupportedPattern, span: 5 }]);
    let v = trait_decl(&e.artifacts[1]);
    match &v.members[0] {
        Member::Method(f) => assert_eq!(show(f.body.as_ref().unwrap()), "{ let c = c ; async move { a + b + c } }"),
        _ => panic!("expected a method"),
    }
}

#[test]
fn self_renamed_everywhere_in_deferred_body() {
    let tr = interface(
        "Owner",
        vec![method(
            "run",
            true,
            Some(ReceiverKind::ByValue),
            vec![],
            ReturnType::Default,
            Some("{ let me = self ; self . go ( ) ; { self } ; selfish ( ) }"),
        )],
    );
    let e = run("Send", &tr);
    let v = trait_decl(&e.artifacts[0]);
    match &v.members[0] {
        Member::Method(f) => {
            assert_eq!(
                show(f.body.as_ref().unwrap()),
                "{ let __self = self ; async move { let me = __self ; __self . go ( ) ; { __self } ; selfish ( ) } }"
            );
            // by-value receiver: no lifetime and no predicate
            assert_eq!(show(&f.sig.receiver.as_ref().unwrap().tokens), "self");
            assert!(f.sig.generics.params.is_empty());
            assert!(f.sig.generics.where_preds.is_empty());
        }
        _ => panic!("expected a method"),
    }
}

#[test]
fn make_renders_and_reports() {
    let (out, diags) = make(&toks("Send"), &factory()).unwrap();
    assert!(diags.is_empty());
    assert_eq!(
        show(&out),
        format!("trait Factory : Send {{ fn make ( & self ) -> {FUTURE_I32_SEND} ; fn call ( & self ) -> u32 ; }}")
    );
}

fn bounds_of(directive: &str) -> Vec<String> {
    match parse_directive(&toks(directive)).expect("directive parses") {
        TransformMode::CreateNamed { bounds, .. } | TransformMode::RewriteInPlace { bounds } => {
            bounds.iter().map(|b| show(b)).collect()
        }
    }
}

#[test]
fn directive_bounds_with_arguments_and_modifiers() {
    assert_eq!(bounds_of("Fast : Send + Captures < 'a >"), vec!["Send", "Captures < 'a >"]);
    assert_eq!(bounds_of("Tr < A + B , Vec < u8 > > + Sync"), vec!["Tr < A + B , Vec < u8 > >", "Sync"]);
    assert_eq!(bounds_of("? Sized + Send"), vec!["? Sized", "Send"]);
    assert_eq!(bounds_of("for < 'a > Visit < 'a >"), vec!["for < 'a > Visit < 'a >"]);
    assert_eq!(bounds_of("Fn :: ( u8 ) + Sync"), vec!["Fn :: ( u8 )", "Sync"]);
    assert_eq!(bounds_of("for < 'a > Fn ( & 'a u8 ) -> bool + Send"), vec!["for < 'a > Fn ( & 'a u8 ) -> bool", "Send"]);
    assert_eq!(bounds_of("core :: ops :: Fn ( )"), vec!["core :: ops :: Fn ( )"]);
    assert_eq!(bounds_of("Conv < fn ( ) -> u8 >"), vec!["Conv < fn ( ) -> u8 >"]);
    match parse_directive(&toks("Fast : Tr < u8 >")).unwrap() {
        TransformMode::CreateNamed { name, bounds } => {
            assert_eq!(show(std::slice::from_ref(&name)), "Fast");
            assert_eq!(bounds.len(), 1);
        }
        _ => panic!("expected a name"),
    }
}

#[test]
fn directive_bound_in_invisible_group() {
    let mut d = vec![Tok::Open { delim: Delim::Invisible, span: SPAN }];
    d.extend(toks("core :: marker :: Send"));
    d.push(Tok::Close { delim: Delim::Invisible, span: SPAN });
    d.extend(toks("+ Sync"));
    match parse_directive(&d).unwrap() {
        TransformMode::RewriteInPlace { bounds } => {
            assert_eq!(bounds.len(), 2);
            assert_eq!(bounds[0].len(), 9);
        }
        _ => panic!("expected no name"),
    }
    let mut named = toks("Fast :");
    named.extend(d);
    assert!(matches!(parse_directive(&named).unwrap(), TransformMode::CreateNamed { .. }));
}

#[test]
fn directive_malformed_bounds() {
    assert!(parse_directive(&toks("Send Sync")).is_err());
    assert!(parse_directive(&toks("Tr < u8")).is_err());
    assert!(parse_directive(&toks("Tr < u8 > >")).is_err());
    assert!(parse_directive(&toks("( Send + Sync )")).is_err());
    assert!(parse_directive(&toks("( Send )")).is_err());
    assert!(parse_directive(&toks("? for < 'a > Visit < 'a >")).is_err());
    assert!(parse_directive(&toks("[ Send ]")).is_err());
    assert!(parse_directive(&toks("? ? Sized")).is_err());
    assert!(parse_directive(&toks("for < 'a >")).is_err());
    assert!(parse_directive(&toks("Fn ( ) ->")).is_err());
}

#[test]
fn parameter_attributes_stay_out_of_bindings() {
    let p = Param {
        attrs: toks("# [ allow ( unused ) ]"),
        pat: toks("mut x"),
        name: Some(ident("x")),
        ty: toks("u32"),
        span: SPAN,
    };
    let tr = interface("Counter", vec![method("bump", true, None, vec![p], plain("u32"), Some("{ x = x + 1 ; x }"))]);
    let e = run("Send", &tr);
    let v = trait_decl(&e.artifacts[0]);
    match &v.members[0] {
        Member::Method(f) => assert_eq!(show(f.body.as_ref().unwrap()), "{ let mut x = x ; async move { x = x + 1 ; x } }"),
        _ => panic!("expected a method"),
    }
    assert!(rendered(&e).contains("fn bump ( # [ allow ( unused ) ] mut x : u32 )"));
}

#[test]
fn lint_allowance_follows_last_path_segment() {
    let allowed = |d: &Vec<Tok>| {
        let e = transform(&parse_directive(d).unwrap(), &factory());
        matches!(e.artifacts[0], Artifact::Trait { allow_async_lint: true, .. })
    };
    assert!(!allowed(&toks("Fast : Fn ( ) -> Send")));
    assert!(!allowed(&toks("Fast : Captures < Send >")));
    assert!(allowed(&toks("Fast : :: core :: marker :: Send + Sync")));
    assert!(allowed(&toks("Fast : for < 'a > Send")));
    let mut grouped = toks("Fast :");
    grouped.push(Tok::Open { delim: Delim::Invisible, span: SPAN });
    grouped.extend(toks("Send"));
    grouped.push(Tok::Close { delim: Delim::Invisible, span: SPAN });
    assert!(allowed(&grouped));
}

#[test]
fn synthesized_names_avoid_the_input() {
    let tr = Interface {
        generics: Generics {
            params: vec![GenericParam {
                name: toks("TraitVariantBlanketType"),
                decl: toks("TraitVariantBlanketType"),
                impl_decl: toks("TraitVariantBlanketType"),
            }],
            where_preds: vec![],
        },
        ..interface(
            "Shadow",
            vec![method("get", true, Some(ReceiverKind::ByRef), vec![], plain("u8"), Some("{ 0 }"))],
        )
    };
    let text = rendered(&run("Fresh : Send", &tr));
    assert!(text.contains(
        "impl < TraitVariantBlanketType , TraitVariantBlanketType_ : Fresh < TraitVariantBlanketType > > Shadow < TraitVariantBlanketType > for TraitVariantBlanketType_ where for < '__self_lt_______________ > & '__self_lt_______________ TraitVariantBlanketType_ : Send {"
    ));
    assert!(text.contains("fn get < '__self_lt_______________ > ( & '__self_lt_______________ self )"));
}

#[test]
fn lifetime_avoids_lifetimes_of_the_method() {
    let mut m = method("get", true, Some(ReceiverKind::ByRef), vec![param("x", "& '__self_lt u8")], plain("u8"), Some("{ * x }"));
    if let Member::Method(f) = &mut m {
        f.sig.generics.params.push(GenericParam { name: toks("'__self_lt"), decl: toks("'__self_lt"), impl_decl: toks("'__self_lt") });
    }
    let e = run("Send", &interface("Keep", vec![m]));
    let v = trait_decl(&e.artifacts[0]);
    match &v.members[0] {
        Member::Method(f) => {
            assert_eq!(show(&f.sig.receiver.as_ref().unwrap().tokens), "& '__self_lt_ self");
            let names: Vec<String> = f.sig.generics.params.iter().map(|p| show(&p.name)).collect();
            assert_eq!(names, vec!["'__self_lt_", "'__self_lt"]);
        }
        _ => panic!("expected a method"),
    }
}

#[test]
fn self_paths_and_receiverless_bodies_keep_self() {
    let tr = interface(
        "Paths",
        vec![
            method("with_recv", true, Some(ReceiverKind::ByRef), vec![], ReturnType::Default, Some("{ self :: helper ( self ) }")),
            method("no_recv", true, None, vec![], ReturnType::Default, Some("{ self :: helper ( ) }")),
        ],
    );
    let e = run("Send", &tr);
    let v = trait_decl(&e.artifacts[0]);
    let body = |i: usize| match &v.members[i] {
        Member::Method(f) => show(f.body.as_ref().unwrap()),
        _ => panic!("expected a method"),
    };
    assert_eq!(body(0), "{ let __self = self ; async move { self :: helper ( __self ) } }");
    assert_eq!(body(1), "{ async move { self :: helper ( ) } }");
}
