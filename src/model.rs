use vstd::prelude::*;
use crate::token::{DeepCopy, Tok, TokV};

verus! {

/// How a method takes its receiver: `&self` (with or without a lifetime), `&mut self`, or
/// anything else (`self`, `mut self`, `self: Box<Self>`).
#[derive(Clone, Copy, Debug, PartialEq, Eq, Structural)]
pub enum ReceiverKind {
    ByRef,
    ByMutRef,
    ByValue,
}

/// The declared return type: none (unit), an ordinary type, or `impl B1 + B2 + ...`, held as
/// its list of bounds.
#[derive(Debug, PartialEq, Eq)]
pub enum ReturnType {
    Default,
    Plain(Vec<Tok>),
    Opaque(Vec<Vec<Tok>>),
}

pub enum ReturnTypeV {
    Default,
    Plain(Seq<TokV>),
    Opaque(Seq<Seq<TokV>>),
}

impl View for ReturnType {
    type V = ReturnTypeV;

    open spec fn view(&self) -> ReturnTypeV {
        match self {
            ReturnType::Default => ReturnTypeV::Default,
            ReturnType::Plain(t) => ReturnTypeV::Plain(t.deep_view()),
            ReturnType::Opaque(b) => ReturnTypeV::Opaque(b.deep_view()),
        }
    }
}

impl DeepView for ReturnType {
    type V = ReturnTypeV;

    open spec fn deep_view(&self) -> ReturnTypeV {
        self@
    }
}

impl DeepCopy for ReturnType {
    fn deep_copy(&self) -> (r: Self) {
        match self {
            ReturnType::Default => ReturnType::Default,
            ReturnType::Plain(t) => ReturnType::Plain(t.deep_copy()),
            ReturnType::Opaque(b) => ReturnType::Opaque(b.deep_copy()),
        }
    }
}

/// A member of a trait. `Unsupported` is any other item (a macro call, say), kept as written.
#[derive(Debug, PartialEq, Eq)]
pub enum Member {
    Constant(ConstItem),
    AssocType(TypeItem),
    Method(Method),
    Unsupported { tokens: Vec<Tok>, span: usize },
}

pub enum MemberV {
    Constant(ConstItemV),
    AssocType(TypeItemV),
    Method(MethodV),
    Unsupported { tokens: Seq<TokV>, span: usize },
}

impl View for Member {
    type V = MemberV;

    open spec fn view(&self) -> MemberV {
        match self {
            Member::Constant(c) => MemberV::Constant(c@),
            Member::AssocType(t) => MemberV::AssocType(t@),
            Member::Method(m) => MemberV::Method(m@),
            Member::Unsupported { tokens, span } => MemberV::Unsupported {
                tokens: tokens.deep_view(),
                span: *span,
            },
        }
    }
}

impl DeepView for Member {
    type V = MemberV;

    open spec fn deep_view(&self) -> MemberV {
        self@
    }
}

impl DeepCopy for Member {
    fn deep_copy(&self) -> (r: Self) {
        match self {
            Member::Constant(c) => Member::Constant(c.deep_copy()),
            Member::AssocType(t) => Member::AssocType(t.deep_copy()),
            Member::Method(m) => Member::Method(m.deep_copy()),
            Member::Unsupported { tokens, span } => Member::Unsupported {
                tokens: tokens.deep_copy(),
                span: *span,
            },
        }
    }
}

/// A generic parameter of a trait or of a member: its name as used in arguments (`'a`, `T`, `N`), its declaration, and its declaration without a default.
#[derive(Debug, PartialEq, Eq)]
pub struct GenericParam {
    pub name: Vec<Tok>,
    pub decl: Vec<Tok>,
    pub impl_decl: Vec<Tok>,
}

pub struct GenericParamV {
    pub name: Seq<TokV>,
    pub decl: Seq<TokV>,
    pub impl_decl: Seq<TokV>,
}

impl View for GenericParam {
    type V = GenericParamV;

    open spec fn view(&self) -> GenericParamV {
        GenericParamV {
            name: self.name.deep_view(),
            decl: self.decl.deep_view(),
            impl_decl: self.impl_decl.deep_view(),
        }
    }
}

impl DeepView for GenericParam {
    type V = GenericParamV;

    open spec fn deep_view(&self) -> GenericParamV {
        self@
    }
}

impl DeepCopy for GenericParam {
    fn deep_copy(&self) -> (r: Self) {
        GenericParam {
            name: self.name.deep_copy(),
            decl: self.decl.deep_copy(),
            impl_decl: self.impl_decl.deep_copy(),
        }
    }
}

/// Generic parameters and `where` predicates.
#[derive(Debug, PartialEq, Eq)]
pub struct Generics {
    pub params: Vec<GenericParam>,
    pub where_preds: Vec<Vec<Tok>>,
}

pub struct GenericsV {
    pub params: Seq<GenericParamV>,
    pub where_preds: Seq<Seq<TokV>>,
}

impl View for Generics {
    type V = GenericsV;

    open spec fn view(&self) -> GenericsV {
        GenericsV {
            params: self.params.deep_view(),
            where_preds: self.where_preds.deep_view(),
        }
    }
}

impl DeepView for Generics {
    type V = GenericsV;

    open spec fn deep_view(&self) -> GenericsV {
        self@
    }
}

impl DeepCopy for Generics {
    fn deep_copy(&self) -> (r: Self) {
        Generics {
            params: self.params.deep_copy(),
            where_preds: self.where_preds.deep_copy(),
        }
    }
}

/// The receiver of a method: its kind, its tokens as written, and its `self` token.
#[derive(Debug, PartialEq, Eq)]
pub struct Receiver {
    pub kind: ReceiverKind,
    pub tokens: Vec<Tok>,
    pub self_tok: Tok,
}

pub struct ReceiverV {
    pub kind: ReceiverKind,
    pub tokens: Seq<TokV>,
    pub self_tok: TokV,
}

impl View for Receiver {
    type V = ReceiverV;

    open spec fn view(&self) -> ReceiverV {
        ReceiverV {
            kind: self.kind,
            tokens: self.tokens.deep_view(),
            self_tok: self.self_tok.deep_view(),
        }
    }
}

impl DeepView for Receiver {
    type V = ReceiverV;

    open spec fn deep_view(&self) -> ReceiverV {
        self@
    }
}

impl DeepCopy for Receiver {
    fn deep_copy(&self) -> (r: Self) {
        Receiver {
            kind: self.kind,
            tokens: self.tokens.deep_copy(),
            self_tok: self.self_tok.deep_copy(),
        }
    }
}

/// A typed parameter: its attributes, its pattern, the identifier it binds where the pattern is
/// a plain identifier, its type, and the span that diagnostics point at.
#[derive(Debug, PartialEq, Eq)]
pub struct Param {
    pub attrs: Vec<Tok>,
    pub pat: Vec<Tok>,
    pub name: Option<Tok>,
    pub ty: Vec<Tok>,
    pub span: usize,
}

pub struct ParamV {
    pub attrs: Seq<TokV>,
    pub pat: Seq<TokV>,
    pub name: Option<TokV>,
    pub ty: Seq<TokV>,
    pub span: usize,
}

impl View for Param {
    type V = ParamV;

    open spec fn view(&self) -> ParamV {
        ParamV {
            attrs: self.attrs.deep_view(),
            pat: self.pat.deep_view(),
            name: self.name.deep_view(),
            ty: self.ty.deep_view(),
            span: self.span,
        }
    }
}

impl DeepView for Param {
    type V = ParamV;

    open spec fn deep_view(&self) -> ParamV {
        self@
    }
}

impl DeepCopy for Param {
    fn deep_copy(&self) -> (r: Self) {
        Param {
            attrs: self.attrs.deep_copy(),
            pat: self.pat.deep_copy(),
            name: self.name.deep_copy(),
            ty: self.ty.deep_copy(),
            span: self.span,
        }
    }
}

/// A method signature. `quals` holds the qualifiers after `async` (`unsafe`, `extern "C"`).
#[derive(Debug, PartialEq, Eq)]
pub struct Signature {
    pub quals: Vec<Tok>,
    pub is_async: bool,
    pub name: Tok,
    pub generics: Generics,
    pub receiver: Option<Receiver>,
    pub params: Vec<Param>,
    pub output: ReturnType,
}

pub struct SignatureV {
    pub quals: Seq<TokV>,
    pub is_async: bool,
    pub name: TokV,
    pub generics: GenericsV,
    pub receiver: Option<ReceiverV>,
    pub params: Seq<ParamV>,
    pub output: ReturnTypeV,
}

impl View for Signature {
    type V = SignatureV;

    open spec fn view(&self) -> SignatureV {
        SignatureV {
            quals: self.quals.deep_view(),
            is_async: self.is_async,
            name: self.name.deep_view(),
            generics: self.generics.deep_view(),
            receiver: self.receiver.deep_view(),
            params: self.params.deep_view(),
            output: self.output.deep_view(),
        }
    }
}

impl DeepView for Signature {
    type V = SignatureV;

    open spec fn deep_view(&self) -> SignatureV {
        self@
    }
}

impl DeepCopy for Signature {
    fn deep_copy(&self) -> (r: Self) {
        Signature {
            quals: self.quals.deep_copy(),
            is_async: self.is_async,
            name: self.name.deep_copy(),
            generics: self.generics.deep_copy(),
            receiver: self.receiver.deep_copy(),
            params: self.params.deep_copy(),
            output: self.output.deep_copy(),
        }
    }
}

/// A method member: its attributes, signature and default body (a brace group), if any.
#[derive(Debug, PartialEq, Eq)]
pub struct Method {
    pub attrs: Vec<Tok>,
    pub sig: Signature,
    pub body: Option<Vec<Tok>>,
}

pub struct MethodV {
    pub attrs: Seq<TokV>,
    pub sig: SignatureV,
    pub body: Option<Seq<TokV>>,
}

impl View for Method {
    type V = MethodV;

    open spec fn view(&self) -> MethodV {
        MethodV {
            attrs: self.attrs.deep_view(),
            sig: self.sig.deep_view(),
            body: self.body.deep_view(),
        }
    }
}

impl DeepView for Method {
    type V = MethodV;

    open spec fn deep_view(&self) -> MethodV {
        self@
    }
}

impl DeepCopy for Method {
    fn deep_copy(&self) -> (r: Self) {
        Method {
            attrs: self.attrs.deep_copy(),
            sig: self.sig.deep_copy(),
            body: self.body.deep_copy(),
        }
    }
}

/// An associated constant: the item as written, its name, its own generics and its type.
#[derive(Debug, PartialEq, Eq)]
pub struct ConstItem {
    pub tokens: Vec<Tok>,
    pub name: Tok,
    pub generics: Generics,
    pub ty: Vec<Tok>,
}

pub struct ConstItemV {
    pub tokens: Seq<TokV>,
    pub name: TokV,
    pub generics: GenericsV,
    pub ty: Seq<TokV>,
}

impl View for ConstItem {
    type V = ConstItemV;

    open spec fn view(&self) -> ConstItemV {
        ConstItemV {
            tokens: self.tokens.deep_view(),
            name: self.name.deep_view(),
            generics: self.generics.deep_view(),
            ty: self.ty.deep_view(),
        }
    }
}

impl DeepView for ConstItem {
    type V = ConstItemV;

    open spec fn deep_view(&self) -> ConstItemV {
        self@
    }
}

impl DeepCopy for ConstItem {
    fn deep_copy(&self) -> (r: Self) {
        ConstItem {
            tokens: self.tokens.deep_copy(),
            name: self.name.deep_copy(),
            generics: self.generics.deep_copy(),
            ty: self.ty.deep_copy(),
        }
    }
}

/// An associated type: the item as written, its name and its own generics.
#[derive(Debug, PartialEq, Eq)]
pub struct TypeItem {
    pub tokens: Vec<Tok>,
    pub name: Tok,
    pub generics: Generics,
}

pub struct TypeItemV {
    pub tokens: Seq<TokV>,
    pub name: TokV,
    pub generics: GenericsV,
}

impl View for TypeItem {
    type V = TypeItemV;

    open spec fn view(&self) -> TypeItemV {
        TypeItemV {
            tokens: self.tokens.deep_view(),
            name: self.name.deep_view(),
            generics: self.generics.deep_view(),
        }
    }
}

impl DeepView for TypeItem {
    type V = TypeItemV;

    open spec fn deep_view(&self) -> TypeItemV {
        self@
    }
}

impl DeepCopy for TypeItem {
    fn deep_copy(&self) -> (r: Self) {
        TypeItem {
            tokens: self.tokens.deep_copy(),
            name: self.name.deep_copy(),
            generics: self.generics.deep_copy(),
        }
    }
}

/// A trait declaration. `head` holds what precedes the `trait` keyword (attributes, visibility, `unsafe`).
#[derive(Debug, PartialEq, Eq)]
pub struct Interface {
    pub head: Vec<Tok>,
    pub name: Tok,
    pub generics: Generics,
    pub supertraits: Vec<Vec<Tok>>,
    pub members: Vec<Member>,
}

pub struct InterfaceV {
    pub head: Seq<TokV>,
    pub name: TokV,
    pub generics: GenericsV,
    pub supertraits: Seq<Seq<TokV>>,
    pub members: Seq<MemberV>,
}

impl View for Interface {
    type V = InterfaceV;

    open spec fn view(&self) -> InterfaceV {
        InterfaceV {
            head: self.head.deep_view(),
            name: self.name.deep_view(),
            generics: self.generics.deep_view(),
            supertraits: self.supertraits.deep_view(),
            members: self.members.deep_view(),
        }
    }
}

impl DeepView for Interface {
    type V = InterfaceV;

    open spec fn deep_view(&self) -> InterfaceV {
        self@
    }
}

impl DeepCopy for Interface {
    fn deep_copy(&self) -> (r: Self) {
        Interface {
            head: self.head.deep_copy(),
            name: self.name.deep_copy(),
            generics: self.generics.deep_copy(),
            supertraits: self.supertraits.deep_copy(),
            members: self.members.deep_copy(),
        }
    }
}

} // verus!
