use vstd::prelude::*;

verus! {

/// Span id of tokens made up by the engine that resolve like the caller's own text.
pub const CALL_SITE: usize = 0;

/// Span id of tokens made up by the engine that must not be seen by (or see) the caller's names.
pub const MIXED_SITE: usize = 1;

/// The delimiter of a group; a group is written as an `Open` token, its contents and a `Close` token.
#[derive(Clone, Copy, Debug, PartialEq, Eq, Structural)]
pub enum Delim {
    Paren,
    Bracket,
    Brace,
    Invisible,
}

/// One token of a flat token stream. `span` is an id chosen by the front end; `CALL_SITE` and
/// `MIXED_SITE` are reserved for tokens that the engine makes up.
#[derive(Debug, PartialEq, Eq)]
pub enum Tok {
    Ident { text: String, span: usize },
    Punct { ch: char, joint: bool, span: usize },
    Literal { text: String, span: usize },
    Open { delim: Delim, span: usize },
    Close { delim: Delim, span: usize },
}

/// The mathematical value of a token.
pub enum TokV {
    Ident { text: Seq<char>, span: usize },
    Punct { ch: char, joint: bool, span: usize },
    Literal { text: Seq<char>, span: usize },
    Open { delim: Delim, span: usize },
    Close { delim: Delim, span: usize },
}

impl View for Tok {
    type V = TokV;

    open spec fn view(&self) -> TokV {
        match self {
            Tok::Ident { text, span } => TokV::Ident { text: text@, span: *span },
            Tok::Punct { ch, joint, span } => TokV::Punct { ch: *ch, joint: *joint, span: *span },
            Tok::Literal { text, span } => TokV::Literal { text: text@, span: *span },
            Tok::Open { delim, span } => TokV::Open { delim: *delim, span: *span },
            Tok::Close { delim, span } => TokV::Close { delim: *delim, span: *span },
        }
    }
}

impl DeepView for Tok {
    type V = TokV;

    open spec fn deep_view(&self) -> TokV {
        self@
    }
}

/// Values that can be copied with the copy's deep view equal to the original's.
pub trait DeepCopy: DeepView + Sized {
    fn deep_copy(&self) -> (r: Self)
        ensures
            r.deep_view() == self.deep_view(),
    ;
}

impl DeepCopy for Tok {
    fn deep_copy(&self) -> (r: Self) {
        match self {
            Tok::Ident { text, span } => Tok::Ident { text: text.clone(), span: *span },
            Tok::Punct { ch, joint, span } => Tok::Punct { ch: *ch, joint: *joint, span: *span },
            Tok::Literal { text, span } => Tok::Literal { text: text.clone(), span: *span },
            Tok::Open { delim, span } => Tok::Open { delim: *delim, span: *span },
            Tok::Close { delim, span } => Tok::Close { delim: *delim, span: *span },
        }
    }
}

impl<T: DeepCopy> DeepCopy for Vec<T> {
    fn deep_copy(&self) -> (r: Self) {
        let mut r: Vec<T> = Vec::new();
        let mut i: usize = 0;
        while i < self.len()
            invariant
                i <= self@.len(),
                r@.len() == i,
                forall|j: int| 0 <= j < i ==> #[trigger] r@[j].deep_view() == self@[j].deep_view(),
            decreases self@.len() - i,
        {
            r.push(self[i].deep_copy());
            i = i + 1;
        }
        assert(r.deep_view() =~= self.deep_view());
        r
    }
}

impl<T: DeepCopy> DeepCopy for Option<T> {
    fn deep_copy(&self) -> (r: Self) {
        match self {
            Some(x) => Some(x.deep_copy()),
            None => None,
        }
    }
}

pub open spec fn ident_v(text: Seq<char>, span: usize) -> TokV {
    TokV::Ident { text, span }
}

pub open spec fn punct_v(ch: char) -> TokV {
    TokV::Punct { ch, joint: false, span: CALL_SITE }
}

pub open spec fn joint_v(ch: char) -> TokV {
    TokV::Punct { ch, joint: true, span: CALL_SITE }
}

/// A made-up keyword or name, resolved at the call site.
pub open spec fn kw(text: Seq<char>) -> TokV {
    TokV::Ident { text, span: CALL_SITE }
}

/// `::` as two punctuation tokens.
pub open spec fn path_sep_v() -> Seq<TokV> {
    seq![joint_v(':'), punct_v(':')]
}

pub open spec fn open_v(delim: Delim) -> TokV {
    TokV::Open { delim, span: CALL_SITE }
}

pub open spec fn close_v(delim: Delim) -> TokV {
    TokV::Close { delim, span: CALL_SITE }
}

pub open spec fn is_ident_text(t: TokV, text: Seq<char>) -> bool {
    t matches TokV::Ident { text: x, .. } && x == text
}

/// An identifier token with the given text.
pub fn mk_ident(text: &str, span: usize) -> (r: Tok)
    ensures
        r@ == ident_v(text@, span),
{
    Tok::Ident { text: String::from_str(text), span }
}

/// A punctuation token made up by the engine.
pub fn mk_punct(ch: char, joint: bool) -> (r: Tok)
    ensures
        r@ == (TokV::Punct { ch, joint, span: CALL_SITE }),
{
    Tok::Punct { ch, joint, span: CALL_SITE }
}

/// Whether a token is the identifier `text`.
pub fn tok_is_ident(t: &Tok, text: &str) -> (r: bool)
    ensures
        r == is_ident_text(t@, text@),
{
    match t {
        Tok::Ident { text: x, .. } => {
            let s = String::from_str(text);
            *x == s
        },
        _ => false,
    }
}

/// The runs joined by `sep`: `r0 sep r1 sep ... rn`.
pub open spec fn join_with(runs: Seq<Seq<TokV>>, sep: TokV) -> Seq<TokV>
    decreases runs.len(),
{
    if runs.len() == 0 {
        Seq::empty()
    } else if runs.len() == 1 {
        runs[0]
    } else {
        join_with(runs.drop_last(), sep) + seq![sep] + runs.last()
    }
}

/// Appends a copy of `run`.
pub fn push_run(out: &mut Vec<Tok>, run: &Vec<Tok>)
    ensures
        final(out).deep_view() == old(out).deep_view() + run.deep_view(),
{
    let ghost start = out.deep_view();
    let mut i: usize = 0;
    while i < run.len()
        invariant
            i <= run@.len(),
            out.deep_view() == start + run.deep_view().take(i as int),
        decreases run@.len() - i,
    {
        let ghost before = out.deep_view();
        out.push(run[i].deep_copy());
        assert(out.deep_view() =~= before.push(run@[i as int]@));
        assert(run.deep_view().take(i + 1) =~= run.deep_view().take(i as int).push(run@[i as int]@));
        i = i + 1;
    }
    assert(run.deep_view().take(i as int) =~= run.deep_view());
}

/// Appends one token.
pub fn push_tok(out: &mut Vec<Tok>, t: Tok)
    ensures
        final(out).deep_view() == old(out).deep_view().push(t@),
{
    let ghost before = out.deep_view();
    out.push(t);
    assert(out.deep_view() =~= before.push(t@));
}

/// Appends a keyword or name made up by the engine.
pub fn push_kw(out: &mut Vec<Tok>, text: &str)
    ensures
        final(out).deep_view() == old(out).deep_view().push(kw(text@)),
{
    push_tok(out, mk_ident(text, CALL_SITE));
}

/// Appends a punctuation token made up by the engine.
pub fn push_punct(out: &mut Vec<Tok>, ch: char, joint: bool)
    ensures
        final(out).deep_view() == old(out).deep_view().push(TokV::Punct { ch, joint, span: CALL_SITE }),
{
    push_tok(out, mk_punct(ch, joint));
}

/// Appends `::`.
pub fn push_path_sep(out: &mut Vec<Tok>)
    ensures
        final(out).deep_view() == old(out).deep_view() + path_sep_v(),
{
    let ghost before = out.deep_view();
    push_punct(out, ':', true);
    push_punct(out, ':', false);
    assert(out.deep_view() =~= before + path_sep_v());
}

/// Appends an opening or closing delimiter made up by the engine.
pub fn push_delim(out: &mut Vec<Tok>, delim: Delim, open: bool)
    ensures
        final(out).deep_view() == old(out).deep_view().push(
            if open { open_v(delim) } else { close_v(delim) },
        ),
{
    if open {
        push_tok(out, Tok::Open { delim, span: CALL_SITE });
    } else {
        push_tok(out, Tok::Close { delim, span: CALL_SITE });
    }
}

/// Appends the runs joined by the punctuation `sep`.
pub fn push_joined(out: &mut Vec<Tok>, runs: &Vec<Vec<Tok>>, sep: char)
    ensures
        final(out).deep_view() == old(out).deep_view() + join_with(runs.deep_view(), punct_v(sep)),
{
    let ghost start = out.deep_view();
    let ghost rv = runs.deep_view();
    let mut i: usize = 0;
    assert(rv.take(0) =~= Seq::<Seq<TokV>>::empty());
    assert(out.deep_view() =~= start + join_with(rv.take(0), punct_v(sep)));
    while i < runs.len()
        invariant
            i <= runs@.len(),
            rv == runs.deep_view(),
            out.deep_view() == start + join_with(rv.take(i as int), punct_v(sep)),
        decreases runs@.len() - i,
    {
        let ghost before = out.deep_view();
        assert(rv.take(i + 1).drop_last() =~= rv.take(i as int));
        assert(rv.take(i + 1).last() == rv[i as int]);
        if i > 0 {
            push_punct(out, sep, false);
        } else {
            assert(rv.take(1) =~= seq![rv[0]]);
        }
        push_run(out, &runs[i]);
        assert(out.deep_view() =~= start + join_with(rv.take(i + 1), punct_v(sep)));
        i = i + 1;
    }
    assert(rv.take(i as int) =~= rv);
}

/// The runs of `a` followed by those of `b`.
pub fn concat_runs(a: &Vec<Vec<Tok>>, b: &Vec<Vec<Tok>>) -> (r: Vec<Vec<Tok>>)
    ensures
        r.deep_view() == a.deep_view() + b.deep_view(),
{
    let mut r = a.deep_copy();
    let mut i: usize = 0;
    while i < b.len()
        invariant
            i <= b@.len(),
            r.deep_view() == a.deep_view() + b.deep_view().take(i as int),
        decreases b@.len() - i,
    {
        let ghost before = r.deep_view();
        r.push(b[i].deep_copy());
        assert(r.deep_view() =~= before.push(b@[i as int].deep_view()));
        assert(b.deep_view().take(i + 1) =~= b.deep_view().take(i as int).push(b@[i as int].deep_view()));
        i = i + 1;
    }
    assert(b.deep_view().take(i as int) =~= b.deep_view());
    r
}

} // verus!
