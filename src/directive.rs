use vstd::prelude::*;
use crate::token::{is_ident_text, tok_is_ident, DeepCopy, Delim, Tok, TokV};

verus! {

/// What the directive asks for: a second trait under a new name, or the trait rewritten in place.
/// Each bound is the token run of a trait bound such as `Send`, `core::marker::Sync`,
/// `Captures<'a>`, `?Sized` or `for<'a> Fn(&'a u8)`.
#[derive(Debug, PartialEq, Eq)]
pub enum TransformMode {
    CreateNamed { name: Tok, bounds: Vec<Vec<Tok>> },
    RewriteInPlace { bounds: Vec<Vec<Tok>> },
}

pub enum TransformModeV {
    CreateNamed { name: TokV, bounds: Seq<Seq<TokV>> },
    RewriteInPlace { bounds: Seq<Seq<TokV>> },
}

impl View for TransformMode {
    type V = TransformModeV;

    open spec fn view(&self) -> TransformModeV {
        match self {
            TransformMode::CreateNamed { name, bounds } => TransformModeV::CreateNamed {
                name: name@,
                bounds: bounds.deep_view(),
            },
            TransformMode::RewriteInPlace { bounds } => TransformModeV::RewriteInPlace {
                bounds: bounds.deep_view(),
            },
        }
    }
}

impl TransformModeV {
    pub open spec fn bounds(self) -> Seq<Seq<TokV>> {
        match self {
            TransformModeV::CreateNamed { bounds, .. } => bounds,
            TransformModeV::RewriteInPlace { bounds } => bounds,
        }
    }
}

impl TransformMode {
    /// The bounds that the directive adds.
    pub fn bounds(&self) -> (r: &Vec<Vec<Tok>>)
        ensures
            r.deep_view() == self@.bounds(),
    {
        match self {
            TransformMode::CreateNamed { bounds, .. } => bounds,
            TransformMode::RewriteInPlace { bounds } => bounds,
        }
    }
}

/// The directive does not follow `[Name ':'] Bound ('+' Bound)*`.
#[derive(Debug, PartialEq, Eq)]
pub struct DirectiveError;

impl DirectiveError {
    pub fn message(&self) -> (r: &'static str)
        ensures
            r@ == "expected `Bound + ...` or `Name: Bound + ...`, where each bound is a trait bound"@,
    {
        "expected `Bound + ...` or `Name: Bound + ...`, where each bound is a trait bound"
    }
}

pub open spec fn is_ident(t: TokV) -> bool {
    t is Ident
}

pub open spec fn is_punct(t: TokV, c: char) -> bool {
    t matches TokV::Punct { ch, .. } && ch == c
}

pub open spec fn is_lone_colon(t: TokV) -> bool {
    t matches TokV::Punct { ch, joint, .. } && ch == ':' && !joint
}

pub open spec fn is_joint_colon(t: TokV) -> bool {
    t matches TokV::Punct { ch, joint, .. } && ch == ':' && joint
}

pub open spec fn is_joint_minus(t: TokV) -> bool {
    t matches TokV::Punct { ch, joint, .. } && ch == '-' && joint
}

/// How token `i` changes the bracket depth: groups and `<` open, their ends and `>` close; the
/// `>` of `->` closes nothing.
pub open spec fn delta(s: Seq<TokV>, i: int) -> int {
    if s[i] is Open || is_punct(s[i], '<') {
        1
    } else if s[i] is Close || (is_punct(s[i], '>') && !(i > 0 && is_joint_minus(s[i - 1]))) {
        -1
    } else {
        0
    }
}

/// The bracket depth after the tokens of `s`.
pub open spec fn depth(s: Seq<TokV>) -> int
    decreases s.len(),
{
    if s.len() == 0 {
        0
    } else {
        depth(s.drop_last()) + delta(s, s.len() - 1)
    }
}

/// No prefix of `s` closes more brackets than it opens.
pub open spec fn never_below_zero(s: Seq<TokV>) -> bool
    decreases s.len(),
{
    s.len() == 0 || (never_below_zero(s.drop_last()) && depth(s) >= 0)
}

pub open spec fn balanced(s: Seq<TokV>) -> bool {
    never_below_zero(s) && depth(s) == 0
}

/// The tokens of `s` that stand outside every bracket: the opening token of a bracket stays,
/// its contents and its end go.
pub open spec fn skeleton(s: Seq<TokV>) -> Seq<TokV>
    decreases s.len(),
{
    if s.len() == 0 {
        Seq::empty()
    } else {
        skeleton(s.drop_last()) + if depth(s.drop_last()) == 0 {
            seq![s.last()]
        } else {
            Seq::empty()
        }
    }
}

/// The skeleton of `(args)` with an optional `-> Type`, as in `Fn(A) -> B`. The return type
/// is left to the compiler: any non-empty run is taken.
pub open spec fn is_paren_args(r: Seq<TokV>) -> bool {
    &&& r.len() >= 1
    &&& r[0] matches TokV::Open { delim, .. }
    &&& r[0]->Open_delim == Delim::Paren
    &&& (r.len() == 1 || (r.len() >= 4 && is_joint_minus(r[1]) && is_punct(r[2], '>')))
}

/// What may follow the last segment of a path: nothing, or parenthesized arguments, possibly
/// after `::`.
pub open spec fn is_path_tail(r: Seq<TokV>) -> bool {
    ||| r.len() == 0
    ||| is_paren_args(r)
    ||| (r.len() > 2 && is_joint_colon(r[0]) && is_lone_colon(r[1]) && is_paren_args(r.skip(2)))
}

/// The skeleton of `Ident[<..>] ('::' Ident[<..>])*` and a tail, where each argument list
/// `<..>` shows as its `<`.
pub open spec fn is_relative_path(k: Seq<TokV>) -> bool
    decreases k.len(),
{
    &&& k.len() >= 1
    &&& is_ident(k[0])
    &&& if k.len() >= 2 && is_punct(k[1], '<') {
        k.len() == 2 || (k.len() > 4 && is_joint_colon(k[2]) && is_lone_colon(k[3])
            && is_relative_path(k.skip(4)))
    } else {
        is_path_tail(k.skip(1)) || (k.len() > 3 && is_joint_colon(k[1]) && is_lone_colon(k[2])
            && is_relative_path(k.skip(3)))
    }
}

/// The skeleton of a path, with an optional leading `::`.
pub open spec fn is_path(k: Seq<TokV>) -> bool {
    ||| is_relative_path(k)
    ||| (k.len() > 2 && is_joint_colon(k[0]) && is_lone_colon(k[1]) && is_relative_path(k.skip(2)))
}

/// `for<..>` at the front of a skeleton.
pub open spec fn has_binder(k: Seq<TokV>) -> bool {
    k.len() >= 2 && is_ident_text(k[0], "for"@) && is_punct(k[1], '<')
}

/// The path part of a bound's skeleton: after `for<..>`, or after `?`; the two do not combine.
pub open spec fn bound_path(k: Seq<TokV>) -> Seq<TokV> {
    if has_binder(k) {
        k.skip(2)
    } else if k.len() >= 1 && is_punct(k[0], '?') {
        k.skip(1)
    } else {
        k
    }
}

/// One invisible group (as a macro substitution leaves it) around the whole run.
pub open spec fn is_wrapped(b: Seq<TokV>) -> bool {
    &&& b.len() >= 2
    &&& b[0] matches TokV::Open { delim, .. }
    &&& b[0]->Open_delim == Delim::Invisible
    &&& b.last() matches TokV::Close { delim, .. }
    &&& b.last()->Close_delim == b[0]->Open_delim
    &&& balanced(b)
    &&& skeleton(b).len() == 1
}

/// A trait bound: `[for<..>] path` or `?path`, its brackets balanced, possibly inside invisible
/// groups.
pub open spec fn is_bound(b: Seq<TokV>) -> bool
    decreases b.len(),
{
    if is_wrapped(b) {
        is_bound(b.subrange(1, b.len() - 1))
    } else {
        balanced(b) && is_path(bound_path(skeleton(b)))
    }
}

/// The bound with its invisible groups taken off.
pub open spec fn unwrapped(b: Seq<TokV>) -> Seq<TokV>
    decreases b.len(),
{
    if is_wrapped(b) {
        unwrapped(b.subrange(1, b.len() - 1))
    } else {
        b
    }
}

/// The identifier of the last segment of a path skeleton without a leading `::`.
pub open spec fn last_segment(k: Seq<TokV>) -> Option<TokV>
    decreases k.len(),
{
    if k.len() == 0 {
        None
    } else if k.len() > 4 && is_punct(k[1], '<') && is_joint_colon(k[2]) && is_lone_colon(k[3]) {
        last_segment(k.skip(4))
    } else if k.len() > 3 && is_joint_colon(k[1]) && is_lone_colon(k[2]) && is_ident(k[3]) {
        last_segment(k.skip(3))
    } else {
        Some(k[0])
    }
}

/// The identifier of the last segment of a path skeleton.
pub open spec fn path_last_segment(p: Seq<TokV>) -> Option<TokV> {
    if p.len() > 2 && is_joint_colon(p[0]) && is_lone_colon(p[1]) {
        last_segment(p.skip(2))
    } else {
        last_segment(p)
    }
}

/// A bound whose last path segment is `Send`.
pub open spec fn is_send_bound(b: Seq<TokV>) -> bool {
    path_last_segment(bound_path(skeleton(unwrapped(b)))) matches Some(t) && is_ident_text(
        t,
        "Send"@,
    )
}

/// The runs between the `+` tokens that stand outside every bracket, in order.
pub open spec fn split_plus(s: Seq<TokV>) -> Seq<Seq<TokV>>
    decreases s.len(),
{
    if s.len() == 0 {
        seq![Seq::empty()]
    } else {
        let pre = split_plus(s.drop_last());
        if is_punct(s.last(), '+') && depth(s.drop_last()) == 0 {
            pre.push(Seq::empty())
        } else {
            pre.update(pre.len() - 1, pre.last().push(s.last()))
        }
    }
}

/// `Bound ('+' Bound)*`: every run between the outer `+` tokens is a trait bound.
pub open spec fn is_bound_list(s: Seq<TokV>) -> bool {
    forall|i: int| 0 <= i < split_plus(s).len() ==> is_bound(#[trigger] split_plus(s)[i])
}

/// What a directive means: the named form where it fits, else a bare bound list.
pub open spec fn directive_meaning(s: Seq<TokV>) -> Option<TransformModeV> {
    if s.len() >= 2 && is_ident(s[0]) && is_lone_colon(s[1]) && is_bound_list(s.skip(2)) {
        Some(TransformModeV::CreateNamed { name: s[0], bounds: split_plus(s.skip(2)) })
    } else if is_bound_list(s) {
        Some(TransformModeV::RewriteInPlace { bounds: split_plus(s) })
    } else {
        None
    }
}

pub fn tok_is_punct(t: &Tok, c: char, want_joint: Option<bool>) -> (r: bool)
    ensures
        r == (t@ matches TokV::Punct { ch, joint, .. } && ch == c && (want_joint is None
            || joint == want_joint->0)),
{
    match t {
        Tok::Punct { ch, joint, .. } => *ch == c && match want_joint {
            Some(j) => *joint == j,
            None => true,
        },
        _ => false,
    }
}

/// How `s[i]` changes the depth of `s[lo..]`.
fn delta_at(s: &Vec<Tok>, lo: usize, i: usize) -> (d: i128)
    requires
        lo <= i < s@.len(),
    ensures
        d == delta(s.deep_view().skip(lo as int), i - lo),
        -1 <= d <= 1,
{
    let ghost t = s.deep_view().skip(lo as int);
    assert(t[i - lo] == s@[i as int]@);
    if i > lo {
        assert(t[i - lo - 1] == s@[i - 1]@);
    }
    match &s[i] {
        Tok::Open { .. } => 1,
        Tok::Close { .. } => -1,
        Tok::Punct { ch, .. } => if *ch == '<' {
            1
        } else if *ch == '>' {
            if i > lo && tok_is_punct(&s[i - 1], '-', Some(true)) {
                0
            } else {
                -1
            }
        } else {
            0
        },
        _ => 0,
    }
}

/// Whether the brackets of `b` balance, and the tokens of `b` outside every bracket.
fn scan(b: &Vec<Tok>) -> (r: (bool, Vec<Tok>))
    ensures
        r.0 == balanced(b.deep_view()),
        r.1.deep_view() == skeleton(b.deep_view()),
{
    let ghost s = b.deep_view();
    assert(s.skip(0) =~= s);
    let mut level: i128 = 0;
    let mut ok = true;
    let mut skel: Vec<Tok> = Vec::new();
    let mut i: usize = 0;
    assert(s.take(0) =~= Seq::<TokV>::empty());
    assert(skel.deep_view() =~= skeleton(s.take(0)));
    while i < b.len()
        invariant
            i <= b@.len(),
            s == b.deep_view(),
            s.skip(0) == s,
            level == depth(s.take(i as int)),
            -(i as int) <= level <= i,
            ok == never_below_zero(s.take(i as int)),
            skel.deep_view() == skeleton(s.take(i as int)),
        decreases b@.len() - i,
    {
        let ghost t = s.take(i + 1);
        assert(t.drop_last() =~= s.take(i as int));
        assert(t.last() == s[i as int]);
        assert(t[i as int] == s[i as int]);
        if i > 0 {
            assert(t[i - 1] == s[i - 1]);
        }
        assert(delta(t, i as int) == delta(s, i as int));
        if level == 0 {
            let ghost before = skel.deep_view();
            skel.push(b[i].deep_copy());
            assert(skel.deep_view() =~= before.push(s[i as int]));
        } else {
            assert(skel.deep_view() =~= skeleton(s.take(i as int)) + Seq::<TokV>::empty());
        }
        let d = delta_at(b, 0, i);
        level = level + d;
        ok = ok && level >= 0;
        assert(skel.deep_view() =~= skeleton(t));
        i = i + 1;
    }
    assert(s.take(i as int) =~= s);
    (ok && level == 0, skel)
}

fn paren_args_from(k: &Vec<Tok>, j: usize) -> (r: bool)
    requires
        j <= k@.len(),
    ensures
        r == is_paren_args(k.deep_view().skip(j as int)),
{
    let ghost r = k.deep_view().skip(j as int);
    let n = k.len();
    if j == n {
        return false;
    }
    assert(r[0] == k@[j as int]@);
    let opens = match &k[j] {
        Tok::Open { delim, .. } => *delim == Delim::Paren,
        _ => false,
    };
    if !opens {
        return false;
    }
    if n - j == 1 {
        return true;
    }
    if n - j >= 4 {
        assert(r[1] == k@[j + 1]@);
        assert(r[2] == k@[j + 2]@);
        tok_is_punct(&k[j + 1], '-', Some(true)) && tok_is_punct(&k[j + 2], '>', None)
    } else {
        false
    }
}

fn tail_from(k: &Vec<Tok>, j: usize) -> (r: bool)
    requires
        j <= k@.len(),
    ensures
        r == is_path_tail(k.deep_view().skip(j as int)),
{
    let ghost r = k.deep_view().skip(j as int);
    let n = k.len();
    if j == n || paren_args_from(k, j) {
        return true;
    }
    if n - j > 2 && tok_is_punct(&k[j], ':', Some(true)) && tok_is_punct(&k[j + 1], ':', Some(false)) {
        assert(r[0] == k@[j as int]@ && r[1] == k@[j + 1]@);
        assert(r.skip(2) =~= k.deep_view().skip(j + 2));
        paren_args_from(k, j + 2)
    } else {
        proof {
            if n - j > 2 {
                assert(r[0] == k@[j as int]@ && r[1] == k@[j + 1]@);
            }
        }
        false
    }
}

fn relative_path_from(k: &Vec<Tok>, i: usize) -> (r: bool)
    requires
        i <= k@.len(),
    ensures
        r == is_relative_path(k.deep_view().skip(i as int)),
    decreases k@.len() - i,
{
    let ghost t = k.deep_view().skip(i as int);
    let n = k.len();
    if i >= n {
        return false;
    }
    assert(t[0] == k@[i as int]@);
    if !matches!(k[i], Tok::Ident { .. }) {
        return false;
    }
    if n - i >= 2 && tok_is_punct(&k[i + 1], '<', None) {
        assert(t[1] == k@[i + 1]@);
        if n - i == 2 {
            return true;
        }
        if n - i > 4 && tok_is_punct(&k[i + 2], ':', Some(true)) && tok_is_punct(&k[i + 3], ':', Some(false)) {
            assert(t[2] == k@[i + 2]@ && t[3] == k@[i + 3]@);
            assert(t.skip(4) =~= k.deep_view().skip(i + 4));
            relative_path_from(k, i + 4)
        } else {
            proof {
                if n - i > 4 {
                    assert(t[2] == k@[i + 2]@ && t[3] == k@[i + 3]@);
                }
            }
            false
        }
    } else {
        proof {
            if n - i >= 2 {
                assert(t[1] == k@[i + 1]@);
            }
        }
        assert(t.skip(1) =~= k.deep_view().skip(i + 1));
        if tail_from(k, i + 1) {
            return true;
        }
        if n - i > 3 && tok_is_punct(&k[i + 1], ':', Some(true)) && tok_is_punct(&k[i + 2], ':', Some(false)) {
            assert(t[1] == k@[i + 1]@ && t[2] == k@[i + 2]@);
            assert(t.skip(3) =~= k.deep_view().skip(i + 3));
            relative_path_from(k, i + 3)
        } else {
            proof {
                if n - i > 3 {
                    assert(t[1] == k@[i + 1]@ && t[2] == k@[i + 2]@);
                }
            }
            false
        }
    }
}

fn binder_at(k: &Vec<Tok>, i: usize) -> (r: bool)
    requires
        i <= k@.len(),
    ensures
        r == has_binder(k.deep_view().skip(i as int)),
{
    let ghost t = k.deep_view().skip(i as int);
    if k.len() - i >= 2 {
        assert(t[0] == k@[i as int]@ && t[1] == k@[i + 1]@);
        tok_is_ident(&k[i], "for") && tok_is_punct(&k[i + 1], '<', None)
    } else {
        false
    }
}

fn maybe_at(k: &Vec<Tok>, i: usize) -> (r: bool)
    requires
        i <= k@.len(),
    ensures
        r == (k.deep_view().skip(i as int).len() >= 1 && is_punct(k.deep_view().skip(i as int)[0], '?')),
{
    if k.len() - i >= 1 {
        assert(k.deep_view().skip(i as int)[0] == k@[i as int]@);
        tok_is_punct(&k[i], '?', None)
    } else {
        false
    }
}

/// Where the path part of a bound's skeleton starts.
fn bound_path_start(k: &Vec<Tok>) -> (o: usize)
    ensures
        o <= k@.len(),
        k.deep_view().skip(o as int) == bound_path(k.deep_view()),
{
    let ghost s = k.deep_view();
    assert(s.skip(0) =~= s);
    if binder_at(k, 0) {
        2
    } else if maybe_at(k, 0) {
        1
    } else {
        0
    }
}

/// Whether a skeleton is that of a trait bound.
fn bound_skeleton_ok(k: &Vec<Tok>) -> (r: bool)
    ensures
        r == is_path(bound_path(k.deep_view())),
{
    let ghost s = k.deep_view();
    let o = bound_path_start(k);
    let ghost p = s.skip(o as int);
    assert(bound_path(s) =~= p);
    if relative_path_from(k, o) {
        return true;
    }
    if k.len() - o > 2 && tok_is_punct(&k[o], ':', Some(true)) && tok_is_punct(&k[o + 1], ':', Some(false)) {
        assert(p[0] == k@[o as int]@ && p[1] == k@[o + 1]@);
        assert(p.skip(2) =~= s.skip(o + 2));
        relative_path_from(k, o + 2)
    } else {
        proof {
            if k@.len() - o > 2 {
                assert(p[0] == k@[o as int]@ && p[1] == k@[o + 1]@);
            }
        }
        false
    }
}

/// The tokens `b[lo..hi]`.
fn sub_run(b: &Vec<Tok>, lo: usize, hi: usize) -> (r: Vec<Tok>)
    requires
        lo <= hi <= b@.len(),
    ensures
        r.deep_view() == b.deep_view().subrange(lo as int, hi as int),
{
    let mut r: Vec<Tok> = Vec::new();
    let mut i = lo;
    while i < hi
        invariant
            lo <= i <= hi <= b@.len(),
            r@.len() == i - lo,
            forall|j: int| 0 <= j < i - lo ==> #[trigger] r@[j]@ == b@[lo + j]@,
        decreases hi - i,
    {
        r.push(b[i].deep_copy());
        i = i + 1;
    }
    assert(r.deep_view() =~= b.deep_view().subrange(lo as int, hi as int));
    r
}

/// Whether one invisible group stands around the whole run.
fn wrapped(b: &Vec<Tok>) -> (r: bool)
    ensures
        r == is_wrapped(b.deep_view()),
{
    let ghost s = b.deep_view();
    let (bal, skel) = scan(b);
    let n = b.len();
    proof {
        if n >= 2 {
            assert(s[0] == b@[0]@);
            assert(s.last() == b@[n - 1]@);
        }
    }
    n >= 2 && bal && skel.len() == 1 && match (&b[0], &b[n - 1]) {
        (Tok::Open { delim: d1, .. }, Tok::Close { delim: d2, .. }) => *d1 == Delim::Invisible
            && *d2 == Delim::Invisible,
        _ => false,
    }
}

/// Whether a run of tokens is a trait bound.
pub fn check_bound(b: &Vec<Tok>) -> (r: bool)
    ensures
        r == is_bound(b.deep_view()),
    decreases b@.len(),
{
    if wrapped(b) {
        let inner = sub_run(b, 1, b.len() - 1);
        assert(inner@.len() == inner.deep_view().len());
        check_bound(&inner)
    } else {
        let (bal, skel) = scan(b);
        bal && bound_skeleton_ok(&skel)
    }
}

/// The bound with its invisible groups taken off.
fn unwrap_bound(b: &Vec<Tok>) -> (r: Vec<Tok>)
    ensures
        r.deep_view() == unwrapped(b.deep_view()),
    decreases b@.len(),
{
    if wrapped(b) {
        let inner = sub_run(b, 1, b.len() - 1);
        assert(inner@.len() == inner.deep_view().len());
        unwrap_bound(&inner)
    } else {
        b.deep_copy()
    }
}

fn last_segment_is_send(k: &Vec<Tok>, i: usize) -> (r: bool)
    requires
        i <= k@.len(),
    ensures
        r == (last_segment(k.deep_view().skip(i as int)) matches Some(t) && is_ident_text(
            t,
            "Send"@,
        )),
    decreases k@.len() - i,
{
    let ghost t = k.deep_view().skip(i as int);
    let n = k.len();
    if i >= n {
        return false;
    }
    assert(t[0] == k@[i as int]@);
    if n - i > 4 && tok_is_punct(&k[i + 1], '<', None) && tok_is_punct(&k[i + 2], ':', Some(true))
        && tok_is_punct(&k[i + 3], ':', Some(false)) {
        assert(t[1] == k@[i + 1]@ && t[2] == k@[i + 2]@ && t[3] == k@[i + 3]@);
        assert(t.skip(4) =~= k.deep_view().skip(i + 4));
        return last_segment_is_send(k, i + 4);
    }
    proof {
        if n - i > 4 {
            assert(t[1] == k@[i + 1]@ && t[2] == k@[i + 2]@ && t[3] == k@[i + 3]@);
        }
    }
    if n - i > 3 && tok_is_punct(&k[i + 1], ':', Some(true)) && tok_is_punct(&k[i + 2], ':', Some(false))
        && matches!(k[i + 3], Tok::Ident { .. }) {
        assert(t[1] == k@[i + 1]@ && t[2] == k@[i + 2]@ && t[3] == k@[i + 3]@);
        assert(t.skip(3) =~= k.deep_view().skip(i + 3));
        return last_segment_is_send(k, i + 3);
    }
    proof {
        if n - i > 3 {
            assert(t[1] == k@[i + 1]@ && t[2] == k@[i + 2]@ && t[3] == k@[i + 3]@);
        }
    }
    tok_is_ident(&k[i], "Send")
}

/// Whether the last path segment of a bound is `Send`.
pub fn bound_is_send(b: &Vec<Tok>) -> (r: bool)
    ensures
        r == is_send_bound(b.deep_view()),
{
    let u = unwrap_bound(b);
    let (_, skel) = scan(&u);
    let o = bound_path_start(&skel);
    let ghost p = skel.deep_view().skip(o as int);
    if skel.len() - o > 2 && tok_is_punct(&skel[o], ':', Some(true)) && tok_is_punct(&skel[o + 1], ':', Some(false)) {
        assert(p[0] == skel@[o as int]@ && p[1] == skel@[o + 1]@);
        assert(p.skip(2) =~= skel.deep_view().skip(o + 2));
        last_segment_is_send(&skel, o + 2)
    } else {
        proof {
            if skel@.len() - o > 2 {
                assert(p[0] == skel@[o as int]@ && p[1] == skel@[o + 1]@);
            }
        }
        last_segment_is_send(&skel, o)
    }
}

/// Splits `toks[start..]` at its outer `+` tokens; `None` unless every run is a trait bound.
fn parse_bound_list(toks: &Vec<Tok>, start: usize) -> (r: Option<Vec<Vec<Tok>>>)
    requires
        start <= toks@.len(),
    ensures
        r is Some <==> is_bound_list(toks.deep_view().skip(start as int)),
        r matches Some(b) ==> b.deep_view() == split_plus(toks.deep_view().skip(start as int)),
{
    let ghost s = toks.deep_view().skip(start as int);
    let mut done: Vec<Vec<Tok>> = Vec::new();
    let mut cur: Vec<Tok> = Vec::new();
    let mut ok = true;
    let mut i = start;
    let mut level: i128 = 0;
    assert(s.take(0) =~= Seq::<TokV>::empty());
    assert(done.deep_view() =~= Seq::<Seq<TokV>>::empty());
    assert(cur.deep_view() =~= Seq::<TokV>::empty());
    assert(done.deep_view().push(cur.deep_view()) =~= split_plus(s.take(0)));
    while i < toks.len()
        invariant
            start <= i <= toks@.len(),
            s == toks.deep_view().skip(start as int),
            done.deep_view().push(cur.deep_view()) == split_plus(s.take(i - start)),
            level == depth(s.take(i - start)),
            -(i - start) <= level <= i - start,
            ok == (forall|j: int| 0 <= j < done@.len() ==> is_bound(#[trigger] done.deep_view()[j])),
        decreases toks@.len() - i,
    {
        let ghost k = i - start;
        let ghost pre = split_plus(s.take(k));
        let ghost old_done = done.deep_view();
        let ghost old_cur = cur.deep_view();
        assert(s.take(k + 1).drop_last() =~= s.take(k));
        assert(s.take(k + 1).last() == toks@[i as int]@);
        assert(pre == old_done.push(old_cur));
        let ghost t = s.take(k + 1);
        proof {
            assert(t[k] == s[k]);
            if k > 0 {
                assert(t[k - 1] == s[k - 1]);
            }
        }
        assert(s[k] == toks@[i as int]@);
        assert(delta(t, k) == delta(s, k));
        let split = level == 0 && tok_is_punct(&toks[i], '+', None);
        let d = delta_at(toks, start, i);
        level = level + d;
        if split {
            let piece_ok = check_bound(&cur);
            done.push(cur);
            cur = Vec::new();
            assert(done.deep_view() =~= old_done.push(old_cur));
            assert(cur.deep_view() =~= Seq::<TokV>::empty());
            assert(split_plus(s.take(k + 1)) == pre.push(Seq::empty()));
            assert(done.deep_view().push(cur.deep_view()) =~= split_plus(s.take(k + 1)));
            assert((ok && piece_ok) == (forall|j: int| 0 <= j < done@.len() ==> is_bound(#[trigger] done.deep_view()[j]))) by {
                if ok && piece_ok {
                    assert forall|j: int| 0 <= j < done@.len() implies is_bound(#[trigger] done.deep_view()[j]) by {
                        if j < old_done.len() {
                            assert(done.deep_view()[j] == old_done[j]);
                        }
                    }
                }
                if !ok {
                    let j = choose|j: int| 0 <= j < old_done.len() && !is_bound(#[trigger] old_done[j]);
                    assert(done.deep_view()[j] == old_done[j]);
                }
                if !piece_ok {
                    assert(done.deep_view()[old_done.len() as int] == old_cur);
                }
            }
            ok = ok && piece_ok;
        } else {
            cur.push(toks[i].deep_copy());
            assert(cur.deep_view() =~= old_cur.push(toks@[i as int]@));
            assert(split_plus(s.take(k + 1)) == pre.update(pre.len() - 1, pre.last().push(toks@[i as int]@)));
            assert(done.deep_view().push(cur.deep_view()) =~= split_plus(s.take(k + 1)));
        }
        i = i + 1;
    }
    assert(s.take(i - start) =~= s);
    let last_ok = check_bound(&cur);
    let ghost dv = done.deep_view();
    done.push(cur);
    assert(done.deep_view() =~= split_plus(s));
    if ok && last_ok {
        assert forall|j: int| 0 <= j < split_plus(s).len() implies is_bound(
            #[trigger] split_plus(s)[j],
        ) by {
            if j < dv.len() {
                assert(dv[j] == done.deep_view()[j]);
            }
        }
        Some(done)
    } else {
        proof {
            if !ok {
                let j = choose|j: int| 0 <= j < dv.len() && !is_bound(#[trigger] dv[j]);
                assert(split_plus(s)[j] == dv[j]);
            } else {
                assert(split_plus(s)[dv.len() as int] == cur.deep_view());
            }
        }
        None
    }
}

/// Reads a directive `[Name ':'] Bound ('+' Bound)*`. The named form is tried first and
/// `CreateNamed` comes of it where it fits; otherwise the whole directive must be a bound list,
/// which rewrites the trait in place.
pub fn parse_directive(toks: &Vec<Tok>) -> (r: Result<TransformMode, DirectiveError>)
    ensures
        match r {
            Ok(m) => directive_meaning(toks.deep_view()) == Some(m@),
            Err(_) => directive_meaning(toks.deep_view()) is None,
        },
{
    let ghost s = toks.deep_view();
    if toks.len() >= 2 && matches!(toks[0], Tok::Ident { .. }) && tok_is_punct(&toks[1], ':', Some(false)) {
        assert(s[0] == toks@[0]@ && s[1] == toks@[1]@);
        if let Some(bounds) = parse_bound_list(toks, 2) {
            return Ok(TransformMode::CreateNamed { name: toks[0].deep_copy(), bounds });
        }
    }
    proof {
        if toks@.len() >= 2 {
            assert(s[0] == toks@[0]@ && s[1] == toks@[1]@);
        }
    }
    assert(s.skip(0) =~= s);
    match parse_bound_list(toks, 0) {
        Some(bounds) => Ok(TransformMode::RewriteInPlace { bounds }),
        None => Err(DirectiveError),
    }
}

} // verus!
