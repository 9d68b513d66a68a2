use vstd::prelude::*;
use crate::token::{ident_v, Tok, TokV};

verus! {

/// The length of the longest identifier among the tokens, or zero.
pub open spec fn longest_ident(s: Seq<TokV>) -> nat
    decreases s.len(),
{
    if s.len() == 0 {
        0
    } else {
        let m = longest_ident(s.drop_last());
        match s.last() {
            TokV::Ident { text, .. } => if text.len() > m {
                text.len()
            } else {
                m
            },
            _ => m,
        }
    }
}

/// `base` followed by as many `_` as make it longer than `n`.
pub open spec fn padded(base: Seq<char>, n: nat) -> Seq<char> {
    if base.len() > n {
        base
    } else {
        base + Seq::new((n + 1 - base.len()) as nat, |_i: int| '_')
    }
}

/// No identifier among the tokens is longer than the longest.
pub proof fn lemma_longest_ident(s: Seq<TokV>)
    ensures
        forall|i: int|
            0 <= i < s.len() && (#[trigger] s[i] is Ident) ==> s[i]->Ident_text.len()
                <= longest_ident(s),
    decreases s.len(),
{
    if s.len() > 0 {
        let p = s.drop_last();
        lemma_longest_ident(p);
        assert forall|i: int|
            0 <= i < s.len() && (#[trigger] s[i] is Ident) implies s[i]->Ident_text.len()
                <= longest_ident(s) by {
            if i < s.len() - 1 {
                assert(s[i] == p[i]);
            }
        }
    }
}

/// A name of `base` and underscores, longer than every identifier among `toks`.
pub fn fresh_name(base: &str, toks: &Vec<Tok>, span: usize) -> (r: Tok)
    ensures
        r@ == ident_v(padded(base@, longest_ident(toks.deep_view())), span),
{
    let ghost s = toks.deep_view();
    let mut n: usize = 0;
    let mut i: usize = 0;
    assert(s.take(0) =~= Seq::<TokV>::empty());
    while i < toks.len()
        invariant
            i <= toks@.len(),
            s == toks.deep_view(),
            n == longest_ident(s.take(i as int)),
        decreases toks@.len() - i,
    {
        assert(s.take(i + 1).drop_last() =~= s.take(i as int));
        assert(s.take(i + 1).last() == toks@[i as int]@);
        match &toks[i] {
            Tok::Ident { text, .. } => {
                let l = text.as_str().unicode_len();
                if l > n {
                    n = l;
                }
            },
            _ => {},
        }
        i = i + 1;
    }
    assert(s.take(i as int) =~= s);
    proof {
        reveal_strlit("_");
    }
    let mut name = String::from_str(base);
    let b = base.unicode_len();
    let mut len: u128 = b as u128;
    if b <= n {
        assert(name@ =~= base@ + Seq::new((len - b) as nat, |_i: int| '_'));
        while len <= n as u128
            invariant
                b <= n,
                b <= len <= n + 1,
                b == base@.len(),
                name@ == base@ + Seq::new((len - b) as nat, |_i: int| '_'),
            decreases n + 1 - len,
        {
            proof {
                reveal_strlit("_");
            }
            name.append("_");
            len = len + 1;
            assert(name@ =~= base@ + Seq::new((len - b) as nat, |_i: int| '_'));
        }
    }
    Tok::Ident { text: name, span }
}

} // verus!
