//! A plain model of the token trees that carry configuration text and
//! opaque attribute fragments.

use vstd::prelude::*;

verus! {

broadcast use vstd::std_specs::vec::group_vec_axioms;

/// Which bracket pair encloses a token group.
#[derive(Clone, Copy, Debug, PartialEq, Eq, Structural)]
pub enum Delim {
    Paren,
    Bracket,
    Brace,
}

/// One token tree: an identifier, a punctuation character, a literal's text,
/// or a delimited group of tokens.
#[derive(Debug)]
pub enum Tok {
    Ident(String),
    Punct(char),
    Literal(String),
    Group(Delim, Vec<Tok>),
}

/// The mathematical shape of a token tree.
pub enum TokV {
    Ident(Seq<char>),
    Punct(char),
    Literal(Seq<char>),
    Group(Delim, Seq<TokV>),
}

/// The shape of one token tree.
pub open spec fn tok_view(t: Tok) -> TokV
    decreases t,
{
    match t {
        Tok::Ident(s) => TokV::Ident(s@),
        Tok::Punct(c) => TokV::Punct(c),
        Tok::Literal(s) => TokV::Literal(s@),
        Tok::Group(d, ts) => TokV::Group(d, toks_view(ts@)),
    }
}

/// The shapes of a token sequence, in order.
pub open spec fn toks_view(s: Seq<Tok>) -> Seq<TokV>
    decreases s,
{
    if s.len() == 0 {
        Seq::empty()
    } else {
        toks_view(s.drop_last()).push(tok_view(s.last()))
    }
}

pub proof fn lemma_toks_view_len(s: Seq<Tok>)
    ensures
        toks_view(s).len() == s.len(),
    decreases s,
{
    if s.len() > 0 {
        lemma_toks_view_len(s.drop_last());
    }
}

pub proof fn lemma_toks_view_index(s: Seq<Tok>, i: int)
    requires
        0 <= i < s.len(),
    ensures
        toks_view(s).len() == s.len(),
        toks_view(s)[i] == tok_view(s[i]),
    decreases s,
{
    lemma_toks_view_len(s);
    if i == s.len() - 1 {
        lemma_toks_view_len(s.drop_last());
    } else {
        lemma_toks_view_index(s.drop_last(), i);
    }
}

pub proof fn lemma_toks_view_push(s: Seq<Tok>, t: Tok)
    ensures
        toks_view(s.push(t)) == toks_view(s).push(tok_view(t)),
{
    assert(s.push(t).drop_last() =~= s);
    assert(s.push(t).last() == t);
}

impl View for Tok {
    type V = TokV;

    open spec fn view(&self) -> TokV {
        tok_view(*self)
    }
}

impl DeepView for Tok {
    type V = TokV;

    open spec fn deep_view(&self) -> TokV {
        tok_view(*self)
    }
}

impl Tok {
    /// A copy of this token tree with the same shape.
    pub fn duplicate(&self) -> (r: Tok)
        ensures
            r@ == self@,
        decreases *self,
    {
        match self {
            Tok::Ident(s) => Tok::Ident(s.clone()),
            Tok::Punct(c) => Tok::Punct(*c),
            Tok::Literal(s) => Tok::Literal(s.clone()),
            Tok::Group(d, ts) => {
                let n = ts.len();
                let mut out: Vec<Tok> = Vec::new();
                let mut i: usize = 0;
                proof {
                    assert(toks_view(out@) =~= toks_view(ts@.take(0)));
                }
                while i < n
                    invariant
                        n == ts@.len(),
                        0 <= i <= n,
                        out@.len() == i,
                        toks_view(out@) == toks_view(ts@.take(i as int)),
                        decreases_to!(*self => *ts),
                    decreases n - i,
                {
                    proof {
                        assert(decreases_to!(*ts => ts@[i as int]));
                    }
                    let copied = ts[i].duplicate();
                    proof {
                        lemma_toks_view_push(out@, copied);
                        lemma_toks_view_push(ts@.take(i as int), ts@[i as int]);
                        assert(ts@.take(i + 1 as int) =~= ts@.take(i as int).push(ts@[i as int]));
                    }
                    out.push(copied);
                    i += 1;
                }
                proof {
                    assert(ts@.take(n as int) =~= ts@);
                }
                Tok::Group(*d, out)
            },
        }
    }
}

/// A copy of a token sequence with the same shapes.
pub fn duplicate_toks(v: &Vec<Tok>) -> (r: Vec<Tok>)
    ensures
        r.deep_view() == v.deep_view(),
        r@.len() == v@.len(),
{
    let n = v.len();
    let mut out: Vec<Tok> = Vec::new();
    let mut i: usize = 0;
    while i < n
        invariant
            n == v@.len(),
            0 <= i <= n,
            out@.len() == i,
            forall|j: int| 0 <= j < i ==> out@[j].deep_view() == v@[j].deep_view(),
        decreases n - i,
    {
        let copied = v[i].duplicate();
        out.push(copied);
        i += 1;
    }
    proof {
        assert(out.deep_view() =~= v.deep_view());
    }
    out
}

} // verus!
