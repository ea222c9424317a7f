//! The emit step: turns the structured artifacts into Rust source text.
//! Every token of the output is pinned by a spec render function, so the
//! text is exactly the rendering of what the generators built.

use crate::generate::AdapterBody;
use crate::generate::AdapterImplDef;
use crate::generate::AdapterMethod;
use crate::generate::ArgPass;
use crate::generate::ArmAction;
use crate::generate::BuildField;
use crate::generate::CallArm;
use crate::generate::CallFnDef;
use crate::generate::EnumDef;
use crate::generate::FieldDef;
use crate::generate::FieldTy;
use crate::generate::ProxyBody;
use crate::generate::ProxyDef;
use crate::generate::ProxyMethod;
use crate::generate::ResultifiedTraitDef;
use crate::generate::RtMethod;
use crate::generate::RtRet;
use crate::generate::SelfAdjust;
use crate::generate::VariantDef;
use crate::model::AccessMode;
use crate::model::ReceiverStyle;
use crate::model::TyExpr;
use crate::model::spec_fn_trait_text;
use crate::model::spec_receiver_text;
use crate::tokens::Delim;
use crate::tokens::Tok;
use crate::tokens::TokV;
use vstd::prelude::*;
use vstd::string::StrSliceExecFns;

verus! {

/// The text of one token tree, each token followed by one space.
pub open spec fn spec_render_tok(t: TokV) -> Seq<char>
    decreases t,
{
    match t {
        TokV::Ident(s) => s + " "@,
        TokV::Punct(c) => seq![c, ' '],
        TokV::Literal(s) => s + " "@,
        TokV::Group(d, ts) => spec_open_delim(d) + spec_render_toks(ts) + spec_close_delim(d),
    }
}

/// The text of a token sequence.
pub open spec fn spec_render_toks(ts: Seq<TokV>) -> Seq<char>
    decreases ts,
{
    if ts.len() == 0 {
        Seq::empty()
    } else {
        spec_render_toks(ts.drop_last()) + spec_render_tok(ts.last())
    }
}

pub open spec fn spec_open_delim(d: Delim) -> Seq<char> {
    match d {
        Delim::Paren => "( "@,
        Delim::Bracket => "[ "@,
        Delim::Brace => "{ "@,
    }
}

pub open spec fn spec_close_delim(d: Delim) -> Seq<char> {
    match d {
        Delim::Paren => ") "@,
        Delim::Bracket => "] "@,
        Delim::Brace => "} "@,
    }
}

/// Appends the characters of `s` to the output.
#[verifier::loop_isolation(false)]
pub fn emit(out: &mut Vec<char>, s: &str)
    ensures
        final(out)@ == old(out)@ + s@,
{
    let n = s.unicode_len();
    let mut i: usize = 0;
    while i < n
        invariant
            n == s@.len(),
            0 <= i <= n,
            out@ == old(out)@ + s@.take(i as int),
        decreases n - i,
    {
        let c = s.get_char(i);
        out.push(c);
        proof {
            assert(s@.take(i + 1 as int) =~= s@.take(i as int).push(c));
            assert(out@ =~= old(out)@ + s@.take(i + 1 as int));
        }
        i += 1;
    }
    proof {
        assert(s@.take(n as int) =~= s@);
    }
}

/// Appends an owned string's characters to the output.
pub fn emit_string(out: &mut Vec<char>, s: &String)
    ensures
        final(out)@ == old(out)@ + s@,
{
    emit(out, s.as_str());
}

/// Renders one token tree.
#[verifier::loop_isolation(false)]
pub fn render_tok(out: &mut Vec<char>, t: &Tok)
    ensures
        final(out)@ == old(out)@ + spec_render_tok(t@),
    decreases *t,
{
    match t {
        Tok::Ident(s) => {
            emit_string(out, s);
            emit(out, " ");
            proof {
                assert(out@ =~= old(out)@ + spec_render_tok(t@));
            }
        },
        Tok::Punct(c) => {
            out.push(*c);
            out.push(' ');
            proof {
                assert(out@ =~= old(out)@ + spec_render_tok(t@));
            }
        },
        Tok::Literal(s) => {
            emit_string(out, s);
            emit(out, " ");
            proof {
                assert(out@ =~= old(out)@ + spec_render_tok(t@));
            }
        },
        Tok::Group(d, ts) => {
            match d {
                Delim::Paren => emit(out, "( "),
                Delim::Bracket => emit(out, "[ "),
                Delim::Brace => emit(out, "{ "),
            }
            let n = ts.len();
            let mut i: usize = 0;
            proof {
                assert(crate::tokens::toks_view(ts@.take(0)) =~= Seq::<TokV>::empty());
            }
            while i < n
                invariant
                    n == ts@.len(),
                    0 <= i <= n,
                    out@ == old(out)@ + spec_open_delim(*d) + spec_render_toks(
                        crate::tokens::toks_view(ts@.take(i as int)),
                    ),
                    decreases_to!(*t => *ts),
                decreases n - i,
            {
                proof {
                    assert(decreases_to!(*ts => ts@[i as int]));
                }
                render_tok(out, &ts[i]);
                proof {
                    let tv = crate::tokens::toks_view(ts@.take(i + 1 as int));
                    let pv = crate::tokens::toks_view(ts@.take(i as int));
                    assert(ts@.take(i + 1 as int) =~= ts@.take(i as int).push(ts@[i as int]));
                    crate::tokens::lemma_toks_view_push(ts@.take(i as int), ts@[i as int]);
                    assert(tv == pv.push(crate::tokens::tok_view(ts@[i as int])));
                    assert(tv.drop_last() =~= pv);
                    assert(out@ =~= old(out)@ + spec_open_delim(*d) + spec_render_toks(tv));
                }
                i += 1;
            }
            match d {
                Delim::Paren => emit(out, ") "),
                Delim::Bracket => emit(out, "] "),
                Delim::Brace => emit(out, "} "),
            }
            proof {
                assert(ts@.take(n as int) =~= ts@);
                assert(out@ =~= old(out)@ + spec_render_tok(t@));
            }
        },
    }
}

/// The text of a sequence of attribute fragments, each as `# <fragment>`.
pub open spec fn spec_render_attrs(ts: Seq<TokV>) -> Seq<char>
    decreases ts,
{
    if ts.len() == 0 {
        Seq::empty()
    } else {
        spec_render_attrs(ts.drop_last()) + "# "@ + spec_render_tok(ts.last())
    }
}

/// Renders attribute fragments.
#[verifier::loop_isolation(false)]
pub fn render_attrs(out: &mut Vec<char>, attrs: &Vec<Tok>)
    ensures
        final(out)@ == old(out)@ + spec_render_attrs(attrs.deep_view()),
{
    let n = attrs.len();
    let mut i: usize = 0;
    proof {
        assert(attrs.deep_view().take(0) =~= Seq::<TokV>::empty());
    }
    while i < n
        invariant
            n == attrs@.len(),
            0 <= i <= n,
            out@ == old(out)@ + spec_render_attrs(attrs.deep_view().take(i as int)),
        decreases n - i,
    {
        emit(out, "# ");
        render_tok(out, &attrs[i]);
        proof {
            let dv = attrs.deep_view();
            assert(dv.take(i + 1 as int) =~= dv.take(i as int).push(dv[i as int]));
            assert(dv.take(i + 1 as int).drop_last() =~= dv.take(i as int));
            assert(dv[i as int] == attrs@[i as int]@);
            assert(out@ =~= old(out)@ + spec_render_attrs(dv.take(i + 1 as int)));
        }
        i += 1;
    }
    proof {
        assert(attrs.deep_view().take(n as int) =~= attrs.deep_view());
    }
}

/// The text of a visibility, with its trailing space when there is one.
pub open spec fn spec_access_prefix(m: AccessMode) -> Seq<char> {
    match m {
        AccessMode::Priv => ""@,
        AccessMode::Pub => "pub "@,
        AccessMode::PubCrate => "pub ( crate ) "@,
    }
}

pub fn render_access(out: &mut Vec<char>, m: AccessMode)
    ensures
        final(out)@ == old(out)@ + spec_access_prefix(m),
{
    match m {
        AccessMode::Priv => {
            proof {
                reveal_strlit("");
                assert(out@ =~= old(out)@ + spec_access_prefix(m));
            }
        },
        AccessMode::Pub => emit(out, "pub "),
        AccessMode::PubCrate => emit(out, "pub ( crate ) "),
    }
}

/// The text of a type expression.
pub open spec fn spec_render_ty(t: TyExpr) -> Seq<char> {
    if t.is_ref {
        "& "@ + t.base@ + " "@
    } else {
        t.base@ + " "@
    }
}

pub fn render_ty(out: &mut Vec<char>, t: &TyExpr)
    ensures
        final(out)@ == old(out)@ + spec_render_ty(*t),
{
    if t.is_ref {
        emit(out, "& ");
    }
    emit_string(out, &t.base);
    emit(out, " ");
    proof {
        assert(out@ =~= old(out)@ + spec_render_ty(*t));
    }
}

/// The text of one generated field's type.
pub open spec fn spec_render_field_ty(f: FieldTy) -> Seq<char> {
    match f {
        FieldTy::Plain(t) => spec_render_ty(t),
        FieldTy::Owned(b) => "< "@ + b@ + " as :: std :: borrow :: ToOwned > :: Owned "@,
        FieldTy::RetSender { class, ret } => class@ + " ! ( Sender < "@ + spec_render_ty(ret)
            + "> ) "@,
    }
}

pub fn render_field_ty(out: &mut Vec<char>, f: &FieldTy)
    ensures
        final(out)@ == old(out)@ + spec_render_field_ty(*f),
{
    match f {
        FieldTy::Plain(t) => render_ty(out, t),
        FieldTy::Owned(b) => {
            emit(out, "< ");
            emit_string(out, b);
            emit(out, " as :: std :: borrow :: ToOwned > :: Owned ");
            proof {
                assert(out@ =~= old(out)@ + spec_render_field_ty(*f));
            }
        },
        FieldTy::RetSender { class, ret } => {
            emit_string(out, class);
            emit(out, " ! ( Sender < ");
            render_ty(out, ret);
            emit(out, "> ) ");
            proof {
                assert(out@ =~= old(out)@ + spec_render_field_ty(*f));
            }
        },
    }
}

/// The text of one variant field.
pub open spec fn spec_render_field(f: FieldDef) -> Seq<char> {
    spec_render_attrs(f.attrs.deep_view()) + f.name@ + " : "@ + spec_render_field_ty(f.ty)
        + ", "@
}

/// The text of a field list.
pub open spec fn spec_render_fields(fs: Seq<FieldDef>) -> Seq<char>
    decreases fs,
{
    if fs.len() == 0 {
        Seq::empty()
    } else {
        spec_render_fields(fs.drop_last()) + spec_render_field(fs.last())
    }
}

#[verifier::loop_isolation(false)]
pub fn render_fields(out: &mut Vec<char>, fs: &Vec<FieldDef>)
    ensures
        final(out)@ == old(out)@ + spec_render_fields(fs@),
{
    let n = fs.len();
    let mut i: usize = 0;
    while i < n
        invariant
            n == fs@.len(),
            0 <= i <= n,
            out@ == old(out)@ + spec_render_fields(fs@.take(i as int)),
        decreases n - i,
    {
        let f = &fs[i];
        render_attrs(out, &f.attrs);
        emit_string(out, &f.name);
        emit(out, " : ");
        render_field_ty(out, &f.ty);
        emit(out, ", ");
        proof {
            assert(fs@.take(i + 1 as int) =~= fs@.take(i as int).push(fs@[i as int]));
            assert(fs@.take(i + 1 as int).drop_last() =~= fs@.take(i as int));
            assert(out@ =~= old(out)@ + spec_render_fields(fs@.take(i + 1 as int)));
        }
        i += 1;
    }
    proof {
        assert(fs@.take(n as int) =~= fs@);
    }
}

/// The text of one command-enum variant.
pub open spec fn spec_render_variant(v: VariantDef) -> Seq<char> {
    spec_render_attrs(v.attrs.deep_view()) + v.name@ + " { "@ + spec_render_fields(v.fields@)
        + "} , "@
}

/// The text of the variant list.
pub open spec fn spec_render_variants(vs: Seq<VariantDef>) -> Seq<char>
    decreases vs,
{
    if vs.len() == 0 {
        Seq::empty()
    } else {
        spec_render_variants(vs.drop_last()) + spec_render_variant(vs.last())
    }
}

#[verifier::loop_isolation(false)]
pub fn render_variants(out: &mut Vec<char>, vs: &Vec<VariantDef>)
    ensures
        final(out)@ == old(out)@ + spec_render_variants(vs@),
{
    let n = vs.len();
    let mut i: usize = 0;
    while i < n
        invariant
            n == vs@.len(),
            0 <= i <= n,
            out@ == old(out)@ + spec_render_variants(vs@.take(i as int)),
        decreases n - i,
    {
        let v = &vs[i];
        render_attrs(out, &v.attrs);
        emit_string(out, &v.name);
        emit(out, " { ");
        render_fields(out, &v.fields);
        emit(out, "} , ");
        proof {
            assert(vs@.take(i + 1 as int) =~= vs@.take(i as int).push(vs@[i as int]));
            assert(vs@.take(i + 1 as int).drop_last() =~= vs@.take(i as int));
            assert(out@ =~= old(out)@ + spec_render_variants(vs@.take(i + 1 as int)));
        }
        i += 1;
    }
    proof {
        assert(vs@.take(n as int) =~= vs@);
    }
}

/// The text of the whole command enum.
pub open spec fn spec_render_enum(e: EnumDef) -> Seq<char> {
    spec_render_attrs(e.attrs.deep_view()) + spec_access_prefix(e.access) + "enum "@ + e.name@
        + " { "@ + spec_render_variants(e.variants@) + "} "@
}

/// Renders the command enum.
pub fn render_enum(out: &mut Vec<char>, e: &EnumDef)
    ensures
        final(out)@ == old(out)@ + spec_render_enum(*e),
{
    render_attrs(out, &e.attrs);
    render_access(out, e.access);
    emit(out, "enum ");
    emit_string(out, &e.name);
    emit(out, " { ");
    render_variants(out, &e.variants);
    emit(out, "} ");
    proof {
        assert(out@ =~= old(out)@ + spec_render_enum(*e));
    }
}


/// The text of a signature argument list: each argument as `name : type ,`.
pub open spec fn spec_render_sig_args(args: Seq<(String, TyExpr)>) -> Seq<char>
    decreases args,
{
    if args.len() == 0 {
        Seq::empty()
    } else {
        spec_render_sig_args(args.drop_last()) + args.last().0@ + " : "@ + spec_render_ty(
            args.last().1,
        ) + ", "@
    }
}

#[verifier::loop_isolation(false)]
pub fn render_sig_args(out: &mut Vec<char>, args: &Vec<(String, TyExpr)>)
    ensures
        final(out)@ == old(out)@ + spec_render_sig_args(args@),
{
    let n = args.len();
    let mut i: usize = 0;
    while i < n
        invariant
            n == args@.len(),
            0 <= i <= n,
            out@ == old(out)@ + spec_render_sig_args(args@.take(i as int)),
        decreases n - i,
    {
        emit_string(out, &args[i].0);
        emit(out, " : ");
        render_ty(out, &args[i].1);
        emit(out, ", ");
        proof {
            assert(args@.take(i + 1 as int) =~= args@.take(i as int).push(args@[i as int]));
            assert(args@.take(i + 1 as int).drop_last() =~= args@.take(i as int));
            assert(out@ =~= old(out)@ + spec_render_sig_args(args@.take(i + 1 as int)));
        }
        i += 1;
    }
    proof {
        assert(args@.take(n as int) =~= args@);
    }
}

/// The text of a bare argument-name list: each argument as `name ,`.
pub open spec fn spec_render_arg_names(args: Seq<(String, TyExpr)>) -> Seq<char>
    decreases args,
{
    if args.len() == 0 {
        Seq::empty()
    } else {
        spec_render_arg_names(args.drop_last()) + args.last().0@ + " , "@
    }
}

#[verifier::loop_isolation(false)]
pub fn render_arg_names(out: &mut Vec<char>, args: &Vec<(String, TyExpr)>)
    ensures
        final(out)@ == old(out)@ + spec_render_arg_names(args@),
{
    let n = args.len();
    let mut i: usize = 0;
    while i < n
        invariant
            n == args@.len(),
            0 <= i <= n,
            out@ == old(out)@ + spec_render_arg_names(args@.take(i as int)),
        decreases n - i,
    {
        emit_string(out, &args[i].0);
        emit(out, " , ");
        proof {
            assert(args@.take(i + 1 as int) =~= args@.take(i as int).push(args@[i as int]));
            assert(args@.take(i + 1 as int).drop_last() =~= args@.take(i as int));
            assert(out@ =~= old(out)@ + spec_render_arg_names(args@.take(i + 1 as int)));
        }
        i += 1;
    }
    proof {
        assert(args@.take(n as int) =~= args@);
    }
}

/// The names a dispatcher arm binds out of the variant: every stored
/// argument, then the sender field when the method returns a value.
pub open spec fn spec_render_pass_names(ps: Seq<ArgPass>) -> Seq<char>
    decreases ps,
{
    if ps.len() == 0 {
        Seq::empty()
    } else {
        spec_render_pass_names(ps.drop_last()) + (match ps.last() {
            ArgPass::Direct(n) => n@,
            ArgPass::Borrowed(n) => n@,
        }) + " , "@
    }
}

#[verifier::loop_isolation(false)]
pub fn render_pass_names(out: &mut Vec<char>, ps: &Vec<ArgPass>)
    ensures
        final(out)@ == old(out)@ + spec_render_pass_names(ps@),
{
    let n = ps.len();
    let mut i: usize = 0;
    while i < n
        invariant
            n == ps@.len(),
            0 <= i <= n,
            out@ == old(out)@ + spec_render_pass_names(ps@.take(i as int)),
        decreases n - i,
    {
        match &ps[i] {
            ArgPass::Direct(nm) => emit_string(out, nm),
            ArgPass::Borrowed(nm) => emit_string(out, nm),
        }
        emit(out, " , ");
        proof {
            assert(ps@.take(i + 1 as int) =~= ps@.take(i as int).push(ps@[i as int]));
            assert(ps@.take(i + 1 as int).drop_last() =~= ps@.take(i as int));
            assert(out@ =~= old(out)@ + spec_render_pass_names(ps@.take(i + 1 as int)));
        }
        i += 1;
    }
    proof {
        assert(ps@.take(n as int) =~= ps@);
    }
}

/// How a dispatcher arm forwards each stored argument into the method
/// call: directly, or through the borrow undoing the ownership conversion.
pub open spec fn spec_render_pass_args(ps: Seq<ArgPass>) -> Seq<char>
    decreases ps,
{
    if ps.len() == 0 {
        Seq::empty()
    } else {
        spec_render_pass_args(ps.drop_last()) + (match ps.last() {
            ArgPass::Direct(n) => n@ + " , "@,
            ArgPass::Borrowed(n) => ":: std :: borrow :: Borrow :: borrow ( & "@ + n@ + " ) , "@,
        })
    }
}

#[verifier::loop_isolation(false)]
pub fn render_pass_args(out: &mut Vec<char>, ps: &Vec<ArgPass>)
    ensures
        final(out)@ == old(out)@ + spec_render_pass_args(ps@),
{
    let n = ps.len();
    let mut i: usize = 0;
    while i < n
        invariant
            n == ps@.len(),
            0 <= i <= n,
            out@ == old(out)@ + spec_render_pass_args(ps@.take(i as int)),
        decreases n - i,
    {
        match &ps[i] {
            ArgPass::Direct(nm) => {
                emit_string(out, nm);
                emit(out, " , ");
            },
            ArgPass::Borrowed(nm) => {
                emit(out, ":: std :: borrow :: Borrow :: borrow ( & ");
                emit_string(out, nm);
                emit(out, " ) , ");
            },
        }
        proof {
            assert(ps@.take(i + 1 as int) =~= ps@.take(i as int).push(ps@[i as int]));
            assert(ps@.take(i + 1 as int).drop_last() =~= ps@.take(i as int));
            assert(out@ =~= old(out)@ + spec_render_pass_args(ps@.take(i + 1 as int)));
        }
        i += 1;
    }
    proof {
        assert(ps@.take(n as int) =~= ps@);
    }
}

/// Every reply-sending arm presupposes a configured channel class.
pub open spec fn arms_need_class(arms: Seq<CallArm>, returnval: Option<String>) -> bool {
    forall|i: int|
        0 <= i < arms.len() && (#[trigger] arms[i].action) is CallSendReply ==> returnval is Some
}

/// Every reply-reading proxy method presupposes a configured channel class.
pub open spec fn proxy_methods_need_class(p: ProxyDef) -> bool {
    forall|i: int|
        0 <= i < p.methods@.len() && (#[trigger] p.methods@[i].body) is WithChannel
            ==> p.returnval is Some
}

/// The body of one dispatcher arm.
pub open spec fn spec_render_action(
    a: CallArm,
    returnval: Option<String>,
    has_extra: bool,
) -> Seq<char> {
    match a.action {
        ArmAction::CallNoRet => "o . "@ + a.method@ + " ( "@ + spec_render_pass_args(a.args@)
            + ") "@,
        ArmAction::CallNoRetOk => "Ok ( o . "@ + a.method@ + " ( "@ + spec_render_pass_args(
            a.args@,
        ) + ") ) "@,
        ArmAction::CallSendReply { ret } => "Ok ( "@ + returnval.unwrap()@ + " ! ( send :: < "@
            + spec_render_ty(ret) + "> ( ret , o . "@ + a.method@ + " ( "@
            + spec_render_pass_args(a.args@) + ") "@ + (if has_extra {
            ", extra_arg "@
        } else {
            Seq::empty()
        }) + ") ) ? ) "@,
        ArmAction::MismatchFailure { enum_and_fn, method } => "panic ! ( \"Cannot call `{}` from `{}` due to incompatible `self` access mode\" , \""@
            + method@ + "\" , \""@ + enum_and_fn@ + "\" ) "@,
    }
}

pub fn render_action(out: &mut Vec<char>, a: &CallArm, returnval: &Option<String>, has_extra: bool)
    requires
        (a.action is CallSendReply) ==> returnval is Some,
    ensures
        final(out)@ == old(out)@ + spec_render_action(*a, *returnval, has_extra),
{
    match &a.action {
        ArmAction::CallNoRet => {
            emit(out, "o . ");
            emit_string(out, &a.method);
            emit(out, " ( ");
            render_pass_args(out, &a.args);
            emit(out, ") ");
        },
        ArmAction::CallNoRetOk => {
            emit(out, "Ok ( o . ");
            emit_string(out, &a.method);
            emit(out, " ( ");
            render_pass_args(out, &a.args);
            emit(out, ") ) ");
        },
        ArmAction::CallSendReply { ret } => {
            emit(out, "Ok ( ");
            match returnval {
                Some(cl) => emit_string(out, cl),
                None => {
                    proof {
                        assert(false);
                    }
                },
            }
            emit(out, " ! ( send :: < ");
            render_ty(out, ret);
            emit(out, "> ( ret , o . ");
            emit_string(out, &a.method);
            emit(out, " ( ");
            render_pass_args(out, &a.args);
            emit(out, ") ");
            if has_extra {
                emit(out, ", extra_arg ");
            }
            emit(out, ") ) ? ) ");
        },
        ArmAction::MismatchFailure { enum_and_fn, method } => {
            emit(
                out,
                "panic ! ( \"Cannot call `{}` from `{}` due to incompatible `self` access mode\" , \"",
            );
            emit_string(out, method);
            emit(out, "\" , \"");
            emit_string(out, enum_and_fn);
            emit(out, "\" ) ");
        },
    }
    proof {
        assert(out@ =~= old(out)@ + spec_render_action(*a, *returnval, has_extra));
    }
}

/// The text of one dispatcher arm.
pub open spec fn spec_render_arm(
    a: CallArm,
    enum_name: Seq<char>,
    returnval: Option<String>,
    has_extra: bool,
) -> Seq<char> {
    enum_name + " :: "@ + a.variant@ + " { "@ + spec_render_pass_names(a.args@) + (if a.has_ret_field {
        "ret , "@
    } else {
        Seq::empty()
    }) + "} => "@ + spec_render_action(a, returnval, has_extra) + ", "@
}

/// The text of a dispatcher's arm list.
pub open spec fn spec_render_arms(
    arms: Seq<CallArm>,
    enum_name: Seq<char>,
    returnval: Option<String>,
    has_extra: bool,
) -> Seq<char>
    decreases arms,
{
    if arms.len() == 0 {
        Seq::empty()
    } else {
        spec_render_arms(arms.drop_last(), enum_name, returnval, has_extra) + spec_render_arm(
            arms.last(),
            enum_name,
            returnval,
            has_extra,
        )
    }
}

/// Renders one dispatcher arm.
#[verifier::rlimit(100)]
pub fn render_arm(
    out: &mut Vec<char>,
    a: &CallArm,
    enum_name: &String,
    returnval: &Option<String>,
    has_extra: bool,
)
    requires
        (a.action is CallSendReply) ==> returnval is Some,
    ensures
        final(out)@ == old(out)@ + spec_render_arm(*a, enum_name@, *returnval, has_extra),
{
    emit_string(out, enum_name);
    emit(out, " :: ");
    emit_string(out, &a.variant);
    emit(out, " { ");
    render_pass_names(out, &a.args);
    let ghost part1 = enum_name@ + " :: "@ + a.variant@ + " { "@ + spec_render_pass_names(
        a.args@,
    );
    proof {
        assert(out@ =~= old(out)@ + part1);
    }
    if a.has_ret_field {
        emit(out, "ret , ");
    }
    let ghost part2 = part1 + (if a.has_ret_field {
        "ret , "@
    } else {
        Seq::empty()
    });
    proof {
        assert(out@ =~= old(out)@ + part2);
    }
    emit(out, "} => ");
    render_action(out, a, returnval, has_extra);
    emit(out, ", ");
    proof {
        assert(out@ =~= old(out)@ + spec_render_arm(*a, enum_name@, *returnval, has_extra));
    }
}

#[verifier::loop_isolation(false)]
pub fn render_arms(
    out: &mut Vec<char>,
    arms: &Vec<CallArm>,
    enum_name: &String,
    returnval: &Option<String>,
    has_extra: bool,
)
    requires
        arms_need_class(arms@, *returnval),
    ensures
        final(out)@ == old(out)@ + spec_render_arms(arms@, enum_name@, *returnval, has_extra),
{
    let n = arms.len();
    let mut i: usize = 0;
    while i < n
        invariant
            n == arms@.len(),
            0 <= i <= n,
            out@ == old(out)@ + spec_render_arms(
                arms@.take(i as int),
                enum_name@,
                *returnval,
                has_extra,
            ),
        decreases n - i,
    {
        render_arm(out, &arms[i], enum_name, returnval, has_extra);
        proof {
            assert(arms@.take(i + 1 as int) =~= arms@.take(i as int).push(arms@[i as int]));
            assert(arms@.take(i + 1 as int).drop_last() =~= arms@.take(i as int));
            assert(out@ =~= old(out)@ + spec_render_arms(
                arms@.take(i + 1 as int),
                enum_name@,
                *returnval,
                has_extra,
            ));
        }
        i += 1;
    }
    proof {
        assert(arms@.take(n as int) =~= arms@);
    }
}

/// The receiver parameter of a dispatcher, matching its convention and
/// whether it targets a trait bound or the concrete type.
pub open spec fn spec_render_dispatch_receiver(c: CallFnDef) -> Seq<char> {
    match (c.inherent, c.level) {
        (false, ReceiverStyle::Move) => "mut o : I "@,
        (false, ReceiverStyle::Mut) => "o : & mut I "@,
        (false, ReceiverStyle::Ref) => "o : & I "@,
        (true, ReceiverStyle::Move) => "mut o : "@ + c.target@ + " "@,
        (true, ReceiverStyle::Mut) => "o : & mut "@ + c.target@ + " "@,
        (true, ReceiverStyle::Ref) => "o : & "@ + c.target@ + " "@,
    }
}

/// The opening of one generated dispatcher function, up to its match.
pub open spec fn spec_render_call_fn_head(c: CallFnDef) -> Seq<char> {
    "impl "@ + c.enum_name@ + " { "@ + spec_access_prefix(c.access) + "fn "@ + c.name@ + " "@ + (
    if !c.inherent {
        "< I : "@ + c.target@ + " > "@
    } else {
        Seq::empty()
    }) + "( self , "@ + spec_render_dispatch_receiver(c) + (match c.extra_arg {
        Some(ts) => ", extra_arg : "@ + spec_render_toks(ts.deep_view()),
        None => Seq::empty(),
    }) + ") "@ + (match c.returnval {
        Some(cl) => "-> Result < ( ) , "@ + cl@ + " ! ( SendError ) > "@,
        None => Seq::empty(),
    }) + "{ match self { "@
}

/// The text of one generated dispatcher function, as an impl block on the
/// command enum.
pub open spec fn spec_render_call_fn(c: CallFnDef) -> Seq<char> {
    spec_render_call_fn_head(c) + spec_render_arms(
        c.arms@,
        c.enum_name@,
        c.returnval,
        c.extra_arg is Some,
    ) + "} } } "@
}

/// Renders one dispatcher function.
pub fn render_call_fn(out: &mut Vec<char>, c: &CallFnDef)
    requires
        arms_need_class(c.arms@, c.returnval),
    ensures
        final(out)@ == old(out)@ + spec_render_call_fn(*c),
{
    render_call_fn_head(out, c);
    render_arms(out, &c.arms, &c.enum_name, &c.returnval, c.extra_arg.is_some());
    emit(out, "} } } ");
    proof {
        assert(out@ =~= old(out)@ + spec_render_call_fn(*c));
    }
}

/// Renders the opening of one dispatcher function.
#[verifier::rlimit(100)]
pub fn render_call_fn_head(out: &mut Vec<char>, c: &CallFnDef)
    ensures
        final(out)@ == old(out)@ + spec_render_call_fn_head(*c),
{
    let ghost o = old(out)@;
    emit(out, "impl ");
    emit_string(out, &c.enum_name);
    emit(out, " { ");
    render_access(out, c.access);
    emit(out, "fn ");
    emit_string(out, &c.name);
    emit(out, " ");
    let ghost c1 = "impl "@ + c.enum_name@ + " { "@ + spec_access_prefix(c.access) + "fn "@
        + c.name@ + " "@;
    proof {
        vstd::seq_lib::lemma_concat_associative(o, "impl "@, c.enum_name@);
        vstd::seq_lib::lemma_concat_associative(o, "impl "@ + c.enum_name@, " { "@);
        vstd::seq_lib::lemma_concat_associative(
            o,
            "impl "@ + c.enum_name@ + " { "@,
            spec_access_prefix(c.access),
        );
        vstd::seq_lib::lemma_concat_associative(
            o,
            "impl "@ + c.enum_name@ + " { "@ + spec_access_prefix(c.access),
            "fn "@,
        );
        vstd::seq_lib::lemma_concat_associative(
            o,
            "impl "@ + c.enum_name@ + " { "@ + spec_access_prefix(c.access) + "fn "@,
            c.name@,
        );
        vstd::seq_lib::lemma_concat_associative(
            o,
            "impl "@ + c.enum_name@ + " { "@ + spec_access_prefix(c.access) + "fn "@ + c.name@,
            " "@,
        );
        assert(out@ == o + c1);
    }
    let ghost gen_piece = if !c.inherent {
        "< I : "@ + c.target@ + " > "@
    } else {
        Seq::<char>::empty()
    };
    if !c.inherent {
        emit(out, "< I : ");
        emit_string(out, &c.target);
        emit(out, " > ");
        proof {
            vstd::seq_lib::lemma_concat_associative(o + c1, "< I : "@, c.target@);
            vstd::seq_lib::lemma_concat_associative(o + c1, "< I : "@ + c.target@, " > "@);
            vstd::seq_lib::lemma_concat_associative(o, c1, gen_piece);
            assert(out@ == o + (c1 + gen_piece));
        }
    } else {
        proof {
            assert(c1 + gen_piece =~= c1);
            assert(out@ == o + (c1 + gen_piece));
        }
    }
    let ghost c2 = c1 + gen_piece;
    emit(out, "( self , ");
    match (c.inherent, c.level) {
        (false, ReceiverStyle::Move) => emit(out, "mut o : I "),
        (false, ReceiverStyle::Mut) => emit(out, "o : & mut I "),
        (false, ReceiverStyle::Ref) => emit(out, "o : & I "),
        (true, ReceiverStyle::Move) => {
            emit(out, "mut o : ");
            emit_string(out, &c.target);
            emit(out, " ");
            proof {
                vstd::seq_lib::lemma_concat_associative(
                    o + c2 + "( self , "@,
                    "mut o : "@,
                    c.target@,
                );
                vstd::seq_lib::lemma_concat_associative(
                    o + c2 + "( self , "@,
                    "mut o : "@ + c.target@,
                    " "@,
                );
            }
        },
        (true, ReceiverStyle::Mut) => {
            emit(out, "o : & mut ");
            emit_string(out, &c.target);
            emit(out, " ");
            proof {
                vstd::seq_lib::lemma_concat_associative(
                    o + c2 + "( self , "@,
                    "o : & mut "@,
                    c.target@,
                );
                vstd::seq_lib::lemma_concat_associative(
                    o + c2 + "( self , "@,
                    "o : & mut "@ + c.target@,
                    " "@,
                );
            }
        },
        (true, ReceiverStyle::Ref) => {
            emit(out, "o : & ");
            emit_string(out, &c.target);
            emit(out, " ");
            proof {
                vstd::seq_lib::lemma_concat_associative(
                    o + c2 + "( self , "@,
                    "o : & "@,
                    c.target@,
                );
                vstd::seq_lib::lemma_concat_associative(
                    o + c2 + "( self , "@,
                    "o : & "@ + c.target@,
                    " "@,
                );
            }
        },
    }
    let ghost c3 = c2 + "( self , "@ + spec_render_dispatch_receiver(*c);
    proof {
        vstd::seq_lib::lemma_concat_associative(o, c2, "( self , "@);
        vstd::seq_lib::lemma_concat_associative(
            o,
            c2 + "( self , "@,
            spec_render_dispatch_receiver(*c),
        );
        assert(out@ == o + c3);
    }
    let ghost extra_piece = match &c.extra_arg {
        Some(ts) => ", extra_arg : "@ + spec_render_toks(ts.deep_view()),
        None => Seq::<char>::empty(),
    };
    match &c.extra_arg {
        Some(ts) => {
            emit(out, ", extra_arg : ");
            render_toks_list(out, ts);
            proof {
                vstd::seq_lib::lemma_concat_associative(
                    o + c3,
                    ", extra_arg : "@,
                    spec_render_toks(ts.deep_view()),
                );
                vstd::seq_lib::lemma_concat_associative(o, c3, extra_piece);
                assert(out@ == o + (c3 + extra_piece));
            }
        },
        None => {
            proof {
                assert(c3 + extra_piece =~= c3);
                assert(out@ == o + (c3 + extra_piece));
            }
        },
    }
    let ghost c4 = c3 + extra_piece;
    emit(out, ") ");
    let ghost c5 = c4 + ") "@;
    proof {
        vstd::seq_lib::lemma_concat_associative(o, c4, ") "@);
        assert(out@ == o + c5);
    }
    let ghost ret_piece = match &c.returnval {
        Some(cl) => "-> Result < ( ) , "@ + cl@ + " ! ( SendError ) > "@,
        None => Seq::<char>::empty(),
    };
    match &c.returnval {
        Some(cl) => {
            emit(out, "-> Result < ( ) , ");
            emit_string(out, cl);
            emit(out, " ! ( SendError ) > ");
            proof {
                vstd::seq_lib::lemma_concat_associative(o + c5, "-> Result < ( ) , "@, cl@);
                vstd::seq_lib::lemma_concat_associative(
                    o + c5,
                    "-> Result < ( ) , "@ + cl@,
                    " ! ( SendError ) > "@,
                );
                vstd::seq_lib::lemma_concat_associative(o, c5, ret_piece);
                assert(out@ == o + (c5 + ret_piece));
            }
        },
        None => {
            proof {
                assert(c5 + ret_piece =~= c5);
                assert(out@ == o + (c5 + ret_piece));
            }
        },
    }
    let ghost c6 = c5 + ret_piece;
    emit(out, "{ match self { ");
    proof {
        vstd::seq_lib::lemma_concat_associative(o, c6, "{ match self { "@);
        assert(out@ == o + (c6 + "{ match self { "@));
        assert(c6 + "{ match self { "@ == spec_render_call_fn_head(*c));
    }
}

/// The text of one fallible mirror method declaration.
pub open spec fn spec_render_rt_method(m: RtMethod) -> Seq<char> {
    "fn "@ + m.name@ + " ( "@ + spec_receiver_text(m.receiver) + " , "@ + spec_render_sig_args(
        m.args@,
    ) + ") -> Result < "@ + (match m.ret {
        RtRet::Unit => "( ) "@,
        RtRet::Nested { ret, class } => "Result < "@ + spec_render_ty(ret) + ", "@ + class@
            + " ! ( RecvError ) > "@,
    }) + ", E > ; "@
}

/// The text of the mirror trait's method list.
pub open spec fn spec_render_rt_methods(ms: Seq<RtMethod>) -> Seq<char>
    decreases ms,
{
    if ms.len() == 0 {
        Seq::empty()
    } else {
        spec_render_rt_methods(ms.drop_last()) + spec_render_rt_method(ms.last())
    }
}

/// The text of the fallible mirror trait.
pub open spec fn spec_render_resultified_trait(t: ResultifiedTraitDef) -> Seq<char> {
    spec_access_prefix(t.access) + "trait "@ + t.name@ + " < E > { "@ + spec_render_rt_methods(
        t.methods@,
    ) + "} "@
}

/// Renders one mirror method declaration.
#[verifier::rlimit(100)]
pub fn render_rt_method(out: &mut Vec<char>, m: &RtMethod)
    ensures
        final(out)@ == old(out)@ + spec_render_rt_method(*m),
{
    emit(out, "fn ");
    emit_string(out, &m.name);
    emit(out, " ( ");
    emit(out, m.receiver.ts());
    emit(out, " , ");
    render_sig_args(out, &m.args);
    emit(out, ") -> Result < ");
    match &m.ret {
        RtRet::Unit => emit(out, "( ) "),
        RtRet::Nested { ret, class } => {
            emit(out, "Result < ");
            render_ty(out, ret);
            emit(out, ", ");
            emit_string(out, class);
            emit(out, " ! ( RecvError ) > ");
        },
    }
    emit(out, ", E > ; ");
    proof {
        assert(out@ =~= old(out)@ + spec_render_rt_method(*m));
    }
}

/// Renders the fallible mirror trait.
#[verifier::loop_isolation(false)]
pub fn render_resultified_trait(out: &mut Vec<char>, t: &ResultifiedTraitDef)
    ensures
        final(out)@ == old(out)@ + spec_render_resultified_trait(*t),
{
    render_access(out, t.access);
    emit(out, "trait ");
    emit_string(out, &t.name);
    emit(out, " < E > { ");
    let n = t.methods.len();
    let mut i: usize = 0;
    while i < n
        invariant
            n == t.methods@.len(),
            0 <= i <= n,
            out@ == old(out)@ + spec_access_prefix(t.access) + "trait "@ + t.name@ + " < E > { "@
                + spec_render_rt_methods(t.methods@.take(i as int)),
        decreases n - i,
    {
        render_rt_method(out, &t.methods[i]);
        proof {
            let ms = t.methods@;
            assert(ms.take(i + 1 as int) =~= ms.take(i as int).push(ms[i as int]));
            assert(ms.take(i + 1 as int).drop_last() =~= ms.take(i as int));
            assert(out@ =~= old(out)@ + spec_access_prefix(t.access) + "trait "@ + t.name@
                + " < E > { "@ + spec_render_rt_methods(ms.take(i + 1 as int)));
        }
        i += 1;
    }
    emit(out, "} ");
    proof {
        assert(t.methods@.take(n as int) =~= t.methods@);
        assert(out@ =~= old(out)@ + spec_render_resultified_trait(*t));
    }
}

/// How a proxy method stores each argument into the command variant.
pub open spec fn spec_render_build_fields(bs: Seq<BuildField>) -> Seq<char>
    decreases bs,
{
    if bs.len() == 0 {
        Seq::empty()
    } else {
        spec_render_build_fields(bs.drop_last()) + (match bs.last() {
            BuildField::Direct(n) => n@ + " , "@,
            BuildField::ToOwned(n) => n@ + " : :: std :: borrow :: ToOwned :: to_owned ( "@ + n@
                + " ) , "@,
        })
    }
}

#[verifier::loop_isolation(false)]
pub fn render_build_fields(out: &mut Vec<char>, bs: &Vec<BuildField>)
    ensures
        final(out)@ == old(out)@ + spec_render_build_fields(bs@),
{
    let n = bs.len();
    let mut i: usize = 0;
    while i < n
        invariant
            n == bs@.len(),
            0 <= i <= n,
            out@ == old(out)@ + spec_render_build_fields(bs@.take(i as int)),
        decreases n - i,
    {
        match &bs[i] {
            BuildField::Direct(nm) => {
                emit_string(out, nm);
                emit(out, " , ");
            },
            BuildField::ToOwned(nm) => {
                emit_string(out, nm);
                emit(out, " : :: std :: borrow :: ToOwned :: to_owned ( ");
                emit_string(out, nm);
                emit(out, " ) , ");
            },
        }
        proof {
            assert(bs@.take(i + 1 as int) =~= bs@.take(i as int).push(bs@[i as int]));
            assert(bs@.take(i + 1 as int).drop_last() =~= bs@.take(i as int));
            assert(out@ =~= old(out)@ + spec_render_build_fields(bs@.take(i + 1 as int)));
        }
        i += 1;
    }
    proof {
        assert(bs@.take(n as int) =~= bs@);
    }
}

/// The function-trait bound a proxy places on its dispatch function.
pub open spec fn spec_render_fn_bound(level: ReceiverStyle, enum_name: Seq<char>) -> Seq<char> {
    spec_fn_trait_text(level) + " ( "@ + enum_name + " ) -> Result < ( ) , E > "@
}

/// The text of one proxy method.
pub open spec fn spec_render_proxy_method(p: ProxyDef, m: ProxyMethod) -> Seq<char> {
    "fn "@ + m.name@ + " ( "@ + spec_receiver_text(p.level) + " , "@ + spec_render_sig_args(
        m.args@,
    ) + ") "@ + (match m.body {
        ProxyBody::Plain => "-> Result < ( ) , E > { ( self . 0 ) ( "@ + p.enum_name@ + " :: "@
            + m.variant@ + " { "@ + spec_render_build_fields(m.build@) + "} ) } "@,
        ProxyBody::WithChannel { ret } => "-> Result < Result < "@ + spec_render_ty(ret) + ", "@
            + p.returnval.unwrap()@ + " ! ( RecvError ) > , E > { let ( tx , rx ) = "@
            + p.returnval.unwrap()@ + " ! ( create :: < "@ + spec_render_ty(ret) + "> ( "@ + (
        if p.extra_field is Some {
            "self . 1 "@
        } else {
            Seq::empty()
        }) + ") ) ; ( self . 0 ) ( "@ + p.enum_name@ + " :: "@ + m.variant@ + " { "@
            + spec_render_build_fields(m.build@) + "ret : tx } ) ? ; Ok ( "@
            + p.returnval.unwrap()@ + " ! ( recv :: < "@ + spec_render_ty(ret) + "> ( rx "@ + (
        if p.extra_field is Some {
            ", self . 1 "@
        } else {
            Seq::empty()
        }) + ") ) ) } "@,
    })
}

/// The text of the proxy's method list.
pub open spec fn spec_render_proxy_methods(p: ProxyDef, ms: Seq<ProxyMethod>) -> Seq<char>
    decreases ms,
{
    if ms.len() == 0 {
        Seq::empty()
    } else {
        spec_render_proxy_methods(p, ms.drop_last()) + spec_render_proxy_method(p, ms.last())
    }
}

/// The text of the proxy type and its mirror-trait impl.
pub open spec fn spec_render_proxy(p: ProxyDef) -> Seq<char> {
    spec_access_prefix(p.access) + "struct "@ + p.name@ + " < E , F : "@ + spec_render_fn_bound(
        p.level,
        p.enum_name@,
    ) + "> ( pub F "@ + (match p.extra_field {
        Some(ts) => ", pub "@ + spec_render_toks(ts.deep_view()),
        None => Seq::empty(),
    }) + ") ; "@ + "impl < E , F : "@ + spec_render_fn_bound(p.level, p.enum_name@) + "> "@
        + p.trait_name@ + " < E > for "@ + p.name@ + " < E , F > { "@ + spec_render_proxy_methods(
        p,
        p.methods@,
    ) + "} "@
}

/// Renders the proxy type and its mirror-trait impl.
#[verifier::rlimit(100)]
pub fn render_proxy(out: &mut Vec<char>, p: &ProxyDef)
    requires
        proxy_methods_need_class(*p),
    ensures
        final(out)@ == old(out)@ + spec_render_proxy(*p),
{
    render_access(out, p.access);
    emit(out, "struct ");
    emit_string(out, &p.name);
    emit(out, " < E , F : ");
    render_fn_bound(out, p.level, &p.enum_name);
    emit(out, "> ( pub F ");
    match &p.extra_field {
        Some(ts) => {
            emit(out, ", pub ");
            render_toks_list(out, ts);
        },
        None => {},
    }
    emit(out, ") ; ");
    emit(out, "impl < E , F : ");
    render_fn_bound(out, p.level, &p.enum_name);
    emit(out, "> ");
    emit_string(out, &p.trait_name);
    emit(out, " < E > for ");
    emit_string(out, &p.name);
    emit(out, " < E , F > { ");
    render_proxy_methods(out, p);
    emit(out, "} ");
    proof {
        assert(out@ =~= old(out)@ + spec_render_proxy(*p));
    }
}

/// Renders the function-trait bound of a proxy's dispatch function.
pub fn render_fn_bound(out: &mut Vec<char>, level: ReceiverStyle, enum_name: &String)
    ensures
        final(out)@ == old(out)@ + spec_render_fn_bound(level, enum_name@),
{
    emit(out, level.fn_trait());
    emit(out, " ( ");
    emit_string(out, enum_name);
    emit(out, " ) -> Result < ( ) , E > ");
    proof {
        assert(out@ =~= old(out)@ + spec_render_fn_bound(level, enum_name@));
    }
}

/// Renders a token list.
#[verifier::loop_isolation(false)]
pub fn render_toks_list(out: &mut Vec<char>, ts: &Vec<Tok>)
    ensures
        final(out)@ == old(out)@ + spec_render_toks(ts.deep_view()),
{
    let n = ts.len();
    let mut i: usize = 0;
    while i < n
        invariant
            n == ts@.len(),
            0 <= i <= n,
            out@ == old(out)@ + spec_render_toks(ts.deep_view().take(i as int)),
        decreases n - i,
    {
        render_tok(out, &ts[i]);
        proof {
            let dv = ts.deep_view();
            assert(dv.take(i + 1 as int) =~= dv.take(i as int).push(dv[i as int]));
            assert(dv.take(i + 1 as int).drop_last() =~= dv.take(i as int));
            assert(dv[i as int] == ts@[i as int]@);
            assert(out@ =~= old(out)@ + spec_render_toks(dv.take(i + 1 as int)));
        }
        i += 1;
    }
    proof {
        assert(ts.deep_view().take(n as int) =~= ts.deep_view());
    }
}

/// Renders one proxy method.
pub fn render_proxy_method(out: &mut Vec<char>, p: &ProxyDef, m: &ProxyMethod)
    requires
        (m.body is WithChannel) ==> p.returnval is Some,
    ensures
        final(out)@ == old(out)@ + spec_render_proxy_method(*p, *m),
{
    let ghost o = old(out)@;
    emit(out, "fn ");
    emit_string(out, &m.name);
    emit(out, " ( ");
    emit(out, p.level.ts());
    emit(out, " , ");
    render_sig_args(out, &m.args);
    emit(out, ") ");
    let ghost s1 = "fn "@ + m.name@;
    let ghost s2 = s1 + " ( "@;
    let ghost s3 = s2 + spec_receiver_text(p.level);
    let ghost s4 = s3 + " , "@;
    let ghost s5 = s4 + spec_render_sig_args(m.args@);
    let ghost sig = s5 + ") "@;
    proof {
        vstd::seq_lib::lemma_concat_associative(o, "fn "@, m.name@);
        vstd::seq_lib::lemma_concat_associative(o, s1, " ( "@);
        vstd::seq_lib::lemma_concat_associative(o, s2, spec_receiver_text(p.level));
        vstd::seq_lib::lemma_concat_associative(o, s3, " , "@);
        vstd::seq_lib::lemma_concat_associative(o, s4, spec_render_sig_args(m.args@));
        vstd::seq_lib::lemma_concat_associative(o, s5, ") "@);
        assert(out@ == o + sig);
    }
    match &m.body {
        ProxyBody::Plain => {
            emit(out, "-> Result < ( ) , E > { ( self . 0 ) ( ");
            emit_string(out, &p.enum_name);
            emit(out, " :: ");
            emit_string(out, &m.variant);
            emit(out, " { ");
            render_build_fields(out, &m.build);
            emit(out, "} ) } ");
            let ghost base = o + sig;
            let ghost b1 = "-> Result < ( ) , E > { ( self . 0 ) ( "@ + p.enum_name@;
            let ghost b2 = b1 + " :: "@;
            let ghost b3 = b2 + m.variant@;
            let ghost b4 = b3 + " { "@;
            let ghost b5 = b4 + spec_render_build_fields(m.build@);
            let ghost body = b5 + "} ) } "@;
            proof {
                vstd::seq_lib::lemma_concat_associative(
                    base,
                    "-> Result < ( ) , E > { ( self . 0 ) ( "@,
                    p.enum_name@,
                );
                vstd::seq_lib::lemma_concat_associative(base, b1, " :: "@);
                vstd::seq_lib::lemma_concat_associative(base, b2, m.variant@);
                vstd::seq_lib::lemma_concat_associative(base, b3, " { "@);
                vstd::seq_lib::lemma_concat_associative(base, b4, spec_render_build_fields(m.build@));
                vstd::seq_lib::lemma_concat_associative(base, b5, "} ) } "@);
                assert(out@ == base + body);
                vstd::seq_lib::lemma_concat_associative(o, sig, body);
                assert(out@ == o + spec_render_proxy_method(*p, *m));
            }
        },
        ProxyBody::WithChannel { ret } => {
            let cl = match &p.returnval {
                Some(cl) => cl,
                None => {
                    proof {
                        assert(false);
                    }
                    &p.name
                },
            };
            emit(out, "-> Result < Result < ");
            render_ty(out, ret);
            emit(out, ", ");
            emit_string(out, cl);
            emit(out, " ! ( RecvError ) > , E > { let ( tx , rx ) = ");
            emit_string(out, cl);
            emit(out, " ! ( create :: < ");
            render_ty(out, ret);
            emit(out, "> ( ");
            if p.extra_field.is_some() {
                emit(out, "self . 1 ");
            }
            emit(out, ") ) ; ( self . 0 ) ( ");
            emit_string(out, &p.enum_name);
            emit(out, " :: ");
            emit_string(out, &m.variant);
            emit(out, " { ");
            render_build_fields(out, &m.build);
            emit(out, "ret : tx } ) ? ; Ok ( ");
            emit_string(out, cl);
            emit(out, " ! ( recv :: < ");
            render_ty(out, ret);
            emit(out, "> ( rx ");
            if p.extra_field.is_some() {
                emit(out, ", self . 1 ");
            }
            emit(out, ") ) ) } ");
            let ghost base = o + sig;
            let ghost b1 = "-> Result < Result < "@ + spec_render_ty(*ret);
            let ghost b2 = b1 + ", "@;
            let ghost b3 = b2 + cl@;
            let ghost b4 = b3 + " ! ( RecvError ) > , E > { let ( tx , rx ) = "@;
            let ghost b5 = b4 + cl@;
            let ghost b6 = b5 + " ! ( create :: < "@;
            let ghost b7 = b6 + spec_render_ty(*ret);
            let ghost b8 = b7 + "> ( "@;
            let ghost extra1 = if p.extra_field is Some {
                "self . 1 "@
            } else {
                Seq::<char>::empty()
            };
            let ghost b9 = b8 + extra1;
            let ghost b10 = b9 + ") ) ; ( self . 0 ) ( "@;
            let ghost b11 = b10 + p.enum_name@;
            let ghost b12 = b11 + " :: "@;
            let ghost b13 = b12 + m.variant@;
            let ghost b14 = b13 + " { "@;
            let ghost b15 = b14 + spec_render_build_fields(m.build@);
            let ghost b16 = b15 + "ret : tx } ) ? ; Ok ( "@;
            let ghost b17 = b16 + cl@;
            let ghost b18 = b17 + " ! ( recv :: < "@;
            let ghost b19 = b18 + spec_render_ty(*ret);
            let ghost b20 = b19 + "> ( rx "@;
            let ghost extra2 = if p.extra_field is Some {
                ", self . 1 "@
            } else {
                Seq::<char>::empty()
            };
            let ghost b21 = b20 + extra2;
            let ghost body = b21 + ") ) ) } "@;
            proof {
                vstd::seq_lib::lemma_concat_associative(
                    base,
                    "-> Result < Result < "@,
                    spec_render_ty(*ret),
                );
                vstd::seq_lib::lemma_concat_associative(base, b1, ", "@);
                vstd::seq_lib::lemma_concat_associative(base, b2, cl@);
                vstd::seq_lib::lemma_concat_associative(
                    base,
                    b3,
                    " ! ( RecvError ) > , E > { let ( tx , rx ) = "@,
                );
                vstd::seq_lib::lemma_concat_associative(base, b4, cl@);
                vstd::seq_lib::lemma_concat_associative(base, b5, " ! ( create :: < "@);
                vstd::seq_lib::lemma_concat_associative(base, b6, spec_render_ty(*ret));
                vstd::seq_lib::lemma_concat_associative(base, b7, "> ( "@);
                if p.extra_field is Some {
                    vstd::seq_lib::lemma_concat_associative(base, b8, extra1);
                } else {
                    assert(b8 + extra1 =~= b8);
                }
                assert(out@ == base + b9 + ") ) ; ( self . 0 ) ( "@ + p.enum_name@ + " :: "@
                    + m.variant@ + " { "@ + spec_render_build_fields(m.build@)
                    + "ret : tx } ) ? ; Ok ( "@ + cl@ + " ! ( recv :: < "@ + spec_render_ty(*ret)
                    + "> ( rx "@ + extra2 + ") ) ) } "@) by {
                    if p.extra_field is Some {
                    } else {
                        assert(b20 + extra2 =~= b20);
                    }
                };
                vstd::seq_lib::lemma_concat_associative(base, b9, ") ) ; ( self . 0 ) ( "@);
                vstd::seq_lib::lemma_concat_associative(base, b10, p.enum_name@);
                vstd::seq_lib::lemma_concat_associative(base, b11, " :: "@);
                vstd::seq_lib::lemma_concat_associative(base, b12, m.variant@);
                vstd::seq_lib::lemma_concat_associative(base, b13, " { "@);
                vstd::seq_lib::lemma_concat_associative(
                    base,
                    b14,
                    spec_render_build_fields(m.build@),
                );
                vstd::seq_lib::lemma_concat_associative(base, b15, "ret : tx } ) ? ; Ok ( "@);
                vstd::seq_lib::lemma_concat_associative(base, b16, cl@);
                vstd::seq_lib::lemma_concat_associative(base, b17, " ! ( recv :: < "@);
                vstd::seq_lib::lemma_concat_associative(base, b18, spec_render_ty(*ret));
                vstd::seq_lib::lemma_concat_associative(base, b19, "> ( rx "@);
                if p.extra_field is Some {
                    vstd::seq_lib::lemma_concat_associative(base, b20, extra2);
                } else {
                    assert(b20 + extra2 =~= b20);
                }
                vstd::seq_lib::lemma_concat_associative(base, b21, ") ) ) } "@);
                assert(out@ == base + body);
                vstd::seq_lib::lemma_concat_associative(o, sig, body);
                assert(out@ == o + spec_render_proxy_method(*p, *m));
            }
        },
    }
}

/// Renders the proxy's methods.
#[verifier::loop_isolation(false)]
pub fn render_proxy_methods(out: &mut Vec<char>, p: &ProxyDef)
    requires
        proxy_methods_need_class(*p),
    ensures
        final(out)@ == old(out)@ + spec_render_proxy_methods(*p, p.methods@),
{
    let n = p.methods.len();
    let mut i: usize = 0;
    while i < n
        invariant
            n == p.methods@.len(),
            0 <= i <= n,
            out@ == old(out)@ + spec_render_proxy_methods(*p, p.methods@.take(i as int)),
        decreases n - i,
    {
        render_proxy_method(out, p, &p.methods[i]);
        proof {
            let ms = p.methods@;
            assert(ms.take(i + 1 as int) =~= ms.take(i as int).push(ms[i as int]));
            assert(ms.take(i + 1 as int).drop_last() =~= ms.take(i as int));
            assert(out@ =~= old(out)@ + spec_render_proxy_methods(*p, ms.take(i + 1 as int)));
        }
        i += 1;
    }
    proof {
        assert(p.methods@.take(n as int) =~= p.methods@);
    }
}


/// The receiver expression an adapter method hands to the mirror call.
pub open spec fn spec_adjust_text(a: SelfAdjust) -> Seq<char> {
    match a {
        SelfAdjust::AsIs => "self"@,
        SelfAdjust::Borrow => "& self"@,
        SelfAdjust::BorrowMut => "& mut self"@,
    }
}

/// The text of one adapter method: the original signature, forwarding to
/// the mirror and unwrapping, or the unconditional failure for a method the
/// proxy's convention cannot serve.
pub open spec fn spec_render_adapter_method(m: AdapterMethod, caller: Seq<char>) -> Seq<char> {
    "fn "@ + m.name@ + " ( "@ + spec_receiver_text(m.receiver) + " , "@ + spec_render_sig_args(
        m.args@,
    ) + ") "@ + (match m.ret {
        Some(t) => "-> "@ + spec_render_ty(t),
        None => Seq::empty(),
    }) + (match m.body {
        AdapterBody::ForwardUnwrap { try_name, double_unwrap, adjust } => "{ "@ + caller + " :: "@
            + try_name@ + " ( "@ + spec_adjust_text(adjust) + " , "@ + spec_render_arg_names(
            m.args@,
        ) + ") . unwrap ( ) "@ + (if double_unwrap {
            ". unwrap ( ) "@
        } else {
            Seq::empty()
        }) + "} "@,
        AdapterBody::Failure { iface, method, proxy } => "{ panic ! ( \"Cannot call {} :: {} accepting too weak `self` on {}\" , \""@
            + iface@ + "\" , \""@ + method@ + "\" , \""@ + proxy@ + "\" ) } "@,
    })
}

/// The text of an adapter impl's method list.
pub open spec fn spec_render_adapter_methods(ms: Seq<AdapterMethod>, caller: Seq<char>) -> Seq<
    char,
>
    decreases ms,
{
    if ms.len() == 0 {
        Seq::empty()
    } else {
        spec_render_adapter_methods(ms.drop_last(), caller) + spec_render_adapter_method(
            ms.last(),
            caller,
        )
    }
}

/// The mirror-method caller prefix of an adapter impl: the blanket type
/// parameter for the infallible impl, the mirror trait itself otherwise.
pub open spec fn spec_adapter_caller(a: AdapterImplDef) -> Seq<char> {
    if a.via_trait {
        "R"@
    } else {
        a.trait_name@
    }
}

/// The text of one adapter impl of the original interface.
pub open spec fn spec_render_adapter(
    a: AdapterImplDef,
    enum_name: Seq<char>,
    class: Option<String>,
) -> Seq<char> {
    (if a.via_trait {
        "impl < R : "@ + a.trait_name@ + " < :: std :: convert :: Infallible > > "@ + a.iface@
            + " for R { "@
    } else {
        "impl < E , F : "@ + spec_render_fn_bound(a.level, enum_name) + "> "@ + a.iface@
            + " for "@ + a.proxy_name@ + " < E , F > where E : :: std :: fmt :: Debug "@ + (
        if a.recv_error_bound {
            ", "@ + class.unwrap()@ + " ! ( RecvError ) : :: std :: fmt :: Debug "@
        } else {
            Seq::empty()
        }) + "{ "@
    }) + spec_render_adapter_methods(a.methods@, spec_adapter_caller(a)) + "} "@
}

/// Renders one adapter method.
pub fn render_adapter_method(out: &mut Vec<char>, m: &AdapterMethod, caller: &str)
    ensures
        final(out)@ == old(out)@ + spec_render_adapter_method(*m, caller@),
{
    let ghost o = old(out)@;
    emit(out, "fn ");
    emit_string(out, &m.name);
    emit(out, " ( ");
    emit(out, m.receiver.ts());
    emit(out, " , ");
    render_sig_args(out, &m.args);
    emit(out, ") ");
    let ghost s1 = "fn "@ + m.name@;
    let ghost s2 = s1 + " ( "@;
    let ghost s3 = s2 + spec_receiver_text(m.receiver);
    let ghost s4 = s3 + " , "@;
    let ghost s5 = s4 + spec_render_sig_args(m.args@);
    let ghost s6 = s5 + ") "@;
    proof {
        vstd::seq_lib::lemma_concat_associative(o, "fn "@, m.name@);
        vstd::seq_lib::lemma_concat_associative(o, s1, " ( "@);
        vstd::seq_lib::lemma_concat_associative(o, s2, spec_receiver_text(m.receiver));
        vstd::seq_lib::lemma_concat_associative(o, s3, " , "@);
        vstd::seq_lib::lemma_concat_associative(o, s4, spec_render_sig_args(m.args@));
        vstd::seq_lib::lemma_concat_associative(o, s5, ") "@);
        assert(out@ == o + s6);
    }
    let ghost ret_piece = match &m.ret {
        Some(t) => "-> "@ + spec_render_ty(*t),
        None => Seq::<char>::empty(),
    };
    match &m.ret {
        Some(t) => {
            emit(out, "-> ");
            render_ty(out, t);
            proof {
                vstd::seq_lib::lemma_concat_associative(o + s6, "-> "@, spec_render_ty(*t));
                vstd::seq_lib::lemma_concat_associative(o, s6, ret_piece);
                assert(out@ == o + (s6 + ret_piece));
            }
        },
        None => {
            proof {
                assert(s6 + ret_piece =~= s6);
                assert(out@ == o + (s6 + ret_piece));
            }
        },
    }
    let ghost s7 = s6 + ret_piece;
    match &m.body {
        AdapterBody::ForwardUnwrap { try_name, double_unwrap, adjust } => {
            emit(out, "{ ");
            emit(out, caller);
            emit(out, " :: ");
            emit_string(out, try_name);
            emit(out, " ( ");
            match adjust {
                SelfAdjust::AsIs => emit(out, "self"),
                SelfAdjust::Borrow => emit(out, "& self"),
                SelfAdjust::BorrowMut => emit(out, "& mut self"),
            }
            emit(out, " , ");
            render_arg_names(out, &m.args);
            emit(out, ") . unwrap ( ) ");
            let ghost base = o + s7;
            let ghost b1 = "{ "@ + caller@;
            let ghost b2 = b1 + " :: "@;
            let ghost b3 = b2 + try_name@;
            let ghost b4 = b3 + " ( "@;
            let ghost b5 = b4 + spec_adjust_text(*adjust);
            let ghost b6 = b5 + " , "@;
            let ghost b7 = b6 + spec_render_arg_names(m.args@);
            let ghost b8 = b7 + ") . unwrap ( ) "@;
            proof {
                vstd::seq_lib::lemma_concat_associative(base, "{ "@, caller@);
                vstd::seq_lib::lemma_concat_associative(base, b1, " :: "@);
                vstd::seq_lib::lemma_concat_associative(base, b2, try_name@);
                vstd::seq_lib::lemma_concat_associative(base, b3, " ( "@);
                vstd::seq_lib::lemma_concat_associative(base, b4, spec_adjust_text(*adjust));
                vstd::seq_lib::lemma_concat_associative(base, b5, " , "@);
                vstd::seq_lib::lemma_concat_associative(base, b6, spec_render_arg_names(m.args@));
                vstd::seq_lib::lemma_concat_associative(base, b7, ") . unwrap ( ) "@);
                assert(out@ == base + b8);
            }
            let ghost dbl = if *double_unwrap {
                ". unwrap ( ) "@
            } else {
                Seq::<char>::empty()
            };
            if *double_unwrap {
                emit(out, ". unwrap ( ) ");
                proof {
                    vstd::seq_lib::lemma_concat_associative(base, b8, dbl);
                }
            } else {
                proof {
                    assert(b8 + dbl =~= b8);
                }
            }
            let ghost b9 = b8 + dbl;
            emit(out, "} ");
            proof {
                vstd::seq_lib::lemma_concat_associative(base, b9, "} "@);
                assert(out@ == base + (b9 + "} "@));
                vstd::seq_lib::lemma_concat_associative(o, s7, b9 + "} "@);
                assert(out@ == o + spec_render_adapter_method(*m, caller@));
            }
        },
        AdapterBody::Failure { iface, method, proxy } => {
            emit(
                out,
                "{ panic ! ( \"Cannot call {} :: {} accepting too weak `self` on {}\" , \"",
            );
            emit_string(out, iface);
            emit(out, "\" , \"");
            emit_string(out, method);
            emit(out, "\" , \"");
            emit_string(out, proxy);
            emit(out, "\" ) } ");
            let ghost base = o + s7;
            let ghost b1 =
                "{ panic ! ( \"Cannot call {} :: {} accepting too weak `self` on {}\" , \""@
                + iface@;
            let ghost b2 = b1 + "\" , \""@;
            let ghost b3 = b2 + method@;
            let ghost b4 = b3 + "\" , \""@;
            let ghost b5 = b4 + proxy@;
            let ghost b6 = b5 + "\" ) } "@;
            proof {
                vstd::seq_lib::lemma_concat_associative(
                    base,
                    "{ panic ! ( \"Cannot call {} :: {} accepting too weak `self` on {}\" , \""@,
                    iface@,
                );
                vstd::seq_lib::lemma_concat_associative(base, b1, "\" , \""@);
                vstd::seq_lib::lemma_concat_associative(base, b2, method@);
                vstd::seq_lib::lemma_concat_associative(base, b3, "\" , \""@);
                vstd::seq_lib::lemma_concat_associative(base, b4, proxy@);
                vstd::seq_lib::lemma_concat_associative(base, b5, "\" ) } "@);
                assert(out@ == base + b6);
                vstd::seq_lib::lemma_concat_associative(o, s7, b6);
                assert(out@ == o + spec_render_adapter_method(*m, caller@));
            }
        },
    }
}

/// Renders one adapter impl.
#[verifier::loop_isolation(false)]
#[verifier::rlimit(100)]
pub fn render_adapter(
    out: &mut Vec<char>,
    a: &AdapterImplDef,
    enum_name: &String,
    class: &Option<String>,
)
    requires
        a.recv_error_bound ==> class is Some,
    ensures
        final(out)@ == old(out)@ + spec_render_adapter(*a, enum_name@, *class),
{
    let ghost o = old(out)@;
    let ghost head = if a.via_trait {
        "impl < R : "@ + a.trait_name@ + " < :: std :: convert :: Infallible > > "@ + a.iface@
            + " for R { "@
    } else {
        "impl < E , F : "@ + spec_render_fn_bound(a.level, enum_name@) + "> "@ + a.iface@
            + " for "@ + a.proxy_name@ + " < E , F > where E : :: std :: fmt :: Debug "@ + (
        if a.recv_error_bound {
            ", "@ + class.unwrap()@ + " ! ( RecvError ) : :: std :: fmt :: Debug "@
        } else {
            Seq::empty()
        }) + "{ "@
    };
    if a.via_trait {
        emit(out, "impl < R : ");
        emit_string(out, &a.trait_name);
        emit(out, " < :: std :: convert :: Infallible > > ");
        emit_string(out, &a.iface);
        emit(out, " for R { ");
        let ghost h1 = "impl < R : "@ + a.trait_name@;
        let ghost h2 = h1 + " < :: std :: convert :: Infallible > > "@;
        let ghost h3 = h2 + a.iface@;
        proof {
            vstd::seq_lib::lemma_concat_associative(o, "impl < R : "@, a.trait_name@);
            vstd::seq_lib::lemma_concat_associative(
                o,
                h1,
                " < :: std :: convert :: Infallible > > "@,
            );
            vstd::seq_lib::lemma_concat_associative(o, h2, a.iface@);
            vstd::seq_lib::lemma_concat_associative(o, h3, " for R { "@);
            assert(out@ == o + head);
        }
    } else {
        emit(out, "impl < E , F : ");
        render_fn_bound(out, a.level, enum_name);
        emit(out, "> ");
        emit_string(out, &a.iface);
        emit(out, " for ");
        emit_string(out, &a.proxy_name);
        emit(out, " < E , F > where E : :: std :: fmt :: Debug ");
        let ghost h1 = "impl < E , F : "@ + spec_render_fn_bound(a.level, enum_name@);
        let ghost h2 = h1 + "> "@;
        let ghost h3 = h2 + a.iface@;
        let ghost h4 = h3 + " for "@;
        let ghost h5 = h4 + a.proxy_name@;
        let ghost h6 = h5 + " < E , F > where E : :: std :: fmt :: Debug "@;
        proof {
            vstd::seq_lib::lemma_concat_associative(
                o,
                "impl < E , F : "@,
                spec_render_fn_bound(a.level, enum_name@),
            );
            vstd::seq_lib::lemma_concat_associative(o, h1, "> "@);
            vstd::seq_lib::lemma_concat_associative(o, h2, a.iface@);
            vstd::seq_lib::lemma_concat_associative(o, h3, " for "@);
            vstd::seq_lib::lemma_concat_associative(o, h4, a.proxy_name@);
            vstd::seq_lib::lemma_concat_associative(
                o,
                h5,
                " < E , F > where E : :: std :: fmt :: Debug "@,
            );
            assert(out@ == o + h6);
        }
        let ghost bound_piece = if a.recv_error_bound {
            ", "@ + class.unwrap()@ + " ! ( RecvError ) : :: std :: fmt :: Debug "@
        } else {
            Seq::<char>::empty()
        };
        if a.recv_error_bound {
            emit(out, ", ");
            match class {
                Some(cl) => emit_string(out, cl),
                None => {
                    proof {
                        assert(false);
                    }
                },
            }
            emit(out, " ! ( RecvError ) : :: std :: fmt :: Debug ");
            proof {
                vstd::seq_lib::lemma_concat_associative(o + h6, ", "@, class.unwrap()@);
                vstd::seq_lib::lemma_concat_associative(
                    o + h6,
                    ", "@ + class.unwrap()@,
                    " ! ( RecvError ) : :: std :: fmt :: Debug "@,
                );
                vstd::seq_lib::lemma_concat_associative(o, h6, bound_piece);
                assert(out@ == o + (h6 + bound_piece));
            }
        } else {
            proof {
                assert(h6 + bound_piece =~= h6);
                assert(out@ == o + (h6 + bound_piece));
            }
        }
        let ghost h7 = h6 + bound_piece;
        emit(out, "{ ");
        proof {
            vstd::seq_lib::lemma_concat_associative(o, h7, "{ "@);
            assert(out@ == o + head);
        }
    }
    let caller = if a.via_trait {
        "R"
    } else {
        a.trait_name.as_str()
    };
    let n = a.methods.len();
    let mut i: usize = 0;
    while i < n
        invariant
            n == a.methods@.len(),
            0 <= i <= n,
            caller@ == spec_adapter_caller(*a),
            out@ == o + head + spec_render_adapter_methods(
                a.methods@.take(i as int),
                spec_adapter_caller(*a),
            ),
        decreases n - i,
    {
        render_adapter_method(out, &a.methods[i], caller);
        proof {
            let ms = a.methods@;
            let prefix = spec_render_adapter_methods(ms.take(i as int), spec_adapter_caller(*a));
            let piece = spec_render_adapter_method(ms[i as int], spec_adapter_caller(*a));
            assert(ms.take(i + 1 as int) =~= ms.take(i as int).push(ms[i as int]));
            assert(ms.take(i + 1 as int).drop_last() =~= ms.take(i as int));
            vstd::seq_lib::lemma_concat_associative(o + head, prefix, piece);
            assert(out@ == o + head + spec_render_adapter_methods(
                ms.take(i + 1 as int),
                spec_adapter_caller(*a),
            ));
        }
        i += 1;
    }
    let ghost ms_all = spec_render_adapter_methods(a.methods@, spec_adapter_caller(*a));
    emit(out, "} ");
    proof {
        assert(a.methods@.take(n as int) =~= a.methods@);
        vstd::seq_lib::lemma_concat_associative(o, head, ms_all);
        vstd::seq_lib::lemma_concat_associative(o, head + ms_all, "} "@);
        assert(out@ == o + spec_render_adapter(*a, enum_name@, *class));
    }
}


/// Relies on `String`'s `FromIterator` over characters: collecting yields a
/// string of exactly the given characters.
#[verifier::external_body]
pub fn chars_to_string(v: &Vec<char>) -> (r: String)
    ensures
        r@ == v@,
{
    v.iter().collect()
}

/// The text of everything one proxy request generated: the mirror trait,
/// the proxy, then the requested adapter impls.
pub open spec fn spec_render_bundle(
    b: crate::expand::ProxyBundle,
    enum_name: Seq<char>,
    class: Option<String>,
) -> Seq<char> {
    spec_render_resultified_trait(b.resultified) + spec_render_proxy(b.proxy) + (
    match b.infallible_impl {
        Some(a) => spec_render_adapter(a, enum_name, class),
        None => Seq::empty(),
    }) + (match b.unwrapping_impl {
        Some(a) => spec_render_adapter(a, enum_name, class),
        None => Seq::empty(),
    })
}

/// The text of a whole expansion: the command enum, the dispatchers in
/// by-value, unique-reference, shared-reference order, then each proxy
/// family in shared-reference, unique-reference, by-value order.
pub open spec fn spec_render_expansion(e: crate::expand::Expansion) -> Seq<char> {
    let enum_name = e.command_enum.name@;
    let class = e.input.params.returnval;
    spec_render_enum(e.command_enum) + (match e.call_once_fn {
        Some(f) => spec_render_call_fn(f),
        None => Seq::empty(),
    }) + (match e.call_mut_fn {
        Some(f) => spec_render_call_fn(f),
        None => Seq::empty(),
    }) + (match e.call_ref_fn {
        Some(f) => spec_render_call_fn(f),
        None => Seq::empty(),
    }) + (match e.ref_proxy {
        Some(b) => spec_render_bundle(b, enum_name, class),
        None => Seq::empty(),
    }) + (match e.mut_proxy {
        Some(b) => spec_render_bundle(b, enum_name, class),
        None => Seq::empty(),
    }) + (match e.once_proxy {
        Some(b) => spec_render_bundle(b, enum_name, class),
        None => Seq::empty(),
    })
}

/// What rendering needs of an expansion: every reply-routing artifact has
/// its channel class at hand.
pub open spec fn bundle_renderable(b: crate::expand::ProxyBundle, class: Option<String>) -> bool {
    &&& proxy_methods_need_class(b.proxy)
    &&& (match b.infallible_impl {
        Some(a) => a.recv_error_bound ==> class is Some,
        None => true,
    })
    &&& (match b.unwrapping_impl {
        Some(a) => a.recv_error_bound ==> class is Some,
        None => true,
    })
}

pub open spec fn expansion_renderable(e: crate::expand::Expansion) -> bool {
    &&& (match e.call_once_fn {
        Some(f) => arms_need_class(f.arms@, f.returnval),
        None => true,
    })
    &&& (match e.call_mut_fn {
        Some(f) => arms_need_class(f.arms@, f.returnval),
        None => true,
    })
    &&& (match e.call_ref_fn {
        Some(f) => arms_need_class(f.arms@, f.returnval),
        None => true,
    })
    &&& (match e.ref_proxy {
        Some(b) => bundle_renderable(b, e.input.params.returnval),
        None => true,
    })
    &&& (match e.mut_proxy {
        Some(b) => bundle_renderable(b, e.input.params.returnval),
        None => true,
    })
    &&& (match e.once_proxy {
        Some(b) => bundle_renderable(b, e.input.params.returnval),
        None => true,
    })
}

/// Renders one proxy family.
pub fn render_bundle(
    out: &mut Vec<char>,
    b: &crate::expand::ProxyBundle,
    enum_name: &String,
    class: &Option<String>,
)
    requires
        bundle_renderable(*b, *class),
    ensures
        final(out)@ == old(out)@ + spec_render_bundle(*b, enum_name@, *class),
{
    let ghost o = old(out)@;
    render_resultified_trait(out, &b.resultified);
    render_proxy(out, &b.proxy);
    let ghost c1 = spec_render_resultified_trait(b.resultified);
    let ghost c2 = c1 + spec_render_proxy(b.proxy);
    proof {
        vstd::seq_lib::lemma_concat_associative(o, c1, spec_render_proxy(b.proxy));
        assert(out@ == o + c2);
    }
    let ghost inf_piece = match &b.infallible_impl {
        Some(a) => spec_render_adapter(*a, enum_name@, *class),
        None => Seq::<char>::empty(),
    };
    match &b.infallible_impl {
        Some(a) => {
            render_adapter(out, a, enum_name, class);
            proof {
                vstd::seq_lib::lemma_concat_associative(o, c2, inf_piece);
                assert(out@ == o + (c2 + inf_piece));
            }
        },
        None => {
            proof {
                assert(c2 + inf_piece =~= c2);
                assert(out@ == o + (c2 + inf_piece));
            }
        },
    }
    let ghost c3 = c2 + inf_piece;
    let ghost unw_piece = match &b.unwrapping_impl {
        Some(a) => spec_render_adapter(*a, enum_name@, *class),
        None => Seq::<char>::empty(),
    };
    match &b.unwrapping_impl {
        Some(a) => {
            render_adapter(out, a, enum_name, class);
            proof {
                vstd::seq_lib::lemma_concat_associative(o, c3, unw_piece);
                assert(out@ == o + (c3 + unw_piece));
            }
        },
        None => {
            proof {
                assert(c3 + unw_piece =~= c3);
                assert(out@ == o + (c3 + unw_piece));
            }
        },
    }
    proof {
        assert(out@ == o + spec_render_bundle(*b, enum_name@, *class));
    }
}

/// Renders a whole expansion into one source-text fragment.
pub fn render_expansion(e: &crate::expand::Expansion) -> (r: String)
    requires
        expansion_renderable(*e),
    ensures
        r@ == spec_render_expansion(*e),
{
    let mut out: Vec<char> = Vec::new();
    let ghost o = out@;
    render_enum(&mut out, &e.command_enum);
    let ghost c1 = spec_render_enum(e.command_enum);
    proof {
        assert(o =~= Seq::<char>::empty());
        assert(out@ =~= o + c1);
    }
    let ghost p_once = match &e.call_once_fn {
        Some(f) => spec_render_call_fn(*f),
        None => Seq::<char>::empty(),
    };
    match &e.call_once_fn {
        Some(f) => {
            render_call_fn(&mut out, f);
            proof {
                vstd::seq_lib::lemma_concat_associative(o, c1, p_once);
                assert(out@ == o + (c1 + p_once));
            }
        },
        None => {
            proof {
                assert(c1 + p_once =~= c1);
                assert(out@ == o + (c1 + p_once));
            }
        },
    }
    let ghost c2 = c1 + p_once;
    let ghost p_mut = match &e.call_mut_fn {
        Some(f) => spec_render_call_fn(*f),
        None => Seq::<char>::empty(),
    };
    match &e.call_mut_fn {
        Some(f) => {
            render_call_fn(&mut out, f);
            proof {
                vstd::seq_lib::lemma_concat_associative(o, c2, p_mut);
                assert(out@ == o + (c2 + p_mut));
            }
        },
        None => {
            proof {
                assert(c2 + p_mut =~= c2);
                assert(out@ == o + (c2 + p_mut));
            }
        },
    }
    let ghost c3 = c2 + p_mut;
    let ghost p_ref = match &e.call_ref_fn {
        Some(f) => spec_render_call_fn(*f),
        None => Seq::<char>::empty(),
    };
    match &e.call_ref_fn {
        Some(f) => {
            render_call_fn(&mut out, f);
            proof {
                vstd::seq_lib::lemma_concat_associative(o, c3, p_ref);
                assert(out@ == o + (c3 + p_ref));
            }
        },
        None => {
            proof {
                assert(c3 + p_ref =~= c3);
                assert(out@ == o + (c3 + p_ref));
            }
        },
    }
    let ghost c4 = c3 + p_ref;
    let ghost b_ref = match &e.ref_proxy {
        Some(b) => spec_render_bundle(*b, e.command_enum.name@, e.input.params.returnval),
        None => Seq::<char>::empty(),
    };
    match &e.ref_proxy {
        Some(b) => {
            render_bundle(&mut out, b, &e.command_enum.name, &e.input.params.returnval);
            proof {
                vstd::seq_lib::lemma_concat_associative(o, c4, b_ref);
                assert(out@ == o + (c4 + b_ref));
            }
        },
        None => {
            proof {
                assert(c4 + b_ref =~= c4);
                assert(out@ == o + (c4 + b_ref));
            }
        },
    }
    let ghost c5 = c4 + b_ref;
    let ghost b_mut = match &e.mut_proxy {
        Some(b) => spec_render_bundle(*b, e.command_enum.name@, e.input.params.returnval),
        None => Seq::<char>::empty(),
    };
    match &e.mut_proxy {
        Some(b) => {
            render_bundle(&mut out, b, &e.command_enum.name, &e.input.params.returnval);
            proof {
                vstd::seq_lib::lemma_concat_associative(o, c5, b_mut);
                assert(out@ == o + (c5 + b_mut));
            }
        },
        None => {
            proof {
                assert(c5 + b_mut =~= c5);
                assert(out@ == o + (c5 + b_mut));
            }
        },
    }
    let ghost c6 = c5 + b_mut;
    let ghost b_once = match &e.once_proxy {
        Some(b) => spec_render_bundle(*b, e.command_enum.name@, e.input.params.returnval),
        None => Seq::<char>::empty(),
    };
    match &e.once_proxy {
        Some(b) => {
            render_bundle(&mut out, b, &e.command_enum.name, &e.input.params.returnval);
            proof {
                vstd::seq_lib::lemma_concat_associative(o, c6, b_once);
                assert(out@ == o + (c6 + b_once));
            }
        },
        None => {
            proof {
                assert(c6 + b_once =~= c6);
                assert(out@ == o + (c6 + b_once));
            }
        },
    }
    proof {
        assert(o + (c6 + b_once) =~= c6 + b_once);
        assert(out@ == spec_render_expansion(*e));
    }
    chars_to_string(&out)
}

/// Everything a successful expansion built is renderable: its reply-routing
/// artifacts exist only under a configured channel class.
pub proof fn lemma_expansion_renderable(e: crate::expand::Expansion)
    requires
        crate::expand::expansion_matches(e),
    ensures
        expansion_renderable(e),
{
    lemma_call_fn_renderable(e, e.call_once_fn);
    lemma_call_fn_renderable(e, e.call_mut_fn);
    lemma_call_fn_renderable(e, e.call_ref_fn);
    lemma_bundle_renderable(e, e.ref_proxy);
    lemma_bundle_renderable(e, e.mut_proxy);
    lemma_bundle_renderable(e, e.once_proxy);
}

proof fn lemma_call_fn_renderable(e: crate::expand::Expansion, f: Option<CallFnDef>)
    requires
        crate::model::wf_input(e.input@),
        match f {
            Some(cf) => exists|cfv: crate::model::CallFnParamsV|
                crate::expand::call_fn_matches(e.input, cfv, cf),
            None => true,
        },
    ensures
        match f {
            Some(cf) => arms_need_class(cf.arms@, cf.returnval),
            None => true,
        },
{
    match f {
        Some(cf) => {
            let cfv = choose|cfv: crate::model::CallFnParamsV|
                crate::expand::call_fn_matches(e.input, cfv, cf);
            assert forall|i: int|
                0 <= i < cf.arms@.len() && (#[trigger] cf.arms@[i].action)
                    is CallSendReply implies cf.returnval is Some by {
                let m = e.input.methods@[i];
                assert(crate::generate::call_arm_matches(
                    m,
                    cf.arms@[i],
                    cfv.level,
                    e.input.params.returnval,
                    e.input.name@,
                ));
                if crate::model::spec_can_call(cfv.level, m.receiver_style) {
                    assert(m.ret is Some);
                    assert(e.input@.methods[i].ret is Some);
                    assert(e.input.params.returnval is Some);
                }
            }
        },
        None => {},
    }
}

proof fn lemma_bundle_renderable(
    e: crate::expand::Expansion,
    b: Option<crate::expand::ProxyBundle>,
)
    requires
        crate::model::wf_input(e.input@),
        match b {
            Some(bb) => exists|gv: crate::model::GenProxyParamsV|
                crate::expand::bundle_matches(e.input, gv, bb),
            None => true,
        },
    ensures
        match b {
            Some(bb) => bundle_renderable(bb, e.input.params.returnval),
            None => true,
        },
{
    match b {
        Some(bb) => {
            let gv = choose|gv: crate::model::GenProxyParamsV|
                crate::expand::bundle_matches(e.input, gv, bb);
            assert forall|i: int|
                0 <= i < bb.proxy.methods@.len() && (#[trigger] bb.proxy.methods@[i].body)
                    is WithChannel implies bb.proxy.returnval is Some by {
                let m = e.input.methods@[i];
                assert(crate::generate::proxy_method_matches(m, bb.proxy.methods@[i]));
                assert(m.ret is Some);
                assert(e.input@.methods[i].ret is Some);
                assert(e.input.params.returnval is Some);
            }
            match bb.infallible_impl {
                Some(a) => {
                    assert(!a.recv_error_bound);
                },
                None => {},
            }
            match bb.unwrapping_impl {
                Some(a) => {
                    assert(a.recv_error_bound == (e.input.params.returnval is Some));
                },
                None => {},
            }
        },
        None => {},
    }
}

} // verus!
