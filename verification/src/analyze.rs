//! The interface analyzer: validates a raw definition and extracts the
//! interface model, returning the definition with consumed attributes
//! stripped for pass-through.

use crate::model::Argument;
use crate::model::ArgumentV;
use crate::model::InputData;
use crate::model::InputDataV;
use crate::model::Method;
use crate::model::MethodV;
use crate::model::Params;
use crate::model::ReceiverStyle;
use crate::model::duplicate_opt_ty;
use crate::model::wf_input;
use crate::raw::RawAttr;
use crate::raw::RawAttrV;
use crate::raw::RawFnArg;
use crate::raw::RawFnArgV;
use crate::raw::RawImpl;
use crate::raw::RawImplItem;
use crate::raw::RawImplItemV;
use crate::raw::RawImplV;
use crate::raw::RawMethod;
use crate::raw::RawMethodV;
use crate::raw::RawPat;
use crate::raw::RawPatV;
use crate::raw::RawSelfTy;
use crate::raw::RawSignature;
use crate::raw::RawSignatureV;
use crate::raw::RawTrait;
use crate::raw::RawTraitItem;
use crate::raw::RawTraitItemV;
use crate::raw::RawTraitV;
use crate::raw::RawTypedArg;
use crate::raw::RawTypedArgV;
use crate::strutil::str_eq;
use crate::tokens::Tok;
use crate::tokens::TokV;
use vstd::prelude::*;

verus! {

/// A malformed interface definition, with the offending method's name where
/// one is at fault.
#[derive(Debug)]
pub enum DefError {
    UnsupportedConst(String),
    UnsupportedUnsafe(String),
    UnsupportedAbi(String),
    UnsupportedGenerics(String),
    UnsupportedVariadic(String),
    ReturnValueNotEnabled(String),
    BadAttrShape(String),
    ToOwnedWithArgs(String),
    RefArgBinding(String),
    ReservedRetName(String),
    PatternArg(String),
    ExplicitLifetime(String),
    NoReceiver(String),
    AssocConstUnsupported,
    AssocTypeUnsupported,
    MacroInTrait,
    DefaultImplUnsupported,
    UnsafeImplUnsupported,
    GenericsImplUnsupported,
    WhereClauseUnsupported,
    TraitImplUnsupported,
    QualifiedSelfTy,
    MultiSegmentSelfTy,
    NonPathSelfTy,
    DefaultMethodUnsupported(String),
}

/// Mathematical shape of a definition error.
pub enum DefErrorV {
    UnsupportedConst(Seq<char>),
    UnsupportedUnsafe(Seq<char>),
    UnsupportedAbi(Seq<char>),
    UnsupportedGenerics(Seq<char>),
    UnsupportedVariadic(Seq<char>),
    ReturnValueNotEnabled(Seq<char>),
    BadAttrShape(Seq<char>),
    ToOwnedWithArgs(Seq<char>),
    RefArgBinding(Seq<char>),
    ReservedRetName(Seq<char>),
    PatternArg(Seq<char>),
    ExplicitLifetime(Seq<char>),
    NoReceiver(Seq<char>),
    AssocConstUnsupported,
    AssocTypeUnsupported,
    MacroInTrait,
    DefaultImplUnsupported,
    UnsafeImplUnsupported,
    GenericsImplUnsupported,
    WhereClauseUnsupported,
    TraitImplUnsupported,
    QualifiedSelfTy,
    MultiSegmentSelfTy,
    NonPathSelfTy,
    DefaultMethodUnsupported(Seq<char>),
}

impl View for DefError {
    type V = DefErrorV;

    open spec fn view(&self) -> DefErrorV {
        match self {
            DefError::UnsupportedConst(s) => DefErrorV::UnsupportedConst(s@),
            DefError::UnsupportedUnsafe(s) => DefErrorV::UnsupportedUnsafe(s@),
            DefError::UnsupportedAbi(s) => DefErrorV::UnsupportedAbi(s@),
            DefError::UnsupportedGenerics(s) => DefErrorV::UnsupportedGenerics(s@),
            DefError::UnsupportedVariadic(s) => DefErrorV::UnsupportedVariadic(s@),
            DefError::ReturnValueNotEnabled(s) => DefErrorV::ReturnValueNotEnabled(s@),
            DefError::BadAttrShape(s) => DefErrorV::BadAttrShape(s@),
            DefError::ToOwnedWithArgs(s) => DefErrorV::ToOwnedWithArgs(s@),
            DefError::RefArgBinding(s) => DefErrorV::RefArgBinding(s@),
            DefError::ReservedRetName(s) => DefErrorV::ReservedRetName(s@),
            DefError::PatternArg(s) => DefErrorV::PatternArg(s@),
            DefError::ExplicitLifetime(s) => DefErrorV::ExplicitLifetime(s@),
            DefError::NoReceiver(s) => DefErrorV::NoReceiver(s@),
            DefError::AssocConstUnsupported => DefErrorV::AssocConstUnsupported,
            DefError::AssocTypeUnsupported => DefErrorV::AssocTypeUnsupported,
            DefError::MacroInTrait => DefErrorV::MacroInTrait,
            DefError::DefaultImplUnsupported => DefErrorV::DefaultImplUnsupported,
            DefError::UnsafeImplUnsupported => DefErrorV::UnsafeImplUnsupported,
            DefError::GenericsImplUnsupported => DefErrorV::GenericsImplUnsupported,
            DefError::WhereClauseUnsupported => DefErrorV::WhereClauseUnsupported,
            DefError::TraitImplUnsupported => DefErrorV::TraitImplUnsupported,
            DefError::QualifiedSelfTy => DefErrorV::QualifiedSelfTy,
            DefError::MultiSegmentSelfTy => DefErrorV::MultiSegmentSelfTy,
            DefError::NonPathSelfTy => DefErrorV::NonPathSelfTy,
            DefError::DefaultMethodUnsupported(s) => DefErrorV::DefaultMethodUnsupported(s@),
        }
    }
}

/// One step of the scan over a method's own attributes: the two custom
/// markers are consumed into the model, everything else is retained for
/// pass-through.
pub open spec fn spec_scan_method_attrs(
    attrs: Seq<RawAttrV>,
    i: int,
    method: Seq<char>,
    retained: Seq<RawAttrV>,
    enum_attr: Seq<TokV>,
    return_attr: Seq<TokV>,
) -> Result<(Seq<RawAttrV>, Seq<TokV>, Seq<TokV>), DefErrorV>
    decreases attrs.len() - i,
{
    if i < 0 || i >= attrs.len() {
        Ok((retained, enum_attr, return_attr))
    } else {
        let a = attrs[i];
        match a.path_ident {
            Some(p) => if p == "enumizer_enum_attr"@ || p == "enumizer_return_attr"@ {
                if a.tokens.len() > 0 && (a.tokens[0] is Group) {
                    if p == "enumizer_enum_attr"@ {
                        spec_scan_method_attrs(
                            attrs,
                            i + 1,
                            method,
                            retained,
                            enum_attr.push(a.tokens[0]),
                            return_attr,
                        )
                    } else {
                        spec_scan_method_attrs(
                            attrs,
                            i + 1,
                            method,
                            retained,
                            enum_attr,
                            return_attr.push(a.tokens[0]),
                        )
                    }
                } else {
                    Err(DefErrorV::BadAttrShape(method))
                }
            } else {
                spec_scan_method_attrs(attrs, i + 1, method, retained.push(a), enum_attr, return_attr)
            },
            None => spec_scan_method_attrs(
                attrs,
                i + 1,
                method,
                retained.push(a),
                enum_attr,
                return_attr,
            ),
        }
    }
}

/// One step of the scan over an argument's attributes: the custom field
/// marker and the ownership-conversion marker are consumed, everything else
/// is retained.
pub open spec fn spec_scan_arg_attrs(
    attrs: Seq<RawAttrV>,
    i: int,
    method: Seq<char>,
    retained: Seq<RawAttrV>,
    enum_attr: Seq<TokV>,
    to_owned: bool,
) -> Result<(Seq<RawAttrV>, Seq<TokV>, bool), DefErrorV>
    decreases attrs.len() - i,
{
    if i < 0 || i >= attrs.len() {
        Ok((retained, enum_attr, to_owned))
    } else {
        let a = attrs[i];
        match a.path_ident {
            Some(p) => if p == "enumizer_enum_attr"@ {
                if a.tokens.len() > 0 && (a.tokens[0] is Group) {
                    spec_scan_arg_attrs(
                        attrs,
                        i + 1,
                        method,
                        retained,
                        enum_attr.push(a.tokens[0]),
                        to_owned,
                    )
                } else {
                    Err(DefErrorV::BadAttrShape(method))
                }
            } else if p == "enumizer_to_owned"@ {
                if a.tokens.len() == 0 {
                    spec_scan_arg_attrs(attrs, i + 1, method, retained, enum_attr, true)
                } else {
                    Err(DefErrorV::ToOwnedWithArgs(method))
                }
            } else {
                spec_scan_arg_attrs(attrs, i + 1, method, retained.push(a), enum_attr, to_owned)
            },
            None => spec_scan_arg_attrs(attrs, i + 1, method, retained.push(a), enum_attr, to_owned),
        }
    }
}

/// One step of the scan over a method's parameters: classifies the receiver,
/// collects the typed arguments, and rebuilds the stripped parameter list.
pub open spec fn spec_scan_inputs(
    inputs: Seq<RawFnArgV>,
    i: int,
    returnval_mode: bool,
    method: Seq<char>,
    args: Seq<ArgumentV>,
    rstyle: Option<ReceiverStyle>,
    stripped: Seq<RawFnArgV>,
) -> Result<(Seq<ArgumentV>, Option<ReceiverStyle>, Seq<RawFnArgV>), DefErrorV>
    decreases inputs.len() - i,
{
    if i < 0 || i >= inputs.len() {
        Ok((args, rstyle, stripped))
    } else {
        match inputs[i] {
            RawFnArgV::Receiver(r) => if r.reference && r.lifetime {
                Err(DefErrorV::ExplicitLifetime(method))
            } else {
                let st = if r.reference {
                    if r.mutability {
                        ReceiverStyle::Mut
                    } else {
                        ReceiverStyle::Ref
                    }
                } else {
                    ReceiverStyle::Move
                };
                spec_scan_inputs(
                    inputs,
                    i + 1,
                    returnval_mode,
                    method,
                    args,
                    Some(st),
                    stripped.push(inputs[i]),
                )
            },
            RawFnArgV::Typed(arg) => match spec_scan_arg_attrs(
                arg.attrs,
                0,
                method,
                Seq::empty(),
                Seq::empty(),
                false,
            ) {
                Err(e) => Err(e),
                Ok((kept, ea, to)) => match arg.pat {
                    RawPatV::Ident { by_ref, name } => if by_ref {
                        Err(DefErrorV::RefArgBinding(method))
                    } else if returnval_mode && name == "ret"@ {
                        Err(DefErrorV::ReservedRetName(method))
                    } else {
                        spec_scan_inputs(
                            inputs,
                            i + 1,
                            returnval_mode,
                            method,
                            args.push(ArgumentV { name, ty: arg.ty, enum_attr: ea, to_owned: to }),
                            rstyle,
                            stripped.push(
                                RawFnArgV::Typed(
                                    RawTypedArgV { attrs: kept, pat: arg.pat, ty: arg.ty },
                                ),
                            ),
                        )
                    },
                    RawPatV::Other => Err(DefErrorV::PatternArg(method)),
                },
            },
        }
    }
}

/// What the analyzer makes of one declared method: the extracted model
/// method, and the declaration with consumed attributes stripped.
pub open spec fn spec_parse_method(m: RawMethodV, returnval_mode: bool) -> Result<
    (MethodV, RawMethodV),
    DefErrorV,
> {
    if m.sig.constness {
        Err(DefErrorV::UnsupportedConst(m.sig.name))
    } else if m.sig.unsafety {
        Err(DefErrorV::UnsupportedUnsafe(m.sig.name))
    } else if m.sig.abi {
        Err(DefErrorV::UnsupportedAbi(m.sig.name))
    } else if m.sig.generics {
        Err(DefErrorV::UnsupportedGenerics(m.sig.name))
    } else if m.sig.variadic {
        Err(DefErrorV::UnsupportedVariadic(m.sig.name))
    } else if !returnval_mode && m.sig.output is Some {
        Err(DefErrorV::ReturnValueNotEnabled(m.sig.name))
    } else {
        match spec_scan_method_attrs(m.attrs, 0, m.sig.name, Seq::empty(), Seq::empty(), Seq::empty()) {
            Err(e) => Err(e),
            Ok((retained, ea, ra)) => match spec_scan_inputs(
                m.sig.inputs,
                0,
                returnval_mode,
                m.sig.name,
                Seq::empty(),
                None,
                Seq::empty(),
            ) {
                Err(e) => Err(e),
                Ok((args, rstyle, stripped_inputs)) => match rstyle {
                    None => Err(DefErrorV::NoReceiver(m.sig.name)),
                    Some(rs) => Ok(
                        (
                            MethodV {
                                name: m.sig.name,
                                receiver_style: rs,
                                args,
                                ret: m.sig.output,
                                enum_attr: ea,
                                return_attr: ra,
                                is_async: m.sig.asyncness,
                            },
                            RawMethodV {
                                attrs: retained,
                                sig: RawSignatureV { inputs: stripped_inputs, ..m.sig },
                                defaultness: m.defaultness,
                            },
                        ),
                    ),
                },
            },
        }
    }
}

/// One step of the scan over a trait block's items.
pub open spec fn spec_scan_trait_items(
    items: Seq<RawTraitItemV>,
    i: int,
    returnval_mode: bool,
    methods: Seq<MethodV>,
    stripped: Seq<RawTraitItemV>,
) -> Result<(Seq<MethodV>, Seq<RawTraitItemV>), DefErrorV>
    decreases items.len() - i,
{
    if i < 0 || i >= items.len() {
        Ok((methods, stripped))
    } else {
        match items[i] {
            RawTraitItemV::Method(m) => match spec_parse_method(m, returnval_mode) {
                Err(e) => Err(e),
                Ok((mv, sm)) => spec_scan_trait_items(
                    items,
                    i + 1,
                    returnval_mode,
                    methods.push(mv),
                    stripped.push(RawTraitItemV::Method(sm)),
                ),
            },
            RawTraitItemV::AssocConst => Err(DefErrorV::AssocConstUnsupported),
            RawTraitItemV::AssocType => Err(DefErrorV::AssocTypeUnsupported),
            RawTraitItemV::MacroCall => Err(DefErrorV::MacroInTrait),
            RawTraitItemV::Other => spec_scan_trait_items(
                items,
                i + 1,
                returnval_mode,
                methods,
                stripped.push(items[i]),
            ),
        }
    }
}

/// What the analyzer makes of an abstract trait block.
pub open spec fn spec_parse_trait(t: RawTraitV, params: crate::model::ParamsV) -> Result<
    (InputDataV, RawTraitV),
    DefErrorV,
> {
    match spec_scan_trait_items(t.items, 0, params.returnval is Some, Seq::empty(), Seq::empty()) {
        Err(e) => Err(e),
        Ok((ms, stripped)) => Ok(
            (
                InputDataV { name: t.name, methods: ms, params },
                RawTraitV { name: t.name, items: stripped },
            ),
        ),
    }
}

/// One step of the scan over a method block's items.
pub open spec fn spec_scan_impl_items(
    items: Seq<RawImplItemV>,
    i: int,
    returnval_mode: bool,
    methods: Seq<MethodV>,
    stripped: Seq<RawImplItemV>,
) -> Result<(Seq<MethodV>, Seq<RawImplItemV>), DefErrorV>
    decreases items.len() - i,
{
    if i < 0 || i >= items.len() {
        Ok((methods, stripped))
    } else {
        match items[i] {
            RawImplItemV::Method(m) => if m.defaultness {
                Err(DefErrorV::DefaultMethodUnsupported(m.sig.name))
            } else {
                match spec_parse_method(m, returnval_mode) {
                    Err(e) => Err(e),
                    Ok((mv, sm)) => spec_scan_impl_items(
                        items,
                        i + 1,
                        returnval_mode,
                        methods.push(mv),
                        stripped.push(RawImplItemV::Method(sm)),
                    ),
                }
            },
            RawImplItemV::Other => spec_scan_impl_items(
                items,
                i + 1,
                returnval_mode,
                methods,
                stripped.push(items[i]),
            ),
        }
    }
}

/// What the analyzer makes of a concrete type's method block.
pub open spec fn spec_parse_inherent_impl(im: RawImplV, params: crate::model::ParamsV) -> Result<
    (InputDataV, RawImplV),
    DefErrorV,
> {
    if im.defaultness {
        Err(DefErrorV::DefaultImplUnsupported)
    } else if im.unsafety {
        Err(DefErrorV::UnsafeImplUnsupported)
    } else if im.generics {
        Err(DefErrorV::GenericsImplUnsupported)
    } else if im.where_clause {
        Err(DefErrorV::WhereClauseUnsupported)
    } else if im.trait_impl {
        Err(DefErrorV::TraitImplUnsupported)
    } else {
        match im.self_ty {
            crate::raw::RawSelfTyV::Qualified => Err(DefErrorV::QualifiedSelfTy),
            crate::raw::RawSelfTyV::MultiSegmentPath => Err(DefErrorV::MultiSegmentSelfTy),
            crate::raw::RawSelfTyV::NotPath => Err(DefErrorV::NonPathSelfTy),
            crate::raw::RawSelfTyV::Ident(name) => match spec_scan_impl_items(
                im.items,
                0,
                params.returnval is Some,
                Seq::empty(),
                Seq::empty(),
            ) {
                Err(e) => Err(e),
                Ok((ms, stripped)) => Ok(
                    (
                        InputDataV { name, methods: ms, params },
                        RawImplV { items: stripped, ..im },
                    ),
                ),
            },
        }
    }
}

/// Every method a successful analysis accepts respects the return-channel
/// precondition, so the result is well-formed.
pub proof fn lemma_parse_method_wf(m: RawMethodV, returnval_mode: bool)
    ensures
        match spec_parse_method(m, returnval_mode) {
            Ok((mv, _sm)) => mv.ret is Some ==> returnval_mode,
            Err(_e) => true,
        },
{
}

pub proof fn lemma_scan_trait_items_wf(
    items: Seq<RawTraitItemV>,
    i: int,
    returnval_mode: bool,
    methods: Seq<MethodV>,
    stripped: Seq<RawTraitItemV>,
)
    requires
        forall|k: int|
            0 <= k < methods.len() && #[trigger] methods[k].ret is Some ==> returnval_mode,
    ensures
        match spec_scan_trait_items(items, i, returnval_mode, methods, stripped) {
            Ok((ms, _s)) => forall|k: int|
                0 <= k < ms.len() && #[trigger] ms[k].ret is Some ==> returnval_mode,
            Err(_e) => true,
        },
    decreases items.len() - i,
{
    if 0 <= i < items.len() {
        match items[i] {
            RawTraitItemV::Method(m) => {
                lemma_parse_method_wf(m, returnval_mode);
                match spec_parse_method(m, returnval_mode) {
                    Ok((mv, sm)) => {
                        lemma_scan_trait_items_wf(
                            items,
                            i + 1,
                            returnval_mode,
                            methods.push(mv),
                            stripped.push(RawTraitItemV::Method(sm)),
                        );
                    },
                    Err(_e) => {},
                }
            },
            RawTraitItemV::Other => {
                lemma_scan_trait_items_wf(
                    items,
                    i + 1,
                    returnval_mode,
                    methods,
                    stripped.push(items[i]),
                );
            },
            _ => {},
        }
    }
}

pub proof fn lemma_scan_impl_items_wf(
    items: Seq<RawImplItemV>,
    i: int,
    returnval_mode: bool,
    methods: Seq<MethodV>,
    stripped: Seq<RawImplItemV>,
)
    requires
        forall|k: int|
            0 <= k < methods.len() && #[trigger] methods[k].ret is Some ==> returnval_mode,
    ensures
        match spec_scan_impl_items(items, i, returnval_mode, methods, stripped) {
            Ok((ms, _s)) => forall|k: int|
                0 <= k < ms.len() && #[trigger] ms[k].ret is Some ==> returnval_mode,
            Err(_e) => true,
        },
    decreases items.len() - i,
{
    if 0 <= i < items.len() {
        match items[i] {
            RawImplItemV::Method(m) => {
                if !m.defaultness {
                    lemma_parse_method_wf(m, returnval_mode);
                    match spec_parse_method(m, returnval_mode) {
                        Ok((mv, sm)) => {
                            lemma_scan_impl_items_wf(
                                items,
                                i + 1,
                                returnval_mode,
                                methods.push(mv),
                                stripped.push(RawImplItemV::Method(sm)),
                            );
                        },
                        Err(_e) => {},
                    }
                }
            },
            RawImplItemV::Other => {
                lemma_scan_impl_items_wf(
                    items,
                    i + 1,
                    returnval_mode,
                    methods,
                    stripped.push(items[i]),
                );
            },
        }
    }
}

pub open spec fn ma_result_view(r: Result<(Vec<RawAttr>, Vec<Tok>, Vec<Tok>), DefError>) -> Result<
    (Seq<RawAttrV>, Seq<TokV>, Seq<TokV>),
    DefErrorV,
> {
    match r {
        Ok((kept, ea, ra)) => Ok((kept.deep_view(), ea.deep_view(), ra.deep_view())),
        Err(e) => Err(e@),
    }
}

pub open spec fn aa_result_view(r: Result<(Vec<RawAttr>, Vec<Tok>, bool), DefError>) -> Result<
    (Seq<RawAttrV>, Seq<TokV>, bool),
    DefErrorV,
> {
    match r {
        Ok((kept, ea, to)) => Ok((kept.deep_view(), ea.deep_view(), to)),
        Err(e) => Err(e@),
    }
}

pub open spec fn pm_result_view(r: Result<(Method, RawMethod), DefError>) -> Result<
    (MethodV, RawMethodV),
    DefErrorV,
> {
    match r {
        Ok((m, s)) => Ok((m@, s@)),
        Err(e) => Err(e@),
    }
}

pub open spec fn pt_result_view(r: Result<(InputData, RawTrait), DefError>) -> Result<
    (InputDataV, RawTraitV),
    DefErrorV,
> {
    match r {
        Ok((d, s)) => Ok((d@, s@)),
        Err(e) => Err(e@),
    }
}

pub open spec fn pi_result_view(r: Result<(InputData, RawImpl), DefError>) -> Result<
    (InputDataV, RawImplV),
    DefErrorV,
> {
    match r {
        Ok((d, s)) => Ok((d@, s@)),
        Err(e) => Err(e@),
    }
}

fn scan_method_attrs(attrs: &Vec<RawAttr>, method: &String) -> (r: Result<
    (Vec<RawAttr>, Vec<Tok>, Vec<Tok>),
    DefError,
>)
    ensures
        ma_result_view(r) == spec_scan_method_attrs(
            attrs.deep_view(),
            0,
            method@,
            Seq::empty(),
            Seq::empty(),
            Seq::empty(),
        ),
{
    let mut kept: Vec<RawAttr> = Vec::new();
    let mut ea: Vec<Tok> = Vec::new();
    let mut ra: Vec<Tok> = Vec::new();
    let n = attrs.len();
    let mut i: usize = 0;
    proof {
        assert(kept.deep_view() =~= Seq::<RawAttrV>::empty());
        assert(ea.deep_view() =~= Seq::<TokV>::empty());
        assert(ra.deep_view() =~= Seq::<TokV>::empty());
    }
    while i < n
        invariant
            n == attrs@.len(),
            0 <= i <= n,
            spec_scan_method_attrs(
                attrs.deep_view(),
                i as int,
                method@,
                kept.deep_view(),
                ea.deep_view(),
                ra.deep_view(),
            ) == spec_scan_method_attrs(
                attrs.deep_view(),
                0,
                method@,
                Seq::empty(),
                Seq::empty(),
                Seq::empty(),
            ),
        decreases n - i,
    {
        let ghost pre_kept = kept.deep_view();
        let ghost pre_ea = ea.deep_view();
        let ghost pre_ra = ra.deep_view();
        proof {
            assert(attrs.deep_view()[i as int] == attrs@[i as int]@);
        }
        let a = &attrs[i];
        let mut is_enum_attr = false;
        let mut is_return_attr = false;
        match &a.path_ident {
            Some(p) => {
                if str_eq(p.as_str(), "enumizer_enum_attr") {
                    is_enum_attr = true;
                } else if str_eq(p.as_str(), "enumizer_return_attr") {
                    is_return_attr = true;
                }
            },
            None => {},
        }
        if is_enum_attr || is_return_attr {
            if a.tokens.len() == 0 {
                return Err(DefError::BadAttrShape(method.clone()));
            }
            let ok_group = match &a.tokens[0] {
                Tok::Group(_d, _ts) => true,
                _ => false,
            };
            if !ok_group {
                return Err(DefError::BadAttrShape(method.clone()));
            }
            let g = a.tokens[0].duplicate();
            proof {
                assert(a.tokens.deep_view()[0] == a.tokens@[0]@);
            }
            if is_enum_attr {
                ea.push(g);
                proof {
                    assert(ea.deep_view() =~= pre_ea.push(attrs.deep_view()[i as int].tokens[0]));
                }
            } else {
                ra.push(g);
                proof {
                    assert(ra.deep_view() =~= pre_ra.push(attrs.deep_view()[i as int].tokens[0]));
                }
            }
        } else {
            let copied = a.duplicate();
            kept.push(copied);
            proof {
                assert(kept.deep_view() =~= pre_kept.push(attrs.deep_view()[i as int]));
            }
        }
        i += 1;
    }
    Ok((kept, ea, ra))
}

fn scan_arg_attrs(attrs: &Vec<RawAttr>, method: &String) -> (r: Result<
    (Vec<RawAttr>, Vec<Tok>, bool),
    DefError,
>)
    ensures
        aa_result_view(r) == spec_scan_arg_attrs(
            attrs.deep_view(),
            0,
            method@,
            Seq::empty(),
            Seq::empty(),
            false,
        ),
{
    let mut kept: Vec<RawAttr> = Vec::new();
    let mut ea: Vec<Tok> = Vec::new();
    let mut to_owned = false;
    let n = attrs.len();
    let mut i: usize = 0;
    proof {
        assert(kept.deep_view() =~= Seq::<RawAttrV>::empty());
        assert(ea.deep_view() =~= Seq::<TokV>::empty());
    }
    while i < n
        invariant
            n == attrs@.len(),
            0 <= i <= n,
            spec_scan_arg_attrs(
                attrs.deep_view(),
                i as int,
                method@,
                kept.deep_view(),
                ea.deep_view(),
                to_owned,
            ) == spec_scan_arg_attrs(
                attrs.deep_view(),
                0,
                method@,
                Seq::empty(),
                Seq::empty(),
                false,
            ),
        decreases n - i,
    {
        let ghost pre_kept = kept.deep_view();
        let ghost pre_ea = ea.deep_view();
        proof {
            assert(attrs.deep_view()[i as int] == attrs@[i as int]@);
        }
        let a = &attrs[i];
        let mut is_enum_attr = false;
        let mut is_to_owned = false;
        match &a.path_ident {
            Some(p) => {
                if str_eq(p.as_str(), "enumizer_enum_attr") {
                    is_enum_attr = true;
                } else if str_eq(p.as_str(), "enumizer_to_owned") {
                    is_to_owned = true;
                }
            },
            None => {},
        }
        if is_enum_attr {
            if a.tokens.len() == 0 {
                return Err(DefError::BadAttrShape(method.clone()));
            }
            let ok_group = match &a.tokens[0] {
                Tok::Group(_d, _ts) => true,
                _ => false,
            };
            if !ok_group {
                return Err(DefError::BadAttrShape(method.clone()));
            }
            let g = a.tokens[0].duplicate();
            proof {
                assert(a.tokens.deep_view()[0] == a.tokens@[0]@);
            }
            ea.push(g);
            proof {
                assert(ea.deep_view() =~= pre_ea.push(attrs.deep_view()[i as int].tokens[0]));
            }
        } else if is_to_owned {
            if a.tokens.len() != 0 {
                return Err(DefError::ToOwnedWithArgs(method.clone()));
            }
            to_owned = true;
        } else {
            let copied = a.duplicate();
            kept.push(copied);
            proof {
                assert(kept.deep_view() =~= pre_kept.push(attrs.deep_view()[i as int]));
            }
        }
        i += 1;
    }
    Ok((kept, ea, to_owned))
}

/// Analyzes one declared method into the model, also rebuilding the
/// declaration with the consumed attributes stripped.
#[verifier::loop_isolation(false)]
pub fn parse_method(m: &RawMethod, returnval_mode: bool) -> (r: Result<
    (Method, RawMethod),
    DefError,
>)
    ensures
        pm_result_view(r) == spec_parse_method(m@, returnval_mode),
{
    if m.sig.constness {
        return Err(DefError::UnsupportedConst(m.sig.name.clone()));
    }
    if m.sig.unsafety {
        return Err(DefError::UnsupportedUnsafe(m.sig.name.clone()));
    }
    if m.sig.abi {
        return Err(DefError::UnsupportedAbi(m.sig.name.clone()));
    }
    if m.sig.generics {
        return Err(DefError::UnsupportedGenerics(m.sig.name.clone()));
    }
    if m.sig.variadic {
        return Err(DefError::UnsupportedVariadic(m.sig.name.clone()));
    }
    if !returnval_mode && m.sig.output.is_some() {
        return Err(DefError::ReturnValueNotEnabled(m.sig.name.clone()));
    }
    let (retained, ea, ra) = match scan_method_attrs(&m.attrs, &m.sig.name) {
        Ok(t) => t,
        Err(e) => {
            return Err(e);
        },
    };
    let mut args: Vec<Argument> = Vec::new();
    let mut rstyle: Option<ReceiverStyle> = None;
    let mut stripped_inputs: Vec<RawFnArg> = Vec::new();
    let n = m.sig.inputs.len();
    let mut i: usize = 0;
    proof {
        assert(args.deep_view() =~= Seq::<ArgumentV>::empty());
        assert(stripped_inputs.deep_view() =~= Seq::<RawFnArgV>::empty());
    }
    while i < n
        invariant
            n == m.sig.inputs@.len(),
            0 <= i <= n,
            spec_scan_inputs(
                m.sig.inputs.deep_view(),
                i as int,
                returnval_mode,
                m.sig.name@,
                args.deep_view(),
                rstyle,
                stripped_inputs.deep_view(),
            ) == spec_scan_inputs(
                m.sig.inputs.deep_view(),
                0,
                returnval_mode,
                m.sig.name@,
                Seq::empty(),
                None,
                Seq::empty(),
            ),
        decreases n - i,
    {
        let ghost pre_args = args.deep_view();
        let ghost pre_rstyle = rstyle;
        let ghost pre_stripped = stripped_inputs.deep_view();
        proof {
            assert(m.sig.inputs.deep_view()[i as int] == m.sig.inputs@[i as int]@);
        }
        match &m.sig.inputs[i] {
            RawFnArg::Receiver(rcv) => {
                if rcv.reference && rcv.lifetime {
                    return Err(DefError::ExplicitLifetime(m.sig.name.clone()));
                }
                let st = if rcv.reference {
                    if rcv.mutability {
                        ReceiverStyle::Mut
                    } else {
                        ReceiverStyle::Ref
                    }
                } else {
                    ReceiverStyle::Move
                };
                rstyle = Some(st);
                stripped_inputs.push(RawFnArg::Receiver(*rcv));
                proof {
                    assert(stripped_inputs.deep_view() =~= pre_stripped.push(
                        m.sig.inputs.deep_view()[i as int],
                    ));
                }
            },
            RawFnArg::Typed(arg) => {
                let (kept, aea, to) = match scan_arg_attrs(&arg.attrs, &m.sig.name) {
                    Ok(t) => t,
                    Err(e) => {
                        return Err(e);
                    },
                };
                match &arg.pat {
                    RawPat::Ident { by_ref, name } => {
                        if *by_ref {
                            return Err(DefError::RefArgBinding(m.sig.name.clone()));
                        }
                        if returnval_mode && str_eq(name.as_str(), "ret") {
                            return Err(DefError::ReservedRetName(m.sig.name.clone()));
                        }
                        let ghost aeav = aea.deep_view();
                        let ghost keptv = kept.deep_view();
                        args.push(
                            Argument {
                                name: name.clone(),
                                ty: arg.ty.duplicate(),
                                enum_attr: aea,
                                to_owned: to,
                            },
                        );
                        stripped_inputs.push(
                            RawFnArg::Typed(
                                RawTypedArg {
                                    attrs: kept,
                                    pat: RawPat::Ident { by_ref: *by_ref, name: name.clone() },
                                    ty: arg.ty.duplicate(),
                                },
                            ),
                        );
                        proof {
                            assert(args.deep_view() =~= pre_args.push(
                                ArgumentV {
                                    name: name@,
                                    ty: arg.ty@,
                                    enum_attr: aeav,
                                    to_owned: to,
                                },
                            ));
                            assert(arg.pat@ == (RawPatV::Ident { by_ref: *by_ref, name: name@ }));
                            assert(stripped_inputs.deep_view() =~= pre_stripped.push(
                                RawFnArgV::Typed(
                                    RawTypedArgV { attrs: keptv, pat: arg.pat@, ty: arg.ty@ },
                                ),
                            ));
                        }
                    },
                    RawPat::Other => {
                        return Err(DefError::PatternArg(m.sig.name.clone()));
                    },
                }
            },
        }
        i += 1;
    }
    let rs = match rstyle {
        Some(rs) => rs,
        None => {
            return Err(DefError::NoReceiver(m.sig.name.clone()));
        },
    };
    let method = Method {
        name: m.sig.name.clone(),
        receiver_style: rs,
        args,
        ret: duplicate_opt_ty(&m.sig.output),
        enum_attr: ea,
        return_attr: ra,
        is_async: m.sig.asyncness,
    };
    let stripped = RawMethod {
        attrs: retained,
        sig: RawSignature {
            name: m.sig.name.clone(),
            constness: m.sig.constness,
            asyncness: m.sig.asyncness,
            unsafety: m.sig.unsafety,
            abi: m.sig.abi,
            generics: m.sig.generics,
            variadic: m.sig.variadic,
            inputs: stripped_inputs,
            output: duplicate_opt_ty(&m.sig.output),
        },
        defaultness: m.defaultness,
    };
    Ok((method, stripped))
}

impl InputData {
    /// Analyzes an abstract trait block into the interface model, also
    /// returning the block with consumed attributes stripped.
    #[verifier::loop_isolation(false)]
    pub fn parse_trait(item: &RawTrait, params: Params) -> (r: Result<
        (InputData, RawTrait),
        DefError,
    >)
        ensures
            pt_result_view(r) == spec_parse_trait(item@, params@),
            match r {
                Ok((d, _s)) => wf_input(d@),
                Err(_e) => true,
            },
    {
        let returnval_mode = params.returnval.is_some();
        let mut methods: Vec<Method> = Vec::new();
        let mut stripped: Vec<RawTraitItem> = Vec::new();
        let n = item.items.len();
        let mut i: usize = 0;
        proof {
            assert(methods.deep_view() =~= Seq::<MethodV>::empty());
            assert(stripped.deep_view() =~= Seq::<RawTraitItemV>::empty());
        }
        while i < n
            invariant
                n == item.items@.len(),
                returnval_mode == (params.returnval is Some),
                0 <= i <= n,
                spec_scan_trait_items(
                    item.items.deep_view(),
                    i as int,
                    returnval_mode,
                    methods.deep_view(),
                    stripped.deep_view(),
                ) == spec_scan_trait_items(
                    item.items.deep_view(),
                    0,
                    returnval_mode,
                    Seq::empty(),
                    Seq::empty(),
                ),
            decreases n - i,
        {
            let ghost pre_methods = methods.deep_view();
            let ghost pre_stripped = stripped.deep_view();
            proof {
                assert(item.items.deep_view()[i as int] == item.items@[i as int]@);
            }
            match &item.items[i] {
                RawTraitItem::Method(m) => {
                    match parse_method(m, returnval_mode) {
                        Ok((mv, sm)) => {
                            let ghost mvv = mv@;
                            let ghost smv = sm@;
                            methods.push(mv);
                            stripped.push(RawTraitItem::Method(sm));
                            proof {
                                assert(methods.deep_view() =~= pre_methods.push(mvv));
                                assert(stripped.deep_view() =~= pre_stripped.push(
                                    RawTraitItemV::Method(smv),
                                ));
                            }
                        },
                        Err(e) => {
                            return Err(e);
                        },
                    }
                },
                RawTraitItem::AssocConst => {
                    return Err(DefError::AssocConstUnsupported);
                },
                RawTraitItem::AssocType => {
                    return Err(DefError::AssocTypeUnsupported);
                },
                RawTraitItem::MacroCall => {
                    return Err(DefError::MacroInTrait);
                },
                RawTraitItem::Other => {
                    stripped.push(RawTraitItem::Other);
                    proof {
                        assert(stripped.deep_view() =~= pre_stripped.push(
                            item.items.deep_view()[i as int],
                        ));
                    }
                },
            }
            i += 1;
        }
        proof {
            lemma_scan_trait_items_wf(
                item.items.deep_view(),
                0,
                returnval_mode,
                Seq::empty(),
                Seq::empty(),
            );
        }
        let d = InputData { name: item.name.clone(), methods, params };
        let s = RawTrait { name: item.name.clone(), items: stripped };
        Ok((d, s))
    }

    /// Analyzes a concrete type's method block into the interface model,
    /// also returning the block with consumed attributes stripped.
    #[verifier::loop_isolation(false)]
    pub fn parse_inherent_impl(item: &RawImpl, params: Params) -> (r: Result<
        (InputData, RawImpl),
        DefError,
    >)
        ensures
            pi_result_view(r) == spec_parse_inherent_impl(item@, params@),
            match r {
                Ok((d, _s)) => wf_input(d@),
                Err(_e) => true,
            },
    {
        if item.defaultness {
            return Err(DefError::DefaultImplUnsupported);
        }
        if item.unsafety {
            return Err(DefError::UnsafeImplUnsupported);
        }
        if item.generics {
            return Err(DefError::GenericsImplUnsupported);
        }
        if item.where_clause {
            return Err(DefError::WhereClauseUnsupported);
        }
        if item.trait_impl {
            return Err(DefError::TraitImplUnsupported);
        }
        let name: &String = match &item.self_ty {
            RawSelfTy::Qualified => {
                return Err(DefError::QualifiedSelfTy);
            },
            RawSelfTy::MultiSegmentPath => {
                return Err(DefError::MultiSegmentSelfTy);
            },
            RawSelfTy::NotPath => {
                return Err(DefError::NonPathSelfTy);
            },
            RawSelfTy::Ident(n) => n,
        };
        let returnval_mode = params.returnval.is_some();
        let mut methods: Vec<Method> = Vec::new();
        let mut stripped: Vec<RawImplItem> = Vec::new();
        let n = item.items.len();
        let mut i: usize = 0;
        proof {
            assert(methods.deep_view() =~= Seq::<MethodV>::empty());
            assert(stripped.deep_view() =~= Seq::<RawImplItemV>::empty());
        }
        while i < n
            invariant
                n == item.items@.len(),
                returnval_mode == (params.returnval is Some),
                0 <= i <= n,
                spec_scan_impl_items(
                    item.items.deep_view(),
                    i as int,
                    returnval_mode,
                    methods.deep_view(),
                    stripped.deep_view(),
                ) == spec_scan_impl_items(
                    item.items.deep_view(),
                    0,
                    returnval_mode,
                    Seq::empty(),
                    Seq::empty(),
                ),
            decreases n - i,
        {
            let ghost pre_methods = methods.deep_view();
            let ghost pre_stripped = stripped.deep_view();
            proof {
                assert(item.items.deep_view()[i as int] == item.items@[i as int]@);
            }
            match &item.items[i] {
                RawImplItem::Method(m) => {
                    if m.defaultness {
                        return Err(DefError::DefaultMethodUnsupported(m.sig.name.clone()));
                    }
                    match parse_method(m, returnval_mode) {
                        Ok((mv, sm)) => {
                            let ghost mvv = mv@;
                            let ghost smv = sm@;
                            methods.push(mv);
                            stripped.push(RawImplItem::Method(sm));
                            proof {
                                assert(methods.deep_view() =~= pre_methods.push(mvv));
                                assert(stripped.deep_view() =~= pre_stripped.push(
                                    RawImplItemV::Method(smv),
                                ));
                            }
                        },
                        Err(e) => {
                            return Err(e);
                        },
                    }
                },
                RawImplItem::Other => {
                    stripped.push(RawImplItem::Other);
                    proof {
                        assert(stripped.deep_view() =~= pre_stripped.push(
                            item.items.deep_view()[i as int],
                        ));
                    }
                },
            }
            i += 1;
        }
        proof {
            lemma_scan_impl_items_wf(
                item.items.deep_view(),
                0,
                returnval_mode,
                Seq::empty(),
                Seq::empty(),
            );
        }
        let d = InputData { name: name.clone(), methods, params };
        let s = RawImpl {
            defaultness: item.defaultness,
            unsafety: item.unsafety,
            generics: item.generics,
            where_clause: item.where_clause,
            trait_impl: item.trait_impl,
            self_ty: RawSelfTy::Ident(name.clone()),
            items: stripped,
        };
        Ok((d, s))
    }
}

} // verus!
