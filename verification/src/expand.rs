//! The whole transformation: configuration parsing, interface analysis,
//! convention gating, and every requested generator, in the order the
//! expansion performs them.

use crate::analyze::DefErrorV;
use crate::analyze::spec_parse_inherent_impl;
use crate::analyze::spec_parse_trait;
use crate::generate::AdapterImplDef;
use crate::generate::CallFnDef;
use crate::generate::EnumDef;
use crate::generate::GenError;
use crate::generate::GenErrorV;
use crate::generate::ProxyDef;
use crate::generate::ResultifiedTraitDef;
use crate::generate::call_arm_matches;
use crate::generate::infallible_method_matches;
use crate::generate::opt_toks_view;
use crate::generate::proxy_method_matches;
use crate::generate::rt_method_matches;
use crate::generate::spec_first_enum_violation;
use crate::generate::unwrapping_method_matches;
use crate::generate::variant_matches;
use crate::model::CallFnParamsV;
use crate::model::GenProxyParamsV;
use crate::model::InputData;
use crate::model::InputDataV;
use crate::model::ParamsV;
use crate::model::ReceiverStyle;
use crate::model::lemma_styles_of_view;
use crate::model::spec_call_fn_name;
use crate::model::spec_enum_name;
use crate::model::spec_identpart;
use crate::model::spec_most_inconvenient_for_callee;
use crate::model::spec_most_inconvenient_for_caller;
use crate::model::spec_some_impl_requested_v;
use crate::model::styles_of_v;
use crate::model::wf_input;
use crate::parse_args::ConfigError;
use crate::parse_args::ConfigErrorV;
use crate::parse_args::parse_args;
use crate::parse_args::spec_parse_args;
use crate::raw::RawImpl;
use crate::raw::RawImplV;
use crate::raw::RawTrait;
use crate::raw::RawTraitV;
use crate::tokens::Tok;
use vstd::prelude::*;

verus! {

/// A raw definition handed to the expansion: an abstract trait block or a
/// concrete type's method block.
#[derive(Debug)]
pub enum RawInput {
    Trait(RawTrait),
    Impl(RawImpl),
}

/// Mathematical shape of a raw definition.
pub enum RawInputV {
    Trait(RawTraitV),
    Impl(RawImplV),
}

impl View for RawInput {
    type V = RawInputV;

    open spec fn view(&self) -> RawInputV {
        match self {
            RawInput::Trait(t) => RawInputV::Trait(t@),
            RawInput::Impl(im) => RawInputV::Impl(im@),
        }
    }
}

/// Anything that aborts an expansion: a configuration error, a definition
/// error, a generation error, or a convention-gating rejection.
#[derive(Debug)]
pub enum EnumizerError {
    Config(ConfigError),
    Def(crate::analyze::DefError),
    Gen(GenError),
    InputModeMismatch,
    CallMutWithMoveMethods,
    CallRefWithNonRefMethods,
    ImplIncompatibleWithInherentMode,
    InfallibleWithReturnval,
    MutProxyImplWithRefMethods,
    OnceProxyImplWithNonMoveMethods,
}

/// Mathematical shape of an expansion error.
pub enum EnumizerErrorV {
    Config(ConfigErrorV),
    Def(DefErrorV),
    Gen(GenErrorV),
    InputModeMismatch,
    CallMutWithMoveMethods,
    CallRefWithNonRefMethods,
    ImplIncompatibleWithInherentMode,
    InfallibleWithReturnval,
    MutProxyImplWithRefMethods,
    OnceProxyImplWithNonMoveMethods,
}

impl View for EnumizerError {
    type V = EnumizerErrorV;

    open spec fn view(&self) -> EnumizerErrorV {
        match self {
            EnumizerError::Config(e) => EnumizerErrorV::Config(e@),
            EnumizerError::Def(e) => EnumizerErrorV::Def(e@),
            EnumizerError::Gen(e) => EnumizerErrorV::Gen(e@),
            EnumizerError::InputModeMismatch => EnumizerErrorV::InputModeMismatch,
            EnumizerError::CallMutWithMoveMethods => EnumizerErrorV::CallMutWithMoveMethods,
            EnumizerError::CallRefWithNonRefMethods => EnumizerErrorV::CallRefWithNonRefMethods,
            EnumizerError::ImplIncompatibleWithInherentMode =>
                EnumizerErrorV::ImplIncompatibleWithInherentMode,
            EnumizerError::InfallibleWithReturnval => EnumizerErrorV::InfallibleWithReturnval,
            EnumizerError::MutProxyImplWithRefMethods =>
                EnumizerErrorV::MutProxyImplWithRefMethods,
            EnumizerError::OnceProxyImplWithNonMoveMethods =>
                EnumizerErrorV::OnceProxyImplWithNonMoveMethods,
        }
    }
}

/// Everything generated for one proxy request: the fallible mirror trait,
/// the proxy type, and the requested adapter impls.
#[derive(Debug)]
pub struct ProxyBundle {
    pub resultified: ResultifiedTraitDef,
    pub proxy: ProxyDef,
    pub infallible_impl: Option<AdapterImplDef>,
    pub unwrapping_impl: Option<AdapterImplDef>,
}

/// The whole generated family of one expansion, beside the analyzed model
/// and the pass-through copy of the definition with consumed attributes
/// stripped.
#[derive(Debug)]
pub struct Expansion {
    pub input: InputData,
    pub stripped: RawInput,
    pub command_enum: EnumDef,
    pub call_once_fn: Option<CallFnDef>,
    pub call_mut_fn: Option<CallFnDef>,
    pub call_ref_fn: Option<CallFnDef>,
    pub ref_proxy: Option<ProxyBundle>,
    pub mut_proxy: Option<ProxyBundle>,
    pub once_proxy: Option<ProxyBundle>,
}

/// What the analyzer makes of a raw definition under a configuration.
pub open spec fn spec_analyze(input: RawInputV, p: ParamsV) -> Result<
    (InputDataV, RawInputV),
    DefErrorV,
> {
    match input {
        RawInputV::Trait(t) => match spec_parse_trait(t, p) {
            Ok((d, s)) => Ok((d, RawInputV::Trait(s))),
            Err(e) => Err(e),
        },
        RawInputV::Impl(im) => match spec_parse_inherent_impl(im, p) {
            Ok((d, s)) => Ok((d, RawInputV::Impl(s))),
            Err(e) => Err(e),
        },
    }
}

/// The gating applied to one proxy request, in the order the expansion
/// checks it: adapter impls are incompatible with inherent mode; a unique-
/// reference proxy cannot serve a shared-reference method, and a by-value
/// proxy only a purely by-value interface, unless the caller chose the
/// deliberately relaxed impl kind; the infallible impl is incompatible with
/// a return-value channel.
pub open spec fn proxy_block_gating(
    p: ParamsV,
    g: GenProxyParamsV,
    callee: ReceiverStyle,
    slot: ReceiverStyle,
) -> Option<EnumizerErrorV> {
    if p.inherent_impl_mode && spec_some_impl_requested_v(g) {
        Some(EnumizerErrorV::ImplIncompatibleWithInherentMode)
    } else if slot is Mut && (g.gen_infallible || g.gen_unwrapping) && callee is Ref {
        Some(EnumizerErrorV::MutProxyImplWithRefMethods)
    } else if slot is Move && (g.gen_infallible || g.gen_unwrapping) && !(callee is Move) {
        Some(EnumizerErrorV::OnceProxyImplWithNonMoveMethods)
    } else if g.gen_infallible && p.returnval is Some {
        Some(EnumizerErrorV::InfallibleWithReturnval)
    } else {
        None
    }
}

/// The first rejection the generation stage makes of an analyzed interface,
/// if any, in generation order.
pub open spec fn spec_gating_error(d: InputDataV) -> Option<EnumizerErrorV> {
    let caller = spec_most_inconvenient_for_caller(styles_of_v(d.methods));
    let callee = spec_most_inconvenient_for_callee(styles_of_v(d.methods));
    let p = d.params;
    match spec_first_enum_violation(d.methods, 0) {
        Some(g) => Some(EnumizerErrorV::Gen(g)),
        None => if p.call_mut is Some && caller is Move && !p.call_mut.unwrap().allow_panic {
            Some(EnumizerErrorV::CallMutWithMoveMethods)
        } else if p.call_ref is Some && !(caller is Ref) && !p.call_ref.unwrap().allow_panic {
            Some(EnumizerErrorV::CallRefWithNonRefMethods)
        } else {
            let ref_err = if p.ref_proxy is Some {
                proxy_block_gating(p, p.ref_proxy.unwrap(), callee, ReceiverStyle::Ref)
            } else {
                None
            };
            match ref_err {
                Some(e) => Some(e),
                None => {
                    let mut_err = if p.mut_proxy is Some {
                        proxy_block_gating(p, p.mut_proxy.unwrap(), callee, ReceiverStyle::Mut)
                    } else {
                        None
                    };
                    match mut_err {
                        Some(e) => Some(e),
                        None => if p.once_proxy is Some {
                            proxy_block_gating(p, p.once_proxy.unwrap(), callee, ReceiverStyle::Move)
                        } else {
                            None
                        },
                    }
                },
            }
        },
    }
}

/// Gating rejection: on an interface whose caller-side fold is not
/// shared-reference (some method takes its receiver by value or by unique
/// reference), a shared-reference dispatcher request without the
/// allow-mismatch flag is rejected with exactly that error, and with the
/// flag the request passes this check — its uncallable methods become the
/// dispatcher's unconditional failure arms instead.  The earlier stages
/// (the enum generator and the unique-reference dispatcher check) must not
/// have fired first, since only the first rejection is reported.
pub proof fn lemma_gating_rejection(d: InputDataV)
    requires
        spec_first_enum_violation(d.methods, 0) is None,
        !(d.params.call_mut is Some && spec_most_inconvenient_for_caller(styles_of_v(d.methods))
            is Move && !d.params.call_mut.unwrap().allow_panic),
        d.params.call_ref is Some,
        !(spec_most_inconvenient_for_caller(styles_of_v(d.methods)) is Ref),
    ensures
        !d.params.call_ref.unwrap().allow_panic ==> spec_gating_error(d) == Some(
            EnumizerErrorV::CallRefWithNonRefMethods,
        ),
        d.params.call_ref.unwrap().allow_panic ==> spec_gating_error(d) != Some(
            EnumizerErrorV::CallRefWithNonRefMethods,
        ),
{
}

/// The first error of a whole expansion, if any: configuration parsing,
/// input-mode agreement, interface analysis, then generation gating.
pub open spec fn spec_enumizer_error(attrs: Seq<Tok>, input: RawInputV) -> Option<EnumizerErrorV> {
    match spec_parse_args(attrs) {
        Err(e) => Some(EnumizerErrorV::Config(e)),
        Ok(p) => if p.inherent_impl_mode != (input is Impl) {
            Some(EnumizerErrorV::InputModeMismatch)
        } else {
            match spec_analyze(input, p) {
                Err(e) => Some(EnumizerErrorV::Def(e)),
                Ok((d, _s)) => spec_gating_error(d),
            }
        },
    }
}

/// The name of the fallible mirror trait for one proxy request shape.
pub open spec fn spec_resultified_trait_name_v(inp: InputData, gv: GenProxyParamsV) -> Seq<char> {
    match gv.traitname {
        Some(n) => n,
        None => inp.name@ + "Resultified"@ + spec_identpart(gv.level),
    }
}

/// The name of the proxy type for one proxy request shape.
pub open spec fn spec_proxy_name_v(inp: InputData, gv: GenProxyParamsV) -> Seq<char> {
    match gv.name {
        Some(n) => n,
        None => inp.name@ + "Proxy"@ + spec_identpart(gv.level),
    }
}

/// The command enum captures the analyzed interface.
pub open spec fn enum_def_matches(inp: InputData, e: EnumDef) -> bool {
    &&& e.name@ == spec_enum_name(inp)
    &&& e.access == inp.params.access_mode
    &&& e.attrs.deep_view() == inp.params.enum_attr.deep_view()
    &&& e.variants@.len() == inp.methods@.len()
    &&& forall|i: int|
        0 <= i < inp.methods@.len() ==> variant_matches(
            inp.methods@[i],
            #[trigger] e.variants@[i],
            inp.params.returnval,
        )
}

/// One generated dispatcher captures the analyzed interface and its
/// request.
pub open spec fn call_fn_matches(inp: InputData, cfv: CallFnParamsV, r: CallFnDef) -> bool {
    &&& r.access == inp.params.access_mode
    &&& r.level == cfv.level
    &&& r.name@ == (match cfv.name {
        Some(n) => n,
        None => spec_call_fn_name(cfv.level, inp.params.returnval is Some),
    })
    &&& r.enum_name@ == spec_enum_name(inp)
    &&& r.target@ == inp.name@
    &&& r.inherent == inp.params.inherent_impl_mode
    &&& opt_toks_view(r.extra_arg) == cfv.extra_arg
    &&& r.returnval.deep_view() == inp.params.returnval.deep_view()
    &&& r.arms@.len() == inp.methods@.len()
    &&& forall|i: int|
        0 <= i < inp.methods@.len() ==> call_arm_matches(
            inp.methods@[i],
            #[trigger] r.arms@[i],
            cfv.level,
            inp.params.returnval,
            inp.name@,
        )
}

/// The generated mirror trait captures the analyzed interface and its
/// request.
pub open spec fn rt_def_matches(
    inp: InputData,
    gv: GenProxyParamsV,
    r: ResultifiedTraitDef,
) -> bool {
    &&& r.access == inp.params.access_mode
    &&& r.name@ == spec_resultified_trait_name_v(inp, gv)
    &&& r.methods@.len() == inp.methods@.len()
    &&& forall|i: int|
        0 <= i < inp.methods@.len() ==> rt_method_matches(
            inp.methods@[i],
            #[trigger] r.methods@[i],
            gv.level,
            inp.params.returnval,
        )
}

/// The generated proxy captures the analyzed interface and its request.
pub open spec fn proxy_def_matches(inp: InputData, gv: GenProxyParamsV, r: ProxyDef) -> bool {
    &&& r.access == inp.params.access_mode
    &&& r.name@ == spec_proxy_name_v(inp, gv)
    &&& r.level == gv.level
    &&& r.enum_name@ == spec_enum_name(inp)
    &&& r.trait_name@ == spec_resultified_trait_name_v(inp, gv)
    &&& opt_toks_view(r.extra_field) == gv.extra_arg
    &&& r.returnval.deep_view() == inp.params.returnval.deep_view()
    &&& r.methods@.len() == inp.methods@.len()
    &&& forall|i: int|
        0 <= i < inp.methods@.len() ==> proxy_method_matches(
            inp.methods@[i],
            #[trigger] r.methods@[i],
        )
}

/// The generated infallible adapter impl captures the analyzed interface
/// and its request.
pub open spec fn infallible_impl_matches(
    inp: InputData,
    gv: GenProxyParamsV,
    r: AdapterImplDef,
) -> bool {
    &&& r.iface@ == inp.name@
    &&& r.infallible
    &&& r.via_trait
    &&& r.trait_name@ == spec_resultified_trait_name_v(inp, gv)
    &&& r.proxy_name@ == spec_proxy_name_v(inp, gv)
    &&& r.level == gv.level
    &&& !r.recv_error_bound
    &&& r.methods@.len() == inp.methods@.len()
    &&& forall|i: int|
        0 <= i < inp.methods@.len() ==> infallible_method_matches(
            inp.methods@[i],
            #[trigger] r.methods@[i],
        )
}

/// The generated unwrapping adapter impl captures the analyzed interface
/// and its request.
pub open spec fn unwrapping_impl_matches(
    inp: InputData,
    gv: GenProxyParamsV,
    r: AdapterImplDef,
) -> bool {
    &&& r.iface@ == inp.name@
    &&& !r.infallible
    &&& !r.via_trait
    &&& r.trait_name@ == spec_resultified_trait_name_v(inp, gv)
    &&& r.proxy_name@ == spec_proxy_name_v(inp, gv)
    &&& r.level == gv.level
    &&& r.recv_error_bound == (inp.params.returnval is Some)
    &&& r.methods@.len() == inp.methods@.len()
    &&& forall|i: int|
        0 <= i < inp.methods@.len() ==> unwrapping_method_matches(
            inp.methods@[i],
            #[trigger] r.methods@[i],
            gv.level,
            inp.name@,
            spec_proxy_name_v(inp, gv),
        )
}

/// Everything generated for one proxy request captures its request.
pub open spec fn bundle_matches(inp: InputData, gv: GenProxyParamsV, b: ProxyBundle) -> bool {
    &&& rt_def_matches(inp, gv, b.resultified)
    &&& proxy_def_matches(inp, gv, b.proxy)
    &&& (b.infallible_impl is Some <==> gv.gen_infallible)
    &&& (gv.gen_infallible ==> infallible_impl_matches(inp, gv, b.infallible_impl.unwrap()))
    &&& (b.unwrapping_impl is Some <==> (gv.gen_unwrapping || gv.gen_unwrapping_and_panicking))
    &&& ((gv.gen_unwrapping || gv.gen_unwrapping_and_panicking) ==> unwrapping_impl_matches(
        inp,
        gv,
        b.unwrapping_impl.unwrap(),
    ))
}

/// A successful expansion captures its configuration and interface.
pub open spec fn expansion_matches(exp: Expansion) -> bool {
    let inp = exp.input;
    let p = exp.input@.params;
    &&& wf_input(exp.input@)
    &&& enum_def_matches(inp, exp.command_enum)
    &&& (exp.call_once_fn is Some <==> p.call_once is Some)
    &&& (p.call_once is Some ==> call_fn_matches(inp, p.call_once.unwrap(), exp.call_once_fn.unwrap()))
    &&& (exp.call_mut_fn is Some <==> p.call_mut is Some)
    &&& (p.call_mut is Some ==> call_fn_matches(inp, p.call_mut.unwrap(), exp.call_mut_fn.unwrap()))
    &&& (exp.call_ref_fn is Some <==> p.call_ref is Some)
    &&& (p.call_ref is Some ==> call_fn_matches(inp, p.call_ref.unwrap(), exp.call_ref_fn.unwrap()))
    &&& (exp.ref_proxy is Some <==> p.ref_proxy is Some)
    &&& (p.ref_proxy is Some ==> bundle_matches(inp, p.ref_proxy.unwrap(), exp.ref_proxy.unwrap()))
    &&& (exp.mut_proxy is Some <==> p.mut_proxy is Some)
    &&& (p.mut_proxy is Some ==> bundle_matches(inp, p.mut_proxy.unwrap(), exp.mut_proxy.unwrap()))
    &&& (exp.once_proxy is Some <==> p.once_proxy is Some)
    &&& (p.once_proxy is Some ==> bundle_matches(
        inp,
        p.once_proxy.unwrap(),
        exp.once_proxy.unwrap(),
    ))
}

/// Runs a whole expansion: parses the configuration, analyzes the raw
/// definition, validates every request against the interface's convention
/// folds, and generates the command enum, the dispatchers, and each proxy
/// family.  Fails exactly when one of those stages rejects its input, with
/// that stage's error.
#[verifier::rlimit(100)]
#[verifier::spinoff_prover]
pub fn enumizer(attrs: &Vec<Tok>, input: &RawInput) -> (r: Result<Expansion, EnumizerError>)
    ensures
        match r {
            Ok(exp) => {
                &&& spec_enumizer_error(attrs@, input@) is None
                &&& spec_parse_args(attrs@) == Ok::<ParamsV, ConfigErrorV>(exp.input@.params)
                &&& spec_analyze(input@, exp.input@.params) == Ok::<_, DefErrorV>(
                    (exp.input@, exp.stripped@),
                )
                &&& expansion_matches(exp)
            },
            Err(e) => spec_enumizer_error(attrs@, input@) == Some(e@),
        },
{
    let params = match parse_args(attrs) {
        Ok(p) => p,
        Err(e) => {
            return Err(EnumizerError::Config(e));
        },
    };
    let inherent = params.inherent_impl_mode;
    let (d, stripped): (InputData, RawInput) = if !inherent {
        match input {
            RawInput::Trait(t) => match InputData::parse_trait(t, params) {
                Ok((d0, s0)) => (d0, RawInput::Trait(s0)),
                Err(e) => {
                    return Err(EnumizerError::Def(e));
                },
            },
            RawInput::Impl(_) => {
                return Err(EnumizerError::InputModeMismatch);
            },
        }
    } else {
        match input {
            RawInput::Impl(im) => match InputData::parse_inherent_impl(im, params) {
                Ok((d0, s0)) => (d0, RawInput::Impl(s0)),
                Err(e) => {
                    return Err(EnumizerError::Def(e));
                },
            },
            RawInput::Trait(_) => {
                return Err(EnumizerError::InputModeMismatch);
            },
        }
    };
    proof {
        lemma_styles_of_view(d.methods);
    }
    let command_enum = match d.generate_enum() {
        Ok(e) => e,
        Err(e) => {
            return Err(EnumizerError::Gen(e));
        },
    };
    let caller = d.receiver_style_that_is_the_most_inconvenient_for_caller();
    let call_once_fn = match &d.params.call_once {
        Some(g) => Some(d.generate_call_fn(g)),
        None => None,
    };
    let call_mut_fn = match &d.params.call_mut {
        Some(g) => {
            if caller == ReceiverStyle::Move && !g.allow_panic {
                return Err(EnumizerError::CallMutWithMoveMethods);
            }
            Some(d.generate_call_fn(g))
        },
        None => None,
    };
    let call_ref_fn = match &d.params.call_ref {
        Some(g) => {
            if caller != ReceiverStyle::Ref && !g.allow_panic {
                return Err(EnumizerError::CallRefWithNonRefMethods);
            }
            Some(d.generate_call_fn(g))
        },
        None => None,
    };
    let callee = d.receiver_style_that_is_the_most_inconvenient_for_callee();
    let ref_proxy = match &d.params.ref_proxy {
        Some(g) => {
            let resultified = d.generate_resultified_trait(g);
            let proxy = d.generate_proxy(g);
            if d.params.inherent_impl_mode && g.some_impl_requested() {
                return Err(EnumizerError::ImplIncompatibleWithInherentMode);
            }
            let infallible_impl = if g.gen_infallible {
                if d.params.returnval.is_some() {
                    return Err(EnumizerError::InfallibleWithReturnval);
                }
                Some(d.generate_infallible_impl(g))
            } else {
                None
            };
            let unwrapping_impl = if g.gen_unwrapping || g.gen_unwrapping_and_panicking {
                Some(d.generate_unwrapping_impl(g))
            } else {
                None
            };
            Some(ProxyBundle { resultified, proxy, infallible_impl, unwrapping_impl })
        },
        None => None,
    };
    let mut_proxy = match &d.params.mut_proxy {
        Some(g) => {
            let resultified = d.generate_resultified_trait(g);
            let proxy = d.generate_proxy(g);
            if d.params.inherent_impl_mode && g.some_impl_requested() {
                return Err(EnumizerError::ImplIncompatibleWithInherentMode);
            }
            if (g.gen_infallible || g.gen_unwrapping) && callee == ReceiverStyle::Ref {
                return Err(EnumizerError::MutProxyImplWithRefMethods);
            }
            let infallible_impl = if g.gen_infallible {
                if d.params.returnval.is_some() {
                    return Err(EnumizerError::InfallibleWithReturnval);
                }
                Some(d.generate_infallible_impl(g))
            } else {
                None
            };
            let unwrapping_impl = if g.gen_unwrapping || g.gen_unwrapping_and_panicking {
                Some(d.generate_unwrapping_impl(g))
            } else {
                None
            };
            Some(ProxyBundle { resultified, proxy, infallible_impl, unwrapping_impl })
        },
        None => None,
    };
    let once_proxy = match &d.params.once_proxy {
        Some(g) => {
            let resultified = d.generate_resultified_trait(g);
            let proxy = d.generate_proxy(g);
            if d.params.inherent_impl_mode && g.some_impl_requested() {
                return Err(EnumizerError::ImplIncompatibleWithInherentMode);
            }
            if (g.gen_infallible || g.gen_unwrapping) && callee != ReceiverStyle::Move {
                return Err(EnumizerError::OnceProxyImplWithNonMoveMethods);
            }
            let infallible_impl = if g.gen_infallible {
                if d.params.returnval.is_some() {
                    return Err(EnumizerError::InfallibleWithReturnval);
                }
                Some(d.generate_infallible_impl(g))
            } else {
                None
            };
            let unwrapping_impl = if g.gen_unwrapping || g.gen_unwrapping_and_panicking {
                Some(d.generate_unwrapping_impl(g))
            } else {
                None
            };
            Some(ProxyBundle { resultified, proxy, infallible_impl, unwrapping_impl })
        },
        None => None,
    };
    Ok(
        Expansion {
            input: d,
            stripped,
            command_enum,
            call_once_fn,
            call_mut_fn,
            call_ref_fn,
            ref_proxy,
            mut_proxy,
            once_proxy,
        },
    )
}

} // verus!
