//! The configuration parser: an explicit finite-state machine over a flat
//! token sequence, producing the configuration model.  Giving the same
//! option twice is a fatal configuration error reported with the offending
//! option's name; only the custom-attribute injections form a list and may
//! repeat.

use crate::model::AccessMode;
use crate::model::CallFnParams;
use crate::model::CallFnParamsV;
use crate::model::GenProxyParams;
use crate::model::GenProxyParamsV;
use crate::model::Params;
use crate::model::ParamsV;
use crate::model::ReceiverStyle;
use crate::strutil::str_eq;
use crate::tokens::Tok;
use crate::tokens::tok_view;
use vstd::prelude::*;

verus! {

/// A configuration text the parser rejects, with the offending option name
/// where there is one.
#[derive(Debug)]
pub enum ConfigError {
    UnknownParameter(String),
    DuplicateOption(String),
    UnexpectedGroup,
    UnexpectedPunct,
    UnexpectedLiteral,
    ExpectedIdent,
    ExpectedEqsign,
    ExpectedGroup,
    UnknownSubparameter(String),
    UnexpectedCallFnToken,
    UnexpectedProxyToken,
    MultipleImplKinds,
}

/// Mathematical shape of a configuration error.
pub enum ConfigErrorV {
    UnknownParameter(Seq<char>),
    DuplicateOption(Seq<char>),
    UnexpectedGroup,
    UnexpectedPunct,
    UnexpectedLiteral,
    ExpectedIdent,
    ExpectedEqsign,
    ExpectedGroup,
    UnknownSubparameter(Seq<char>),
    UnexpectedCallFnToken,
    UnexpectedProxyToken,
    MultipleImplKinds,
}

impl View for ConfigError {
    type V = ConfigErrorV;

    open spec fn view(&self) -> ConfigErrorV {
        match self {
            ConfigError::UnknownParameter(s) => ConfigErrorV::UnknownParameter(s@),
            ConfigError::DuplicateOption(s) => ConfigErrorV::DuplicateOption(s@),
            ConfigError::UnexpectedGroup => ConfigErrorV::UnexpectedGroup,
            ConfigError::UnexpectedPunct => ConfigErrorV::UnexpectedPunct,
            ConfigError::UnexpectedLiteral => ConfigErrorV::UnexpectedLiteral,
            ConfigError::ExpectedIdent => ConfigErrorV::ExpectedIdent,
            ConfigError::ExpectedEqsign => ConfigErrorV::ExpectedEqsign,
            ConfigError::ExpectedGroup => ConfigErrorV::ExpectedGroup,
            ConfigError::UnknownSubparameter(s) => ConfigErrorV::UnknownSubparameter(s@),
            ConfigError::UnexpectedCallFnToken => ConfigErrorV::UnexpectedCallFnToken,
            ConfigError::UnexpectedProxyToken => ConfigErrorV::UnexpectedProxyToken,
            ConfigError::MultipleImplKinds => ConfigErrorV::MultipleImplKinds,
        }
    }
}

/// Which root-level option an upcoming identifier fills.
#[derive(Clone, Copy, Debug)]
pub enum RootIdentTarget {
    Returnval,
    Name,
}

/// Which root-level option an upcoming group fills.  A dispatcher or proxy
/// request carries the receiver convention its keyword selected.
#[derive(Clone, Copy, Debug)]
pub enum RootGroupTarget {
    CallFn(ReceiverStyle),
    CustomAttr,
    Proxy(ReceiverStyle),
}

/// The root parser's state.
#[derive(Clone, Copy, Debug)]
pub enum ArgsState {
    ExpectingNewParam,
    ExpectingIdent(RootIdentTarget),
    ExpectingEqsign(RootIdentTarget),
    ExpectingGroup(RootGroupTarget),
}

/// Which root-level options were already given.
#[derive(Clone, Copy, Debug)]
pub struct RootSeen {
    pub access: bool,
    pub returnval: bool,
    pub call_ref: bool,
    pub call_mut: bool,
    pub call_once: bool,
    pub ref_proxy: bool,
    pub mut_proxy: bool,
    pub once_proxy: bool,
    pub enum_name: bool,
    pub inherent_impl: bool,
}

pub open spec fn no_root_seen() -> RootSeen {
    RootSeen {
        access: false,
        returnval: false,
        call_ref: false,
        call_mut: false,
        call_once: false,
        ref_proxy: false,
        mut_proxy: false,
        once_proxy: false,
        enum_name: false,
        inherent_impl: false,
    }
}

/// Which dispatcher sub-option an upcoming identifier fills.
#[derive(Clone, Copy, Debug)]
pub enum CallFnIdentTarget {
    Name,
}

/// Which dispatcher sub-option an upcoming group fills.
#[derive(Clone, Copy, Debug)]
pub enum CallFnGroupTarget {
    ExtraArgType,
}

/// The dispatcher-request sub-parser's state.
#[derive(Clone, Copy, Debug)]
pub enum CallFnState {
    ExpectingNewParam,
    ExpectingIdent(CallFnIdentTarget),
    ExpectingEqsign(CallFnIdentTarget),
    ExpectingGroup(CallFnGroupTarget),
}

/// Which dispatcher sub-options were already given.  The two panic-mode
/// keywords set the one allow-mismatch option, so a second of either is a
/// duplicate.
#[derive(Clone, Copy, Debug)]
pub struct CallFnSeen {
    pub panic_mode: bool,
    pub extra_arg: bool,
    pub name: bool,
}

pub open spec fn no_call_fn_seen() -> CallFnSeen {
    CallFnSeen { panic_mode: false, extra_arg: false, name: false }
}

/// Which proxy sub-option an upcoming identifier fills.
#[derive(Clone, Copy, Debug)]
pub enum ProxyIdentTarget {
    Name,
    TraitName,
}

/// Which proxy sub-option an upcoming group fills.
#[derive(Clone, Copy, Debug)]
pub enum ProxyGroupTarget {
    ExtraFieldType,
}

/// The proxy-request sub-parser's state.
#[derive(Clone, Copy, Debug)]
pub enum ProxyState {
    ExpectingNewParam,
    ExpectingIdent(ProxyIdentTarget),
    ExpectingEqsign(ProxyIdentTarget),
    ExpectingGroup(ProxyGroupTarget),
}

/// Which proxy sub-options were already given.  The three adapter-impl
/// kinds are distinct options: repeating one is a duplicate, mixing two is
/// the separate incompatibility error.
#[derive(Clone, Copy, Debug)]
pub struct ProxySeen {
    pub infallible: bool,
    pub unwrapping: bool,
    pub unwrapping_and_panicking: bool,
    pub extra_field: bool,
    pub name: bool,
    pub traitname: bool,
}

pub open spec fn no_proxy_seen() -> ProxySeen {
    ProxySeen {
        infallible: false,
        unwrapping: false,
        unwrapping_and_panicking: false,
        extra_field: false,
        name: false,
        traitname: false,
    }
}

pub open spec fn empty_call_fn(level: ReceiverStyle) -> CallFnParamsV {
    CallFnParamsV { level, allow_panic: false, extra_arg: None, name: None }
}

/// One transition of the dispatcher-request sub-parser, then the rest.
pub open spec fn spec_call_fn_step(
    acc: CallFnParamsV,
    seen: CallFnSeen,
    st: CallFnState,
    toks: Seq<Tok>,
    i: int,
) -> Result<CallFnParamsV, ConfigErrorV>
    decreases toks.len() - i,
{
    if i < 0 || i >= toks.len() {
        Ok(acc)
    } else {
        match st {
            CallFnState::ExpectingNewParam => match toks[i] {
                Tok::Ident(y) => if y@ == "allow_panic"@ {
                    if seen.panic_mode {
                        Err(ConfigErrorV::DuplicateOption(y@))
                    } else {
                        spec_call_fn_step(
                            CallFnParamsV { allow_panic: true, ..acc },
                            CallFnSeen { panic_mode: true, ..seen },
                            st,
                            toks,
                            i + 1,
                        )
                    }
                } else if y@ == "deny_panic"@ {
                    if seen.panic_mode {
                        Err(ConfigErrorV::DuplicateOption(y@))
                    } else {
                        spec_call_fn_step(
                            CallFnParamsV { allow_panic: false, ..acc },
                            CallFnSeen { panic_mode: true, ..seen },
                            st,
                            toks,
                            i + 1,
                        )
                    }
                } else if y@ == "extra_arg_type"@ {
                    if seen.extra_arg {
                        Err(ConfigErrorV::DuplicateOption(y@))
                    } else {
                        spec_call_fn_step(
                            acc,
                            CallFnSeen { extra_arg: true, ..seen },
                            CallFnState::ExpectingGroup(CallFnGroupTarget::ExtraArgType),
                            toks,
                            i + 1,
                        )
                    }
                } else if y@ == "name"@ {
                    if seen.name {
                        Err(ConfigErrorV::DuplicateOption(y@))
                    } else {
                        spec_call_fn_step(
                            acc,
                            CallFnSeen { name: true, ..seen },
                            CallFnState::ExpectingEqsign(CallFnIdentTarget::Name),
                            toks,
                            i + 1,
                        )
                    }
                } else {
                    Err(ConfigErrorV::UnknownSubparameter(y@))
                },
                Tok::Punct(c) => if c == ',' {
                    spec_call_fn_step(acc, seen, st, toks, i + 1)
                } else {
                    Err(ConfigErrorV::UnexpectedCallFnToken)
                },
                _ => Err(ConfigErrorV::UnexpectedCallFnToken),
            },
            CallFnState::ExpectingIdent(t) => match toks[i] {
                Tok::Ident(y) => match t {
                    CallFnIdentTarget::Name => spec_call_fn_step(
                        CallFnParamsV { name: Some(y@), ..acc },
                        seen,
                        CallFnState::ExpectingNewParam,
                        toks,
                        i + 1,
                    ),
                },
                _ => Err(ConfigErrorV::ExpectedIdent),
            },
            CallFnState::ExpectingEqsign(t) => match toks[i] {
                Tok::Punct(c) => if c == '=' {
                    spec_call_fn_step(acc, seen, CallFnState::ExpectingIdent(t), toks, i + 1)
                } else {
                    Err(ConfigErrorV::ExpectedEqsign)
                },
                _ => Err(ConfigErrorV::ExpectedEqsign),
            },
            CallFnState::ExpectingGroup(t) => match toks[i] {
                Tok::Group(_d, ts) => match t {
                    CallFnGroupTarget::ExtraArgType => spec_call_fn_step(
                        CallFnParamsV { extra_arg: Some(ts.deep_view()), ..acc },
                        seen,
                        CallFnState::ExpectingNewParam,
                        toks,
                        i + 1,
                    ),
                },
                _ => Err(ConfigErrorV::ExpectedGroup),
            },
        }
    }
}

/// What the dispatcher-request sub-parser makes of a token sequence.
pub open spec fn spec_parse_call_fn(toks: Seq<Tok>, level: ReceiverStyle) -> Result<
    CallFnParamsV,
    ConfigErrorV,
> {
    spec_call_fn_step(
        empty_call_fn(level),
        no_call_fn_seen(),
        CallFnState::ExpectingNewParam,
        toks,
        0,
    )
}

pub open spec fn cf_result_view(r: Result<CallFnParams, ConfigError>) -> Result<
    CallFnParamsV,
    ConfigErrorV,
> {
    match r {
        Ok(p) => Ok(p@),
        Err(e) => Err(e@),
    }
}

/// Parses the sub-options of one dispatcher request.
#[verifier::rlimit(100)]
pub fn parse_call_fn(input: &Vec<Tok>, level: ReceiverStyle) -> (r: Result<
    CallFnParams,
    ConfigError,
>)
    ensures
        cf_result_view(r) == spec_parse_call_fn(input@, level),
{
    let mut acc = CallFnParams { level, allow_panic: false, extra_arg: None, name: None };
    let mut seen = CallFnSeen { panic_mode: false, extra_arg: false, name: false };
    let mut st = CallFnState::ExpectingNewParam;
    let n = input.len();
    let mut i: usize = 0;
    while i < n
        invariant
            n == input@.len(),
            0 <= i <= n,
            spec_call_fn_step(acc@, seen, st, input@, i as int) == spec_parse_call_fn(
                input@,
                level,
            ),
        decreases n - i,
    {
        let ghost pre_acc = acc@;
        let ghost pre_seen = seen;
        let ghost pre_st = st;
        match (st, &input[i]) {
            (CallFnState::ExpectingNewParam, Tok::Ident(y)) => {
                if str_eq(y.as_str(), "allow_panic") {
                    if seen.panic_mode {
                        return Err(ConfigError::DuplicateOption(y.clone()));
                    }
                    acc.allow_panic = true;
                    seen.panic_mode = true;
                } else if str_eq(y.as_str(), "deny_panic") {
                    if seen.panic_mode {
                        return Err(ConfigError::DuplicateOption(y.clone()));
                    }
                    acc.allow_panic = false;
                    seen.panic_mode = true;
                } else if str_eq(y.as_str(), "extra_arg_type") {
                    if seen.extra_arg {
                        return Err(ConfigError::DuplicateOption(y.clone()));
                    }
                    seen.extra_arg = true;
                    st = CallFnState::ExpectingGroup(CallFnGroupTarget::ExtraArgType);
                } else if str_eq(y.as_str(), "name") {
                    if seen.name {
                        return Err(ConfigError::DuplicateOption(y.clone()));
                    }
                    seen.name = true;
                    st = CallFnState::ExpectingEqsign(CallFnIdentTarget::Name);
                } else {
                    return Err(ConfigError::UnknownSubparameter(y.clone()));
                }
            },
            (CallFnState::ExpectingNewParam, Tok::Punct(c)) => {
                if *c != ',' {
                    return Err(ConfigError::UnexpectedCallFnToken);
                }
            },
            (CallFnState::ExpectingNewParam, _) => {
                return Err(ConfigError::UnexpectedCallFnToken);
            },
            (CallFnState::ExpectingIdent(t), Tok::Ident(y)) => {
                match t {
                    CallFnIdentTarget::Name => {
                        acc.name = Some(y.clone());
                    },
                }
                st = CallFnState::ExpectingNewParam;
            },
            (CallFnState::ExpectingIdent(_t), _) => {
                return Err(ConfigError::ExpectedIdent);
            },
            (CallFnState::ExpectingEqsign(t), Tok::Punct(c)) => {
                if *c == '=' {
                    st = CallFnState::ExpectingIdent(t);
                } else {
                    return Err(ConfigError::ExpectedEqsign);
                }
            },
            (CallFnState::ExpectingEqsign(_t), _) => {
                return Err(ConfigError::ExpectedEqsign);
            },
            (CallFnState::ExpectingGroup(t), Tok::Group(_d, ts)) => {
                match t {
                    CallFnGroupTarget::ExtraArgType => {
                        acc.extra_arg = Some(crate::tokens::duplicate_toks(ts));
                    },
                }
                st = CallFnState::ExpectingNewParam;
            },
            (CallFnState::ExpectingGroup(_t), _) => {
                return Err(ConfigError::ExpectedGroup);
            },
        }
        proof {
            assert(spec_call_fn_step(pre_acc, pre_seen, pre_st, input@, i as int)
                == spec_call_fn_step(acc@, seen, st, input@, i + 1 as int));
        }
        i += 1;
    }
    Ok(acc)
}

pub open spec fn empty_proxy(level: ReceiverStyle) -> GenProxyParamsV {
    GenProxyParamsV {
        level,
        gen_infallible: false,
        gen_unwrapping: false,
        gen_unwrapping_and_panicking: false,
        extra_arg: None,
        name: None,
        traitname: None,
    }
}

/// One transition of the proxy-request sub-parser, then the rest.
pub open spec fn spec_proxy_step(
    acc: GenProxyParamsV,
    seen: ProxySeen,
    st: ProxyState,
    toks: Seq<Tok>,
    i: int,
) -> Result<GenProxyParamsV, ConfigErrorV>
    decreases toks.len() - i,
{
    if i < 0 || i >= toks.len() {
        Ok(acc)
    } else {
        match st {
            ProxyState::ExpectingNewParam => match toks[i] {
                Tok::Ident(y) => if y@ == "infallible_impl"@ {
                    if seen.infallible {
                        Err(ConfigErrorV::DuplicateOption(y@))
                    } else {
                        spec_proxy_step(
                            GenProxyParamsV { gen_infallible: true, ..acc },
                            ProxySeen { infallible: true, ..seen },
                            st,
                            toks,
                            i + 1,
                        )
                    }
                } else if y@ == "unwrapping_impl"@ {
                    if seen.unwrapping {
                        Err(ConfigErrorV::DuplicateOption(y@))
                    } else {
                        spec_proxy_step(
                            GenProxyParamsV { gen_unwrapping: true, ..acc },
                            ProxySeen { unwrapping: true, ..seen },
                            st,
                            toks,
                            i + 1,
                        )
                    }
                } else if y@ == "unwrapping_and_panicking_impl"@ {
                    if seen.unwrapping_and_panicking {
                        Err(ConfigErrorV::DuplicateOption(y@))
                    } else {
                        spec_proxy_step(
                            GenProxyParamsV { gen_unwrapping_and_panicking: true, ..acc },
                            ProxySeen { unwrapping_and_panicking: true, ..seen },
                            st,
                            toks,
                            i + 1,
                        )
                    }
                } else if y@ == "extra_field_type"@ {
                    if seen.extra_field {
                        Err(ConfigErrorV::DuplicateOption(y@))
                    } else {
                        spec_proxy_step(
                            acc,
                            ProxySeen { extra_field: true, ..seen },
                            ProxyState::ExpectingGroup(ProxyGroupTarget::ExtraFieldType),
                            toks,
                            i + 1,
                        )
                    }
                } else if y@ == "name"@ {
                    if seen.name {
                        Err(ConfigErrorV::DuplicateOption(y@))
                    } else {
                        spec_proxy_step(
                            acc,
                            ProxySeen { name: true, ..seen },
                            ProxyState::ExpectingEqsign(ProxyIdentTarget::Name),
                            toks,
                            i + 1,
                        )
                    }
                } else if y@ == "traitname"@ {
                    if seen.traitname {
                        Err(ConfigErrorV::DuplicateOption(y@))
                    } else {
                        spec_proxy_step(
                            acc,
                            ProxySeen { traitname: true, ..seen },
                            ProxyState::ExpectingEqsign(ProxyIdentTarget::TraitName),
                            toks,
                            i + 1,
                        )
                    }
                } else {
                    Err(ConfigErrorV::UnknownSubparameter(y@))
                },
                Tok::Punct(c) => if c == ',' {
                    spec_proxy_step(acc, seen, st, toks, i + 1)
                } else {
                    Err(ConfigErrorV::UnexpectedProxyToken)
                },
                _ => Err(ConfigErrorV::UnexpectedProxyToken),
            },
            ProxyState::ExpectingIdent(t) => match toks[i] {
                Tok::Ident(y) => match t {
                    ProxyIdentTarget::Name => spec_proxy_step(
                        GenProxyParamsV { name: Some(y@), ..acc },
                        seen,
                        ProxyState::ExpectingNewParam,
                        toks,
                        i + 1,
                    ),
                    ProxyIdentTarget::TraitName => spec_proxy_step(
                        GenProxyParamsV { traitname: Some(y@), ..acc },
                        seen,
                        ProxyState::ExpectingNewParam,
                        toks,
                        i + 1,
                    ),
                },
                _ => Err(ConfigErrorV::ExpectedIdent),
            },
            ProxyState::ExpectingEqsign(t) => match toks[i] {
                Tok::Punct(c) => if c == '=' {
                    spec_proxy_step(acc, seen, ProxyState::ExpectingIdent(t), toks, i + 1)
                } else {
                    Err(ConfigErrorV::ExpectedEqsign)
                },
                _ => Err(ConfigErrorV::ExpectedEqsign),
            },
            ProxyState::ExpectingGroup(t) => match toks[i] {
                Tok::Group(_d, ts) => match t {
                    ProxyGroupTarget::ExtraFieldType => spec_proxy_step(
                        GenProxyParamsV { extra_arg: Some(ts.deep_view()), ..acc },
                        seen,
                        ProxyState::ExpectingNewParam,
                        toks,
                        i + 1,
                    ),
                },
                _ => Err(ConfigErrorV::ExpectedGroup),
            },
        }
    }
}

/// How many adapter impl kinds one proxy request selected.
pub open spec fn impl_kind_count(g: GenProxyParamsV) -> int {
    (if g.gen_infallible {
        1int
    } else {
        0int
    }) + (if g.gen_unwrapping {
        1int
    } else {
        0int
    }) + (if g.gen_unwrapping_and_panicking {
        1int
    } else {
        0int
    })
}

/// What the proxy-request sub-parser makes of a token sequence: the parsed
/// request, unless it selects more than one adapter impl kind.
pub open spec fn spec_parse_proxy(toks: Seq<Tok>, level: ReceiverStyle) -> Result<
    GenProxyParamsV,
    ConfigErrorV,
> {
    match spec_proxy_step(
        empty_proxy(level),
        no_proxy_seen(),
        ProxyState::ExpectingNewParam,
        toks,
        0,
    ) {
        Ok(g) => if impl_kind_count(g) > 1 {
            Err(ConfigErrorV::MultipleImplKinds)
        } else {
            Ok(g)
        },
        Err(e) => Err(e),
    }
}

pub open spec fn proxy_result_view(r: Result<GenProxyParams, ConfigError>) -> Result<
    GenProxyParamsV,
    ConfigErrorV,
> {
    match r {
        Ok(p) => Ok(p@),
        Err(e) => Err(e@),
    }
}

/// Parses the sub-options of one proxy request.
#[verifier::rlimit(100)]
pub fn parse_proxy(input: &Vec<Tok>, level: ReceiverStyle) -> (r: Result<
    GenProxyParams,
    ConfigError,
>)
    ensures
        proxy_result_view(r) == spec_parse_proxy(input@, level),
{
    let mut acc = GenProxyParams {
        level,
        gen_infallible: false,
        gen_unwrapping: false,
        gen_unwrapping_and_panicking: false,
        extra_arg: None,
        name: None,
        traitname: None,
    };
    let mut seen = ProxySeen {
        infallible: false,
        unwrapping: false,
        unwrapping_and_panicking: false,
        extra_field: false,
        name: false,
        traitname: false,
    };
    let mut st = ProxyState::ExpectingNewParam;
    let n = input.len();
    let mut i: usize = 0;
    while i < n
        invariant
            n == input@.len(),
            0 <= i <= n,
            spec_proxy_step(acc@, seen, st, input@, i as int) == spec_proxy_step(
                empty_proxy(level),
                no_proxy_seen(),
                ProxyState::ExpectingNewParam,
                input@,
                0,
            ),
        decreases n - i,
    {
        let ghost pre_acc = acc@;
        let ghost pre_seen = seen;
        let ghost pre_st = st;
        match (st, &input[i]) {
            (ProxyState::ExpectingNewParam, Tok::Ident(y)) => {
                if str_eq(y.as_str(), "infallible_impl") {
                    if seen.infallible {
                        return Err(ConfigError::DuplicateOption(y.clone()));
                    }
                    acc.gen_infallible = true;
                    seen.infallible = true;
                } else if str_eq(y.as_str(), "unwrapping_impl") {
                    if seen.unwrapping {
                        return Err(ConfigError::DuplicateOption(y.clone()));
                    }
                    acc.gen_unwrapping = true;
                    seen.unwrapping = true;
                } else if str_eq(y.as_str(), "unwrapping_and_panicking_impl") {
                    if seen.unwrapping_and_panicking {
                        return Err(ConfigError::DuplicateOption(y.clone()));
                    }
                    acc.gen_unwrapping_and_panicking = true;
                    seen.unwrapping_and_panicking = true;
                } else if str_eq(y.as_str(), "extra_field_type") {
                    if seen.extra_field {
                        return Err(ConfigError::DuplicateOption(y.clone()));
                    }
                    seen.extra_field = true;
                    st = ProxyState::ExpectingGroup(ProxyGroupTarget::ExtraFieldType);
                } else if str_eq(y.as_str(), "name") {
                    if seen.name {
                        return Err(ConfigError::DuplicateOption(y.clone()));
                    }
                    seen.name = true;
                    st = ProxyState::ExpectingEqsign(ProxyIdentTarget::Name);
                } else if str_eq(y.as_str(), "traitname") {
                    if seen.traitname {
                        return Err(ConfigError::DuplicateOption(y.clone()));
                    }
                    seen.traitname = true;
                    st = ProxyState::ExpectingEqsign(ProxyIdentTarget::TraitName);
                } else {
                    return Err(ConfigError::UnknownSubparameter(y.clone()));
                }
            },
            (ProxyState::ExpectingNewParam, Tok::Punct(c)) => {
                if *c != ',' {
                    return Err(ConfigError::UnexpectedProxyToken);
                }
            },
            (ProxyState::ExpectingNewParam, _) => {
                return Err(ConfigError::UnexpectedProxyToken);
            },
            (ProxyState::ExpectingIdent(t), Tok::Ident(y)) => {
                match t {
                    ProxyIdentTarget::Name => {
                        acc.name = Some(y.clone());
                    },
                    ProxyIdentTarget::TraitName => {
                        acc.traitname = Some(y.clone());
                    },
                }
                st = ProxyState::ExpectingNewParam;
            },
            (ProxyState::ExpectingIdent(_t), _) => {
                return Err(ConfigError::ExpectedIdent);
            },
            (ProxyState::ExpectingEqsign(t), Tok::Punct(c)) => {
                if *c == '=' {
                    st = ProxyState::ExpectingIdent(t);
                } else {
                    return Err(ConfigError::ExpectedEqsign);
                }
            },
            (ProxyState::ExpectingEqsign(_t), _) => {
                return Err(ConfigError::ExpectedEqsign);
            },
            (ProxyState::ExpectingGroup(t), Tok::Group(_d, ts)) => {
                match t {
                    ProxyGroupTarget::ExtraFieldType => {
                        acc.extra_arg = Some(crate::tokens::duplicate_toks(ts));
                    },
                }
                st = ProxyState::ExpectingNewParam;
            },
            (ProxyState::ExpectingGroup(_t), _) => {
                return Err(ConfigError::ExpectedGroup);
            },
        }
        proof {
            assert(spec_proxy_step(pre_acc, pre_seen, pre_st, input@, i as int) == spec_proxy_step(
                acc@,
                seen,
                st,
                input@,
                i + 1 as int,
            ));
        }
        i += 1;
    }
    let mut ctr: u32 = 0;
    if acc.gen_infallible {
        ctr = ctr + 1;
    }
    if acc.gen_unwrapping {
        ctr = ctr + 1;
    }
    if acc.gen_unwrapping_and_panicking {
        ctr = ctr + 1;
    }
    if ctr > 1 {
        return Err(ConfigError::MultipleImplKinds);
    }
    Ok(acc)
}

pub open spec fn empty_params() -> ParamsV {
    ParamsV {
        ref_proxy: None,
        mut_proxy: None,
        once_proxy: None,
        call_ref: None,
        call_mut: None,
        call_once: None,
        access_mode: AccessMode::Priv,
        returnval: None,
        enum_attr: Seq::empty(),
        enum_name: None,
        inherent_impl_mode: false,
    }
}

/// One transition of the root configuration parser, then the rest.
pub open spec fn spec_args_step(
    acc: ParamsV,
    seen: RootSeen,
    st: ArgsState,
    toks: Seq<Tok>,
    i: int,
) -> Result<ParamsV, ConfigErrorV>
    decreases toks.len() - i,
{
    if i < 0 || i >= toks.len() {
        Ok(acc)
    } else {
        match st {
            ArgsState::ExpectingNewParam => match toks[i] {
                Tok::Ident(y) => if y@ == "pub"@ {
                    if seen.access {
                        Err(ConfigErrorV::DuplicateOption(y@))
                    } else {
                        spec_args_step(
                            ParamsV { access_mode: AccessMode::Pub, ..acc },
                            RootSeen { access: true, ..seen },
                            st,
                            toks,
                            i + 1,
                        )
                    }
                } else if y@ == "pub_crate"@ {
                    if seen.access {
                        Err(ConfigErrorV::DuplicateOption(y@))
                    } else {
                        spec_args_step(
                            ParamsV { access_mode: AccessMode::PubCrate, ..acc },
                            RootSeen { access: true, ..seen },
                            st,
                            toks,
                            i + 1,
                        )
                    }
                } else if y@ == "priv"@ {
                    if seen.access {
                        Err(ConfigErrorV::DuplicateOption(y@))
                    } else {
                        spec_args_step(
                            ParamsV { access_mode: AccessMode::Priv, ..acc },
                            RootSeen { access: true, ..seen },
                            st,
                            toks,
                            i + 1,
                        )
                    }
                } else if y@ == "returnval"@ {
                    if seen.returnval {
                        Err(ConfigErrorV::DuplicateOption(y@))
                    } else {
                        spec_args_step(
                            acc,
                            RootSeen { returnval: true, ..seen },
                            ArgsState::ExpectingEqsign(RootIdentTarget::Returnval),
                            toks,
                            i + 1,
                        )
                    }
                } else if y@ == "call"@ {
                    if seen.call_ref {
                        Err(ConfigErrorV::DuplicateOption(y@))
                    } else {
                        spec_args_step(
                            acc,
                            RootSeen { call_ref: true, ..seen },
                            ArgsState::ExpectingGroup(RootGroupTarget::CallFn(ReceiverStyle::Ref)),
                            toks,
                            i + 1,
                        )
                    }
                } else if y@ == "call_mut"@ {
                    if seen.call_mut {
                        Err(ConfigErrorV::DuplicateOption(y@))
                    } else {
                        spec_args_step(
                            acc,
                            RootSeen { call_mut: true, ..seen },
                            ArgsState::ExpectingGroup(RootGroupTarget::CallFn(ReceiverStyle::Mut)),
                            toks,
                            i + 1,
                        )
                    }
                } else if y@ == "call_once"@ {
                    if seen.call_once {
                        Err(ConfigErrorV::DuplicateOption(y@))
                    } else {
                        spec_args_step(
                            acc,
                            RootSeen { call_once: true, ..seen },
                            ArgsState::ExpectingGroup(RootGroupTarget::CallFn(ReceiverStyle::Move)),
                            toks,
                            i + 1,
                        )
                    }
                } else if y@ == "ref_proxy"@ {
                    if seen.ref_proxy {
                        Err(ConfigErrorV::DuplicateOption(y@))
                    } else {
                        spec_args_step(
                            acc,
                            RootSeen { ref_proxy: true, ..seen },
                            ArgsState::ExpectingGroup(RootGroupTarget::Proxy(ReceiverStyle::Ref)),
                            toks,
                            i + 1,
                        )
                    }
                } else if y@ == "mut_proxy"@ {
                    if seen.mut_proxy {
                        Err(ConfigErrorV::DuplicateOption(y@))
                    } else {
                        spec_args_step(
                            acc,
                            RootSeen { mut_proxy: true, ..seen },
                            ArgsState::ExpectingGroup(RootGroupTarget::Proxy(ReceiverStyle::Mut)),
                            toks,
                            i + 1,
                        )
                    }
                } else if y@ == "once_proxy"@ {
                    if seen.once_proxy {
                        Err(ConfigErrorV::DuplicateOption(y@))
                    } else {
                        spec_args_step(
                            acc,
                            RootSeen { once_proxy: true, ..seen },
                            ArgsState::ExpectingGroup(RootGroupTarget::Proxy(ReceiverStyle::Move)),
                            toks,
                            i + 1,
                        )
                    }
                } else if y@ == "enum_attr"@ {
                    spec_args_step(
                        acc,
                        seen,
                        ArgsState::ExpectingGroup(RootGroupTarget::CustomAttr),
                        toks,
                        i + 1,
                    )
                } else if y@ == "name"@ {
                    if seen.enum_name {
                        Err(ConfigErrorV::DuplicateOption(y@))
                    } else {
                        spec_args_step(
                            acc,
                            RootSeen { enum_name: true, ..seen },
                            ArgsState::ExpectingEqsign(RootIdentTarget::Name),
                            toks,
                            i + 1,
                        )
                    }
                } else if y@ == "inherent_impl"@ {
                    if seen.inherent_impl {
                        Err(ConfigErrorV::DuplicateOption(y@))
                    } else {
                        spec_args_step(
                            ParamsV { inherent_impl_mode: true, ..acc },
                            RootSeen { inherent_impl: true, ..seen },
                            st,
                            toks,
                            i + 1,
                        )
                    }
                } else {
                    Err(ConfigErrorV::UnknownParameter(y@))
                },
                Tok::Group(_d, _ts) => Err(ConfigErrorV::UnexpectedGroup),
                Tok::Punct(c) => if c == ',' {
                    spec_args_step(acc, seen, st, toks, i + 1)
                } else {
                    Err(ConfigErrorV::UnexpectedPunct)
                },
                Tok::Literal(_l) => Err(ConfigErrorV::UnexpectedLiteral),
            },
            ArgsState::ExpectingIdent(t) => match toks[i] {
                Tok::Ident(y) => match t {
                    RootIdentTarget::Returnval => spec_args_step(
                        ParamsV { returnval: Some(y@), ..acc },
                        seen,
                        ArgsState::ExpectingNewParam,
                        toks,
                        i + 1,
                    ),
                    RootIdentTarget::Name => spec_args_step(
                        ParamsV { enum_name: Some(y@), ..acc },
                        seen,
                        ArgsState::ExpectingNewParam,
                        toks,
                        i + 1,
                    ),
                },
                _ => Err(ConfigErrorV::ExpectedIdent),
            },
            ArgsState::ExpectingEqsign(t) => match toks[i] {
                Tok::Punct(c) => if c == '=' {
                    spec_args_step(acc, seen, ArgsState::ExpectingIdent(t), toks, i + 1)
                } else {
                    Err(ConfigErrorV::ExpectedEqsign)
                },
                _ => Err(ConfigErrorV::ExpectedEqsign),
            },
            ArgsState::ExpectingGroup(t) => match toks[i] {
                Tok::Group(_d, ts) => match t {
                    RootGroupTarget::CallFn(level) => match spec_parse_call_fn(ts@, level) {
                        Ok(cf) => spec_args_step(
                            match level {
                                ReceiverStyle::Move => ParamsV { call_once: Some(cf), ..acc },
                                ReceiverStyle::Mut => ParamsV { call_mut: Some(cf), ..acc },
                                ReceiverStyle::Ref => ParamsV { call_ref: Some(cf), ..acc },
                            },
                            seen,
                            ArgsState::ExpectingNewParam,
                            toks,
                            i + 1,
                        ),
                        Err(e) => Err(e),
                    },
                    RootGroupTarget::CustomAttr => spec_args_step(
                        ParamsV { enum_attr: acc.enum_attr.push(tok_view(toks[i])), ..acc },
                        seen,
                        ArgsState::ExpectingNewParam,
                        toks,
                        i + 1,
                    ),
                    RootGroupTarget::Proxy(level) => match spec_parse_proxy(ts@, level) {
                        Ok(g) => spec_args_step(
                            match level {
                                ReceiverStyle::Move => ParamsV { once_proxy: Some(g), ..acc },
                                ReceiverStyle::Mut => ParamsV { mut_proxy: Some(g), ..acc },
                                ReceiverStyle::Ref => ParamsV { ref_proxy: Some(g), ..acc },
                            },
                            seen,
                            ArgsState::ExpectingNewParam,
                            toks,
                            i + 1,
                        ),
                        Err(e) => Err(e),
                    },
                },
                _ => Err(ConfigErrorV::ExpectedGroup),
            },
        }
    }
}

/// What the configuration parser makes of a whole token sequence.
pub open spec fn spec_parse_args(toks: Seq<Tok>) -> Result<ParamsV, ConfigErrorV> {
    spec_args_step(empty_params(), no_root_seen(), ArgsState::ExpectingNewParam, toks, 0)
}

pub open spec fn args_result_view(r: Result<Params, ConfigError>) -> Result<
    ParamsV,
    ConfigErrorV,
> {
    match r {
        Ok(p) => Ok(p@),
        Err(e) => Err(e@),
    }
}

/// Parses a whole configuration token sequence into the configuration
/// model, rejecting unknown and duplicate options.
#[verifier::rlimit(100)]
pub fn parse_args(input: &Vec<Tok>) -> (r: Result<Params, ConfigError>)
    ensures
        args_result_view(r) == spec_parse_args(input@),
{
    let mut acc = Params {
        ref_proxy: None,
        mut_proxy: None,
        once_proxy: None,
        call_ref: None,
        call_mut: None,
        call_once: None,
        access_mode: AccessMode::Priv,
        returnval: None,
        enum_attr: Vec::new(),
        enum_name: None,
        inherent_impl_mode: false,
    };
    let mut seen = RootSeen {
        access: false,
        returnval: false,
        call_ref: false,
        call_mut: false,
        call_once: false,
        ref_proxy: false,
        mut_proxy: false,
        once_proxy: false,
        enum_name: false,
        inherent_impl: false,
    };
    let mut st = ArgsState::ExpectingNewParam;
    let n = input.len();
    let mut i: usize = 0;
    proof {
        assert(acc@.enum_attr =~= empty_params().enum_attr);
        assert(acc@ == empty_params());
    }
    while i < n
        invariant
            n == input@.len(),
            0 <= i <= n,
            spec_args_step(acc@, seen, st, input@, i as int) == spec_parse_args(input@),
        decreases n - i,
    {
        let ghost pre_acc = acc@;
        let ghost pre_seen = seen;
        let ghost pre_st = st;
        match (st, &input[i]) {
            (ArgsState::ExpectingNewParam, Tok::Ident(y)) => {
                if str_eq(y.as_str(), "pub") {
                    if seen.access {
                        return Err(ConfigError::DuplicateOption(y.clone()));
                    }
                    acc.access_mode = AccessMode::Pub;
                    seen.access = true;
                } else if str_eq(y.as_str(), "pub_crate") {
                    if seen.access {
                        return Err(ConfigError::DuplicateOption(y.clone()));
                    }
                    acc.access_mode = AccessMode::PubCrate;
                    seen.access = true;
                } else if str_eq(y.as_str(), "priv") {
                    if seen.access {
                        return Err(ConfigError::DuplicateOption(y.clone()));
                    }
                    acc.access_mode = AccessMode::Priv;
                    seen.access = true;
                } else if str_eq(y.as_str(), "returnval") {
                    if seen.returnval {
                        return Err(ConfigError::DuplicateOption(y.clone()));
                    }
                    seen.returnval = true;
                    st = ArgsState::ExpectingEqsign(RootIdentTarget::Returnval);
                } else if str_eq(y.as_str(), "call") {
                    if seen.call_ref {
                        return Err(ConfigError::DuplicateOption(y.clone()));
                    }
                    seen.call_ref = true;
                    st = ArgsState::ExpectingGroup(RootGroupTarget::CallFn(ReceiverStyle::Ref));
                } else if str_eq(y.as_str(), "call_mut") {
                    if seen.call_mut {
                        return Err(ConfigError::DuplicateOption(y.clone()));
                    }
                    seen.call_mut = true;
                    st = ArgsState::ExpectingGroup(RootGroupTarget::CallFn(ReceiverStyle::Mut));
                } else if str_eq(y.as_str(), "call_once") {
                    if seen.call_once {
                        return Err(ConfigError::DuplicateOption(y.clone()));
                    }
                    seen.call_once = true;
                    st = ArgsState::ExpectingGroup(RootGroupTarget::CallFn(ReceiverStyle::Move));
                } else if str_eq(y.as_str(), "ref_proxy") {
                    if seen.ref_proxy {
                        return Err(ConfigError::DuplicateOption(y.clone()));
                    }
                    seen.ref_proxy = true;
                    st = ArgsState::ExpectingGroup(RootGroupTarget::Proxy(ReceiverStyle::Ref));
                } else if str_eq(y.as_str(), "mut_proxy") {
                    if seen.mut_proxy {
                        return Err(ConfigError::DuplicateOption(y.clone()));
                    }
                    seen.mut_proxy = true;
                    st = ArgsState::ExpectingGroup(RootGroupTarget::Proxy(ReceiverStyle::Mut));
                } else if str_eq(y.as_str(), "once_proxy") {
                    if seen.once_proxy {
                        return Err(ConfigError::DuplicateOption(y.clone()));
                    }
                    seen.once_proxy = true;
                    st = ArgsState::ExpectingGroup(RootGroupTarget::Proxy(ReceiverStyle::Move));
                } else if str_eq(y.as_str(), "enum_attr") {
                    st = ArgsState::ExpectingGroup(RootGroupTarget::CustomAttr);
                } else if str_eq(y.as_str(), "name") {
                    if seen.enum_name {
                        return Err(ConfigError::DuplicateOption(y.clone()));
                    }
                    seen.enum_name = true;
                    st = ArgsState::ExpectingEqsign(RootIdentTarget::Name);
                } else if str_eq(y.as_str(), "inherent_impl") {
                    if seen.inherent_impl {
                        return Err(ConfigError::DuplicateOption(y.clone()));
                    }
                    acc.inherent_impl_mode = true;
                    seen.inherent_impl = true;
                } else {
                    return Err(ConfigError::UnknownParameter(y.clone()));
                }
            },
            (ArgsState::ExpectingNewParam, Tok::Group(_d, _ts)) => {
                return Err(ConfigError::UnexpectedGroup);
            },
            (ArgsState::ExpectingNewParam, Tok::Punct(c)) => {
                if *c != ',' {
                    return Err(ConfigError::UnexpectedPunct);
                }
            },
            (ArgsState::ExpectingNewParam, Tok::Literal(_l)) => {
                return Err(ConfigError::UnexpectedLiteral);
            },
            (ArgsState::ExpectingIdent(t), Tok::Ident(y)) => {
                match t {
                    RootIdentTarget::Returnval => {
                        acc.returnval = Some(y.clone());
                    },
                    RootIdentTarget::Name => {
                        acc.enum_name = Some(y.clone());
                    },
                }
                st = ArgsState::ExpectingNewParam;
            },
            (ArgsState::ExpectingIdent(_t), _) => {
                return Err(ConfigError::ExpectedIdent);
            },
            (ArgsState::ExpectingEqsign(t), Tok::Punct(c)) => {
                if *c == '=' {
                    st = ArgsState::ExpectingIdent(t);
                } else {
                    return Err(ConfigError::ExpectedEqsign);
                }
            },
            (ArgsState::ExpectingEqsign(_t), _) => {
                return Err(ConfigError::ExpectedEqsign);
            },
            (ArgsState::ExpectingGroup(t), Tok::Group(_d, ts)) => {
                match t {
                    RootGroupTarget::CallFn(level) => {
                        match parse_call_fn(ts, level) {
                            Ok(cf) => {
                                match level {
                                    ReceiverStyle::Move => {
                                        acc.call_once = Some(cf);
                                    },
                                    ReceiverStyle::Mut => {
                                        acc.call_mut = Some(cf);
                                    },
                                    ReceiverStyle::Ref => {
                                        acc.call_ref = Some(cf);
                                    },
                                }
                            },
                            Err(e) => {
                                return Err(e);
                            },
                        }
                    },
                    RootGroupTarget::CustomAttr => {
                        let copied = input[i].duplicate();
                        acc.enum_attr.push(copied);
                        proof {
                            assert(acc.enum_attr.deep_view() =~= pre_acc.enum_attr.push(
                                tok_view(input@[i as int]),
                            ));
                        }
                    },
                    RootGroupTarget::Proxy(level) => {
                        match parse_proxy(ts, level) {
                            Ok(g) => {
                                match level {
                                    ReceiverStyle::Move => {
                                        acc.once_proxy = Some(g);
                                    },
                                    ReceiverStyle::Mut => {
                                        acc.mut_proxy = Some(g);
                                    },
                                    ReceiverStyle::Ref => {
                                        acc.ref_proxy = Some(g);
                                    },
                                }
                            },
                            Err(e) => {
                                return Err(e);
                            },
                        }
                    },
                }
                st = ArgsState::ExpectingNewParam;
            },
            (ArgsState::ExpectingGroup(_t), _) => {
                return Err(ConfigError::ExpectedGroup);
            },
        }
        proof {
            assert(spec_args_step(pre_acc, pre_seen, pre_st, input@, i as int) == spec_args_step(
                acc@,
                seen,
                st,
                input@,
                i + 1 as int,
            ));
        }
        i += 1;
    }
    Ok(acc)
}

} // verus!
