//! The generation back-end: each generator consumes the interface model and
//! builds one structured artifact of the derived family.

use crate::model::AccessMode;
use crate::model::Argument;
use crate::model::CallFnParams;
use crate::model::GenProxyParams;
use crate::model::InputData;
use crate::model::Method;
use crate::model::ReceiverStyle;
use crate::model::TyExpr;
use crate::model::spec_call_fn_name;
use crate::model::spec_can_call;
use crate::model::spec_callee_can_call;
use crate::model::spec_enum_name;
use crate::model::spec_proxy_name;
use crate::model::spec_resultified_trait_name;
use crate::model::wf_input;
use crate::names::upper_camel_of;
use crate::tokens::Tok;
use crate::tokens::duplicate_toks;
use vstd::prelude::*;
use vstd::string::StringExecFns;

verus! {

/// A configuration the enum generator rejects, with the offending method and
/// argument names.
#[derive(Debug)]
pub enum GenError {
    ToOwnedOnNonRef { method: String, arg: String },
    ReturnAttrWithoutReturnType { method: String },
}

/// Mathematical shape of a generation error.
pub enum GenErrorV {
    ToOwnedOnNonRef { method: Seq<char>, arg: Seq<char> },
    ReturnAttrWithoutReturnType { method: Seq<char> },
}

impl View for GenError {
    type V = GenErrorV;

    open spec fn view(&self) -> GenErrorV {
        match self {
            GenError::ToOwnedOnNonRef { method, arg } => GenErrorV::ToOwnedOnNonRef {
                method: method@,
                arg: arg@,
            },
            GenError::ReturnAttrWithoutReturnType { method } =>
                GenErrorV::ReturnAttrWithoutReturnType { method: method@ },
        }
    }
}

/// The type of one generated command-enum field: the argument's own type,
/// the owned counterpart of a reference type's referent, or a sender
/// endpoint of the channel class carrying the return type.
#[derive(Debug)]
pub enum FieldTy {
    Plain(TyExpr),
    Owned(String),
    RetSender { class: String, ret: TyExpr },
}

/// One field of a command-enum variant.
#[derive(Debug)]
pub struct FieldDef {
    pub attrs: Vec<Tok>,
    pub name: String,
    pub ty: FieldTy,
}

/// One command-enum variant: one method's call captured as data.
#[derive(Debug)]
pub struct VariantDef {
    pub attrs: Vec<Tok>,
    pub name: String,
    pub fields: Vec<FieldDef>,
}

/// The generated command enum.
#[derive(Debug)]
pub struct EnumDef {
    pub attrs: Vec<Tok>,
    pub access: AccessMode,
    pub name: String,
    pub variants: Vec<VariantDef>,
}

/// How a dispatcher arm forwards one stored argument.
#[derive(Debug)]
pub enum ArgPass {
    Direct(String),
    Borrowed(String),
}

/// What a dispatcher arm does once the command is opened.
#[derive(Debug)]
pub enum ArmAction {
    CallNoRet,
    CallNoRetOk,
    CallSendReply { ret: TyExpr },
    MismatchFailure { enum_and_fn: String, method: String },
}

/// One match arm of a generated dispatcher.
#[derive(Debug)]
pub struct CallArm {
    pub variant: String,
    pub method: String,
    pub args: Vec<ArgPass>,
    pub has_ret_field: bool,
    pub action: ArmAction,
}

/// A generated dispatcher function.
#[derive(Debug)]
pub struct CallFnDef {
    pub access: AccessMode,
    pub name: String,
    pub level: ReceiverStyle,
    pub enum_name: String,
    pub target: String,
    pub inherent: bool,
    pub extra_arg: Option<Vec<Tok>>,
    pub returnval: Option<String>,
    pub arms: Vec<CallArm>,
}

/// The return shape of one fallible mirror method.
#[derive(Debug)]
pub enum RtRet {
    Unit,
    Nested { ret: TyExpr, class: String },
}

/// One method of the fallible mirror trait.
#[derive(Debug)]
pub struct RtMethod {
    pub name: String,
    pub receiver: ReceiverStyle,
    pub args: Vec<(String, TyExpr)>,
    pub ret: RtRet,
}

/// The generated fallible mirror trait.
#[derive(Debug)]
pub struct ResultifiedTraitDef {
    pub access: AccessMode,
    pub name: String,
    pub methods: Vec<RtMethod>,
}

/// How a proxy method stores one argument into the command variant.
#[derive(Debug)]
pub enum BuildField {
    Direct(String),
    ToOwned(String),
}

/// What a proxy method does after building the command.
#[derive(Debug)]
pub enum ProxyBody {
    Plain,
    WithChannel { ret: TyExpr },
}

/// One method of a generated proxy.
#[derive(Debug)]
pub struct ProxyMethod {
    pub name: String,
    pub variant: String,
    pub args: Vec<(String, TyExpr)>,
    pub build: Vec<BuildField>,
    pub body: ProxyBody,
}

/// A generated proxy type, implementing the fallible mirror trait over a
/// user-supplied dispatch function.
#[derive(Debug)]
pub struct ProxyDef {
    pub access: AccessMode,
    pub name: String,
    pub level: ReceiverStyle,
    pub enum_name: String,
    pub trait_name: String,
    pub extra_field: Option<Vec<Tok>>,
    pub returnval: Option<String>,
    pub methods: Vec<ProxyMethod>,
}

/// How an adapter method hands its receiver to the fallible mirror.
#[derive(Debug)]
pub enum SelfAdjust {
    AsIs,
    Borrow,
    BorrowMut,
}

/// The body of one adapter method: forward and unwrap, or an unconditional
/// failure for a structurally uncallable method.
#[derive(Debug)]
pub enum AdapterBody {
    ForwardUnwrap { try_name: String, double_unwrap: bool, adjust: SelfAdjust },
    Failure { iface: String, method: String, proxy: String },
}

/// One method of a generated adapter impl of the original interface.
#[derive(Debug)]
pub struct AdapterMethod {
    pub name: String,
    pub receiver: ReceiverStyle,
    pub args: Vec<(String, TyExpr)>,
    pub ret: Option<TyExpr>,
    pub body: AdapterBody,
}

/// A generated adapter impl of the original interface, either a blanket impl
/// over every mirror implementor (infallible) or an impl on the proxy type.
#[derive(Debug)]
pub struct AdapterImplDef {
    pub iface: String,
    pub infallible: bool,
    pub via_trait: bool,
    pub trait_name: String,
    pub proxy_name: String,
    pub level: ReceiverStyle,
    pub recv_error_bound: bool,
    pub methods: Vec<AdapterMethod>,
}

/// The generation-time fault in one argument, if any: ownership conversion
/// demands a reference-typed argument.
pub open spec fn spec_first_arg_violation(
    args: Seq<crate::model::ArgumentV>,
    i: int,
    method: Seq<char>,
) -> Option<GenErrorV>
    decreases args.len() - i,
{
    if i < 0 || i >= args.len() {
        None
    } else if args[i].to_owned && !args[i].ty.is_ref {
        Some(GenErrorV::ToOwnedOnNonRef { method, arg: args[i].name })
    } else {
        spec_first_arg_violation(args, i + 1, method)
    }
}

/// The generation-time fault in one method, if any: a bad ownership
/// conversion, or a return-channel attribute on a method with no return
/// type.
pub open spec fn spec_method_violation(m: crate::model::MethodV) -> Option<GenErrorV> {
    match spec_first_arg_violation(m.args, 0, m.name) {
        Some(e) => Some(e),
        None => if m.ret is None && m.return_attr.len() > 0 {
            Some(GenErrorV::ReturnAttrWithoutReturnType { method: m.name })
        } else {
            None
        },
    }
}

/// The first generation-time fault among the methods, if any.
pub open spec fn spec_first_enum_violation(methods: Seq<crate::model::MethodV>, i: int) -> Option<
    GenErrorV,
>
    decreases methods.len() - i,
{
    if i < 0 || i >= methods.len() {
        None
    } else {
        match spec_method_violation(methods[i]) {
            Some(e) => Some(e),
            None => spec_first_enum_violation(methods, i + 1),
        }
    }
}

/// One generated field captures one argument: same name, same attribute
/// fragments, and the argument's type or its owned counterpart.
pub open spec fn field_matches(a: Argument, f: FieldDef) -> bool {
    &&& f.attrs.deep_view() == a.enum_attr.deep_view()
    &&& f.name@ == a.name@
    &&& if a.to_owned {
        match f.ty {
            FieldTy::Owned(b) => b@ == a.ty.base@,
            _ => false,
        }
    } else {
        match f.ty {
            FieldTy::Plain(t) => t@ == a.ty@,
            _ => false,
        }
    }
}

/// One generated variant captures one method: upper-camel-case name, the
/// method's attribute fragments, one field per argument in order, and — for
/// a return-typed method — a trailing sender field of the channel class.
pub open spec fn variant_matches(m: Method, v: VariantDef, returnval: Option<String>) -> bool {
    &&& v.name@ == upper_camel_of(m.name@)
    &&& v.attrs.deep_view() == m.enum_attr.deep_view()
    &&& v.fields@.len() == m.args@.len() + (if m.ret is Some {
        1int
    } else {
        0int
    })
    &&& forall|j: int| 0 <= j < m.args@.len() ==> field_matches(m.args@[j], #[trigger] v.fields@[j])
    &&& match m.ret {
        Some(rt) => {
            let f = v.fields@[m.args@.len() as int];
            &&& f.name@ == "ret"@
            &&& f.attrs.deep_view() == m.return_attr.deep_view()
            &&& match f.ty {
                FieldTy::RetSender { class, ret } => returnval is Some && class@
                    == returnval.unwrap()@ && ret@ == rt@,
                _ => false,
            }
        },
        None => true,
    }
}

impl InputData {
    /// Emits the command enum: one variant per method, carrying the call's
    /// arguments as data.  Rejects an ownership conversion on a
    /// non-reference argument, and a return-channel attribute on a method
    /// without a return type.
    #[verifier::loop_isolation(false)]
    pub fn generate_enum(&self) -> (r: Result<EnumDef, GenError>)
        requires
            wf_input(self@),
        ensures
            match r {
                Ok(e) => {
                    &&& spec_first_enum_violation(self@.methods, 0) is None
                    &&& e.name@ == spec_enum_name(*self)
                    &&& e.access == self.params.access_mode
                    &&& e.attrs.deep_view() == self.params.enum_attr.deep_view()
                    &&& e.variants@.len() == self.methods@.len()
                    &&& forall|i: int|
                        0 <= i < self.methods@.len() ==> variant_matches(
                            self.methods@[i],
                            #[trigger] e.variants@[i],
                            self.params.returnval,
                        )
                },
                Err(e) => spec_first_enum_violation(self@.methods, 0) == Some(e@),
            },
    {
        let mut variants: Vec<VariantDef> = Vec::new();
        let n = self.methods.len();
        let mut i: usize = 0;
        while i < n
            invariant
                0 <= i <= n,
                variants@.len() == i,
                spec_first_enum_violation(self@.methods, 0) == spec_first_enum_violation(
                    self@.methods,
                    i as int,
                ),
                forall|k: int|
                    0 <= k < i ==> variant_matches(
                        self.methods@[k],
                        #[trigger] variants@[k],
                        self.params.returnval,
                    ),
            decreases n - i,
        {
            let m = &self.methods[i];
            let mut fields: Vec<FieldDef> = Vec::new();
            let na = m.args.len();
            let mut j: usize = 0;
            while j < na
                invariant
                    0 <= j <= na,
                    na == m.args@.len(),
                    fields@.len() == j,
                    spec_first_arg_violation(m.deep_view().args, 0, m.name@)
                        == spec_first_arg_violation(m.deep_view().args, j as int, m.name@),
                    forall|k: int|
                        0 <= k < j ==> field_matches(m.args@[k], #[trigger] fields@[k]),
                decreases na - j,
            {
                let a = &m.args[j];
                let fty = if a.to_owned {
                    if !a.ty.is_ref {
                        return Err(
                            GenError::ToOwnedOnNonRef {
                                method: m.name.clone(),
                                arg: a.name.clone(),
                            },
                        );
                    }
                    FieldTy::Owned(a.ty.base.clone())
                } else {
                    FieldTy::Plain(a.ty.duplicate())
                };
                fields.push(
                    FieldDef { attrs: duplicate_toks(&a.enum_attr), name: a.name.clone(), ty: fty },
                );
                j += 1;
            }
            match &m.ret {
                Some(rt) => {
                    let class = match &self.params.returnval {
                        Some(c) => c.clone(),
                        None => {
                            proof {
                                assert(self@.methods[i as int].ret is Some);
                                assert(false);
                            }
                            return Err(
                                GenError::ReturnAttrWithoutReturnType { method: m.name.clone() },
                            );
                        },
                    };
                    fields.push(
                        FieldDef {
                            attrs: duplicate_toks(&m.return_attr),
                            name: String::from_str("ret"),
                            ty: FieldTy::RetSender { class, ret: rt.duplicate() },
                        },
                    );
                },
                None => {
                    if m.return_attr.len() > 0 {
                        return Err(
                            GenError::ReturnAttrWithoutReturnType { method: m.name.clone() },
                        );
                    }
                },
            }
            variants.push(
                VariantDef {
                    attrs: duplicate_toks(&m.enum_attr),
                    name: m.variant_name(),
                    fields,
                },
            );
            i += 1;
        }
        Ok(
            EnumDef {
                attrs: duplicate_toks(&self.params.enum_attr),
                access: self.params.access_mode,
                name: self.enum_name(),
                variants,
            },
        )
    }
}


/// One dispatcher arm forwards one stored argument directly, or through the
/// borrow that undoes the ownership conversion.
pub open spec fn arg_pass_matches(a: Argument, p: ArgPass) -> bool {
    match p {
        ArgPass::Direct(n) => !a.to_owned && n@ == a.name@,
        ArgPass::Borrowed(n) => a.to_owned && n@ == a.name@,
    }
}

/// One dispatcher arm captures one method: it opens the method's variant and
/// either performs the call (routing the return value when there is one) or,
/// when the method's convention demands more receiver access than the
/// dispatcher level grants, fails naming the method and the dispatcher.
pub open spec fn call_arm_matches(
    m: Method,
    arm: CallArm,
    level: ReceiverStyle,
    returnval: Option<String>,
    iface: Seq<char>,
) -> bool {
    &&& arm.variant@ == upper_camel_of(m.name@)
    &&& arm.method@ == m.name@
    &&& arm.args@.len() == m.args@.len()
    &&& forall|j: int| 0 <= j < m.args@.len() ==> arg_pass_matches(m.args@[j], #[trigger] arm.args@[j])
    &&& arm.has_ret_field == (m.ret is Some)
    &&& if !spec_can_call(level, m.receiver_style) {
        match arm.action {
            ArmAction::MismatchFailure { enum_and_fn, method } => enum_and_fn@ == iface + "Enum::"@
                + spec_call_fn_name(level, returnval is Some) && method@ == m.name@,
            _ => false,
        }
    } else {
        match m.ret {
            Some(rt) => match arm.action {
                ArmAction::CallSendReply { ret } => ret@ == rt@,
                _ => false,
            },
            None => if returnval is Some {
                arm.action is CallNoRetOk
            } else {
                arm.action is CallNoRet
            },
        }
    }
}

/// The shapes of an optional token group.
pub open spec fn opt_toks_view(o: Option<Vec<Tok>>) -> Option<Seq<crate::tokens::TokV>> {
    match o {
        Some(ts) => Some(ts.deep_view()),
        None => None,
    }
}

/// The name of the fallible mirror of a method.
pub open spec fn spec_try_name(n: Seq<char>) -> Seq<char> {
    "try_"@ + n
}

/// One mirror-trait method captures one method: prefixed name, the request's
/// receiver convention, the original arguments, and the nested result shape
/// for a return-typed method.
pub open spec fn rt_method_matches(
    m: Method,
    rm: RtMethod,
    level: ReceiverStyle,
    returnval: Option<String>,
) -> bool {
    &&& rm.name@ == spec_try_name(m.name@)
    &&& rm.receiver == level
    &&& rm.args@.len() == m.args@.len()
    &&& forall|j: int|
        0 <= j < m.args@.len() ==> (#[trigger] rm.args@[j]).0@ == m.args@[j].name@ && rm.args@[
            j
        ].1@ == m.args@[j].ty@
    &&& match m.ret {
        Some(rt) => match rm.ret {
            RtRet::Nested { ret, class } => returnval is Some && ret@ == rt@ && class@
                == returnval.unwrap()@,
            _ => false,
        },
        None => rm.ret is Unit,
    }
}

/// One proxy method stores one argument directly, or converts it to its
/// owned form first.
pub open spec fn build_field_matches(a: Argument, b: BuildField) -> bool {
    match b {
        BuildField::Direct(n) => !a.to_owned && n@ == a.name@,
        BuildField::ToOwned(n) => a.to_owned && n@ == a.name@,
    }
}

/// One proxy method captures one method: it builds the method's command
/// variant from its arguments and dispatches it, creating and then reading a
/// reply channel when the method returns a value.
pub open spec fn proxy_method_matches(m: Method, pm: ProxyMethod) -> bool {
    &&& pm.name@ == spec_try_name(m.name@)
    &&& pm.variant@ == upper_camel_of(m.name@)
    &&& pm.args@.len() == m.args@.len()
    &&& forall|j: int|
        0 <= j < m.args@.len() ==> (#[trigger] pm.args@[j]).0@ == m.args@[j].name@ && pm.args@[
            j
        ].1@ == m.args@[j].ty@
    &&& pm.build@.len() == m.args@.len()
    &&& forall|j: int|
        0 <= j < m.args@.len() ==> build_field_matches(m.args@[j], #[trigger] pm.build@[j])
    &&& match m.ret {
        Some(rt) => match pm.body {
            ProxyBody::WithChannel { ret } => ret@ == rt@,
            _ => false,
        },
        None => pm.body is Plain,
    }
}

/// How an adapter method hands the proxy receiver to the mirror method.
pub open spec fn spec_self_adjust(style: ReceiverStyle, level: ReceiverStyle) -> SelfAdjust {
    match (style, level) {
        (ReceiverStyle::Move, ReceiverStyle::Ref) => SelfAdjust::Borrow,
        (ReceiverStyle::Move, ReceiverStyle::Mut) => SelfAdjust::BorrowMut,
        _ => SelfAdjust::AsIs,
    }
}

/// One adapter method keeps the original signature.
pub open spec fn adapter_sig_matches(m: Method, am: AdapterMethod) -> bool {
    &&& am.name@ == m.name@
    &&& am.receiver == m.receiver_style
    &&& am.args@.len() == m.args@.len()
    &&& forall|j: int|
        0 <= j < m.args@.len() ==> (#[trigger] am.args@[j]).0@ == m.args@[j].name@ && am.args@[
            j
        ].1@ == m.args@[j].ty@
    &&& match (m.ret, am.ret) {
        (Some(rt), Some(at)) => at@ == rt@,
        (None, None) => true,
        _ => false,
    }
}

/// One infallible adapter method forwards to the mirror and unwraps the one
/// impossible error.
pub open spec fn infallible_method_matches(m: Method, am: AdapterMethod) -> bool {
    &&& adapter_sig_matches(m, am)
    &&& match am.body {
        AdapterBody::ForwardUnwrap { try_name, double_unwrap, adjust } => try_name@
            == spec_try_name(m.name@) && !double_unwrap && adjust is AsIs,
        _ => false,
    }
}

/// One unwrapping adapter method forwards and unwraps when the proxy's
/// convention can serve the method, and otherwise fails naming the
/// interface, the method and the proxy.
pub open spec fn unwrapping_method_matches(
    m: Method,
    am: AdapterMethod,
    level: ReceiverStyle,
    iface: Seq<char>,
    proxy: Seq<char>,
) -> bool {
    &&& adapter_sig_matches(m, am)
    &&& if spec_callee_can_call(m.receiver_style, level) {
        match am.body {
            AdapterBody::ForwardUnwrap { try_name, double_unwrap, adjust } => try_name@
                == spec_try_name(m.name@) && double_unwrap == (m.ret is Some) && adjust
                == spec_self_adjust(m.receiver_style, level),
            _ => false,
        }
    } else {
        match am.body {
            AdapterBody::Failure { iface: fi, method, proxy: fp } => fi@ == iface && method@
                == m.name@ && fp@ == proxy,
            _ => false,
        }
    }
}

/// A copy of an optional token group with the same shapes.
pub fn duplicate_opt_toks(o: &Option<Vec<Tok>>) -> (r: Option<Vec<Tok>>)
    ensures
        opt_toks_view(r) == opt_toks_view(*o),
{
    match o {
        Some(ts) => Some(duplicate_toks(ts)),
        None => None,
    }
}

impl InputData {
    /// Emits one dispatcher function of the requested convention: a match
    /// over every command variant that performs the corresponding call,
    /// routes the return value into the command's sender field where there
    /// is one, and turns a convention-mismatched method into an
    /// unconditional failure arm.
    #[verifier::loop_isolation(false)]
    pub fn generate_call_fn(&self, cfparams: &CallFnParams) -> (r: CallFnDef)
        requires
            wf_input(self@),
        ensures
            r.access == self.params.access_mode,
            r.level == cfparams.level,
            r.name@ == (match cfparams.name {
                Some(n) => n@,
                None => spec_call_fn_name(cfparams.level, self.params.returnval is Some),
            }),
            r.enum_name@ == spec_enum_name(*self),
            r.target@ == self.name@,
            r.inherent == self.params.inherent_impl_mode,
            opt_toks_view(r.extra_arg) == opt_toks_view(cfparams.extra_arg),
            r.returnval.deep_view() == self.params.returnval.deep_view(),
            r.arms@.len() == self.methods@.len(),
            forall|i: int|
                0 <= i < self.methods@.len() ==> call_arm_matches(
                    self.methods@[i],
                    #[trigger] r.arms@[i],
                    cfparams.level,
                    self.params.returnval,
                    self.name@,
                ),
    {
        let returnval_on = self.params.returnval.is_some();
        let level = cfparams.level;
        let mut arms: Vec<CallArm> = Vec::new();
        let n = self.methods.len();
        let mut i: usize = 0;
        while i < n
            invariant
                0 <= i <= n,
                arms@.len() == i,
                forall|k: int|
                    0 <= k < i ==> call_arm_matches(
                        self.methods@[k],
                        #[trigger] arms@[k],
                        level,
                        self.params.returnval,
                        self.name@,
                    ),
            decreases n - i,
        {
            let m = &self.methods[i];
            let mut passes: Vec<ArgPass> = Vec::new();
            let na = m.args.len();
            let mut j: usize = 0;
            while j < na
                invariant
                    0 <= j <= na,
                    na == m.args@.len(),
                    passes@.len() == j,
                    forall|k: int|
                        0 <= k < j ==> arg_pass_matches(m.args@[k], #[trigger] passes@[k]),
                decreases na - j,
            {
                let a = &m.args[j];
                if a.to_owned {
                    passes.push(ArgPass::Borrowed(a.name.clone()));
                } else {
                    passes.push(ArgPass::Direct(a.name.clone()));
                }
                j += 1;
            }
            let action = if !level.can_call(m.receiver_style) {
                let mut enum_and_fn = self.name.clone();
                enum_and_fn.append("Enum::");
                enum_and_fn.append(level.call_fn_name(returnval_on));
                ArmAction::MismatchFailure { enum_and_fn, method: m.name.clone() }
            } else {
                match &m.ret {
                    Some(rt) => ArmAction::CallSendReply { ret: rt.duplicate() },
                    None => if returnval_on {
                        ArmAction::CallNoRetOk
                    } else {
                        ArmAction::CallNoRet
                    },
                }
            };
            arms.push(
                CallArm {
                    variant: m.variant_name(),
                    method: m.name.clone(),
                    args: passes,
                    has_ret_field: m.ret.is_some(),
                    action,
                },
            );
            i += 1;
        }
        let name = match &cfparams.name {
            Some(nm) => nm.clone(),
            None => String::from_str(level.call_fn_name(returnval_on)),
        };
        let returnval = match &self.params.returnval {
            Some(c) => Some(c.clone()),
            None => None,
        };
        CallFnDef {
            access: self.params.access_mode,
            name,
            level,
            enum_name: self.enum_name(),
            target: self.name.clone(),
            inherent: self.params.inherent_impl_mode,
            extra_arg: duplicate_opt_toks(&cfparams.extra_arg),
            returnval,
            arms,
        }
    }

    /// Emits the fallible mirror trait for one proxy request: every method
    /// renamed with the `try_` prefix, made fallible, and taking its
    /// receiver at the request's convention.
    #[verifier::loop_isolation(false)]
    pub fn generate_resultified_trait(&self, gpparams: &GenProxyParams) -> (r: ResultifiedTraitDef)
        requires
            wf_input(self@),
        ensures
            r.access == self.params.access_mode,
            r.name@ == spec_resultified_trait_name(*self, *gpparams),
            r.methods@.len() == self.methods@.len(),
            forall|i: int|
                0 <= i < self.methods@.len() ==> rt_method_matches(
                    self.methods@[i],
                    #[trigger] r.methods@[i],
                    gpparams.level,
                    self.params.returnval,
                ),
    {
        let mut methods: Vec<RtMethod> = Vec::new();
        let n = self.methods.len();
        let mut i: usize = 0;
        while i < n
            invariant
                0 <= i <= n,
                methods@.len() == i,
                forall|k: int|
                    0 <= k < i ==> rt_method_matches(
                        self.methods@[k],
                        #[trigger] methods@[k],
                        gpparams.level,
                        self.params.returnval,
                    ),
            decreases n - i,
        {
            let m = &self.methods[i];
            let mut tname = String::from_str("try_");
            tname.append(m.name.as_str());
            let mut sig_args: Vec<(String, TyExpr)> = Vec::new();
            let na = m.args.len();
            let mut j: usize = 0;
            while j < na
                invariant
                    0 <= j <= na,
                    na == m.args@.len(),
                    sig_args@.len() == j,
                    forall|k: int|
                        0 <= k < j ==> (#[trigger] sig_args@[k]).0@ == m.args@[k].name@
                            && sig_args@[k].1@ == m.args@[k].ty@,
                decreases na - j,
            {
                let a = &m.args[j];
                sig_args.push((a.name.clone(), a.ty.duplicate()));
                j += 1;
            }
            let ret = match &m.ret {
                Some(rt) => {
                    let class = match &self.params.returnval {
                        Some(c) => c.clone(),
                        None => {
                            proof {
                                assert(self@.methods[i as int].ret is Some);
                                assert(false);
                            }
                            String::new()
                        },
                    };
                    RtRet::Nested { ret: rt.duplicate(), class }
                },
                None => RtRet::Unit,
            };
            methods.push(RtMethod { name: tname, receiver: gpparams.level, args: sig_args, ret });
            i += 1;
        }
        ResultifiedTraitDef {
            access: self.params.access_mode,
            name: self.resultified_trait_name(gpparams),
            methods,
        }
    }

    /// Emits one proxy type: a struct over a dispatch function (and the
    /// configured extra context field) whose mirror-trait methods build the
    /// matching command variant and dispatch it, reading back through a
    /// fresh reply channel when the method returns a value.
    #[verifier::loop_isolation(false)]
    pub fn generate_proxy(&self, gpparams: &GenProxyParams) -> (r: ProxyDef)
        requires
            wf_input(self@),
        ensures
            r.access == self.params.access_mode,
            r.name@ == spec_proxy_name(*self, *gpparams),
            r.level == gpparams.level,
            r.enum_name@ == spec_enum_name(*self),
            r.trait_name@ == spec_resultified_trait_name(*self, *gpparams),
            opt_toks_view(r.extra_field) == opt_toks_view(gpparams.extra_arg),
            r.returnval.deep_view() == self.params.returnval.deep_view(),
            r.methods@.len() == self.methods@.len(),
            forall|i: int|
                0 <= i < self.methods@.len() ==> proxy_method_matches(
                    self.methods@[i],
                    #[trigger] r.methods@[i],
                ),
    {
        let mut methods: Vec<ProxyMethod> = Vec::new();
        let n = self.methods.len();
        let mut i: usize = 0;
        while i < n
            invariant
                0 <= i <= n,
                methods@.len() == i,
                forall|k: int|
                    0 <= k < i ==> proxy_method_matches(self.methods@[k], #[trigger] methods@[k]),
            decreases n - i,
        {
            let m = &self.methods[i];
            let mut tname = String::from_str("try_");
            tname.append(m.name.as_str());
            let mut sig_args: Vec<(String, TyExpr)> = Vec::new();
            let mut build: Vec<BuildField> = Vec::new();
            let na = m.args.len();
            let mut j: usize = 0;
            while j < na
                invariant
                    0 <= j <= na,
                    na == m.args@.len(),
                    sig_args@.len() == j,
                    build@.len() == j,
                    forall|k: int|
                        0 <= k < j ==> (#[trigger] sig_args@[k]).0@ == m.args@[k].name@
                            && sig_args@[k].1@ == m.args@[k].ty@,
                    forall|k: int|
                        0 <= k < j ==> build_field_matches(m.args@[k], #[trigger] build@[k]),
                decreases na - j,
            {
                let a = &m.args[j];
                sig_args.push((a.name.clone(), a.ty.duplicate()));
                if a.to_owned {
                    build.push(BuildField::ToOwned(a.name.clone()));
                } else {
                    build.push(BuildField::Direct(a.name.clone()));
                }
                j += 1;
            }
            let body = match &m.ret {
                Some(rt) => ProxyBody::WithChannel { ret: rt.duplicate() },
                None => ProxyBody::Plain,
            };
            methods.push(
                ProxyMethod {
                    name: tname,
                    variant: m.variant_name(),
                    args: sig_args,
                    build,
                    body,
                },
            );
            i += 1;
        }
        let returnval = match &self.params.returnval {
            Some(c) => Some(c.clone()),
            None => None,
        };
        ProxyDef {
            access: self.params.access_mode,
            name: self.proxy_name(gpparams),
            level: gpparams.level,
            enum_name: self.enum_name(),
            trait_name: self.resultified_trait_name(gpparams),
            extra_field: duplicate_opt_toks(&gpparams.extra_arg),
            returnval,
            methods,
        }
    }

    /// Emits the infallible adapter impl: a blanket impl of the original
    /// interface for every mirror implementor whose error type is the
    /// uninhabited one, unwrapping the impossible error.  Only meaningful
    /// when no return-value channel is configured.
    #[verifier::loop_isolation(false)]
    pub fn generate_infallible_impl(&self, gpparams: &GenProxyParams) -> (r: AdapterImplDef)
        requires
            wf_input(self@),
            self.params.returnval is None,
        ensures
            r.iface@ == self.name@,
            r.infallible,
            r.via_trait,
            r.trait_name@ == spec_resultified_trait_name(*self, *gpparams),
            r.proxy_name@ == spec_proxy_name(*self, *gpparams),
            r.level == gpparams.level,
            !r.recv_error_bound,
            r.methods@.len() == self.methods@.len(),
            forall|i: int|
                0 <= i < self.methods@.len() ==> infallible_method_matches(
                    self.methods@[i],
                    #[trigger] r.methods@[i],
                ),
    {
        let mut methods: Vec<AdapterMethod> = Vec::new();
        let n = self.methods.len();
        let mut i: usize = 0;
        while i < n
            invariant
                0 <= i <= n,
                methods@.len() == i,
                forall|k: int|
                    0 <= k < i ==> infallible_method_matches(
                        self.methods@[k],
                        #[trigger] methods@[k],
                    ),
            decreases n - i,
        {
            let m = &self.methods[i];
            let mut tname = String::from_str("try_");
            tname.append(m.name.as_str());
            let mut sig_args: Vec<(String, TyExpr)> = Vec::new();
            let na = m.args.len();
            let mut j: usize = 0;
            while j < na
                invariant
                    0 <= j <= na,
                    na == m.args@.len(),
                    sig_args@.len() == j,
                    forall|k: int|
                        0 <= k < j ==> (#[trigger] sig_args@[k]).0@ == m.args@[k].name@
                            && sig_args@[k].1@ == m.args@[k].ty@,
                decreases na - j,
            {
                let a = &m.args[j];
                sig_args.push((a.name.clone(), a.ty.duplicate()));
                j += 1;
            }
            let ret = match &m.ret {
                Some(_rt) => {
                    proof {
                        assert(self@.methods[i as int].ret is Some);
                        assert(false);
                    }
                    None
                },
                None => None,
            };
            methods.push(
                AdapterMethod {
                    name: m.name.clone(),
                    receiver: m.receiver_style,
                    args: sig_args,
                    ret,
                    body: AdapterBody::ForwardUnwrap {
                        try_name: tname,
                        double_unwrap: false,
                        adjust: SelfAdjust::AsIs,
                    },
                },
            );
            i += 1;
        }
        AdapterImplDef {
            iface: self.name.clone(),
            infallible: true,
            via_trait: true,
            trait_name: self.resultified_trait_name(gpparams),
            proxy_name: self.proxy_name(gpparams),
            level: gpparams.level,
            recv_error_bound: false,
            methods,
        }
    }

    /// Emits the unwrapping adapter impl on the proxy type: methods the
    /// proxy's convention can serve forward to the mirror and unwrap the
    /// delivery (and, when present, reply) results; the rest fail
    /// unconditionally, naming the interface, the method and the proxy.
    #[verifier::loop_isolation(false)]
    pub fn generate_unwrapping_impl(&self, gpparams: &GenProxyParams) -> (r: AdapterImplDef)
        requires
            wf_input(self@),
        ensures
            r.iface@ == self.name@,
            !r.infallible,
            !r.via_trait,
            r.trait_name@ == spec_resultified_trait_name(*self, *gpparams),
            r.proxy_name@ == spec_proxy_name(*self, *gpparams),
            r.level == gpparams.level,
            r.recv_error_bound == (self.params.returnval is Some),
            r.methods@.len() == self.methods@.len(),
            forall|i: int|
                0 <= i < self.methods@.len() ==> unwrapping_method_matches(
                    self.methods@[i],
                    #[trigger] r.methods@[i],
                    gpparams.level,
                    self.name@,
                    spec_proxy_name(*self, *gpparams),
                ),
    {
        let level = gpparams.level;
        let proxy_name = self.proxy_name(gpparams);
        let mut methods: Vec<AdapterMethod> = Vec::new();
        let n = self.methods.len();
        let mut i: usize = 0;
        while i < n
            invariant
                0 <= i <= n,
                methods@.len() == i,
                proxy_name@ == spec_proxy_name(*self, *gpparams),
                forall|k: int|
                    0 <= k < i ==> unwrapping_method_matches(
                        self.methods@[k],
                        #[trigger] methods@[k],
                        level,
                        self.name@,
                        spec_proxy_name(*self, *gpparams),
                    ),
            decreases n - i,
        {
            let m = &self.methods[i];
            let mut sig_args: Vec<(String, TyExpr)> = Vec::new();
            let na = m.args.len();
            let mut j: usize = 0;
            while j < na
                invariant
                    0 <= j <= na,
                    na == m.args@.len(),
                    sig_args@.len() == j,
                    forall|k: int|
                        0 <= k < j ==> (#[trigger] sig_args@[k]).0@ == m.args@[k].name@
                            && sig_args@[k].1@ == m.args@[k].ty@,
                decreases na - j,
            {
                let a = &m.args[j];
                sig_args.push((a.name.clone(), a.ty.duplicate()));
                j += 1;
            }
            let body = if ReceiverStyle::callee_can_call(m.receiver_style, level) {
                let mut tname = String::from_str("try_");
                tname.append(m.name.as_str());
                let adjust = match (m.receiver_style, level) {
                    (ReceiverStyle::Move, ReceiverStyle::Ref) => SelfAdjust::Borrow,
                    (ReceiverStyle::Move, ReceiverStyle::Mut) => SelfAdjust::BorrowMut,
                    _ => SelfAdjust::AsIs,
                };
                AdapterBody::ForwardUnwrap {
                    try_name: tname,
                    double_unwrap: m.ret.is_some(),
                    adjust,
                }
            } else {
                AdapterBody::Failure {
                    iface: self.name.clone(),
                    method: m.name.clone(),
                    proxy: proxy_name.clone(),
                }
            };
            methods.push(
                AdapterMethod {
                    name: m.name.clone(),
                    receiver: m.receiver_style,
                    args: sig_args,
                    ret: crate::model::duplicate_opt_ty(&m.ret),
                    body,
                },
            );
            i += 1;
        }
        AdapterImplDef {
            iface: self.name.clone(),
            infallible: false,
            via_trait: false,
            trait_name: self.resultified_trait_name(gpparams),
            proxy_name,
            level,
            recv_error_bound: self.params.returnval.is_some(),
            methods,
        }
    }
}

} // verus!
