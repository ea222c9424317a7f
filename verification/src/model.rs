//! The interface model and the configuration model: what an interface is
//! to this engine, and what the caller asked it to generate.

use crate::names::to_upper_camel;
use crate::names::upper_camel_of;
use crate::tokens::Tok;
use crate::tokens::TokV;
use vstd::prelude::*;
use vstd::string::StringExecFns;

verus! {

/// How a method takes its receiver: by value, by unique reference, or by
/// shared reference.
#[derive(Clone, Copy, Debug, PartialEq, Eq, Structural)]
pub enum ReceiverStyle {
    Move,
    Mut,
    Ref,
}

/// How much a convention demands of a *caller*: a by-value method is the
/// hardest to invoke through an adapter (the caller must give the object up),
/// a shared-reference method the easiest.
pub open spec fn caller_rank(s: ReceiverStyle) -> int {
    match s {
        ReceiverStyle::Ref => 0,
        ReceiverStyle::Mut => 1,
        ReceiverStyle::Move => 2,
    }
}

/// How much a convention demands of a *callee*: a shared-reference method is
/// the hardest to serve generically (an implementor holding only a shared
/// reference can never consume the object), a by-value method the easiest.
pub open spec fn callee_rank(s: ReceiverStyle) -> int {
    match s {
        ReceiverStyle::Move => 0,
        ReceiverStyle::Mut => 1,
        ReceiverStyle::Ref => 2,
    }
}

/// A dispatcher of convention `level` can invoke a method of convention
/// `method_style` exactly when the level grants at least as much receiver
/// access as the method needs.
pub open spec fn spec_can_call(level: ReceiverStyle, method_style: ReceiverStyle) -> bool {
    caller_rank(level) >= caller_rank(method_style)
}

/// A proxy offering convention `level` to its own callers can forward a
/// method of convention `method_style` exactly when the method needs no more
/// receiver access than the proxy's convention grants.
pub open spec fn spec_callee_can_call(method_style: ReceiverStyle, level: ReceiverStyle) -> bool {
    caller_rank(level) <= caller_rank(method_style)
}

impl ReceiverStyle {
    /// Whether a dispatcher of convention `self` may invoke a method of
    /// convention `method_style`.
    pub fn can_call(self, method_style: ReceiverStyle) -> (r: bool)
        ensures
            r == spec_can_call(self, method_style),
    {
        match (self, method_style) {
            (ReceiverStyle::Move, _) => true,
            (ReceiverStyle::Mut, ReceiverStyle::Move) => false,
            (ReceiverStyle::Mut, _) => true,
            (ReceiverStyle::Ref, ReceiverStyle::Ref) => true,
            (ReceiverStyle::Ref, _) => false,
        }
    }

    /// Whether a proxy of convention `self` can forward a method of
    /// convention `method_style` to its fallible mirror.
    pub fn callee_can_call(method_style: ReceiverStyle, level: ReceiverStyle) -> (r: bool)
        ensures
            r == spec_callee_can_call(method_style, level),
    {
        match (method_style, level) {
            (ReceiverStyle::Move, _) => true,
            (ReceiverStyle::Mut, ReceiverStyle::Move) => false,
            (ReceiverStyle::Mut, ReceiverStyle::Mut) => true,
            (ReceiverStyle::Mut, ReceiverStyle::Ref) => true,
            (ReceiverStyle::Ref, ReceiverStyle::Move) => false,
            (ReceiverStyle::Ref, ReceiverStyle::Mut) => false,
            (ReceiverStyle::Ref, ReceiverStyle::Ref) => true,
        }
    }

    /// The receiver token text of this convention.
    pub fn ts(self) -> (r: &'static str)
        ensures
            r@ == spec_receiver_text(self),
    {
        match self {
            ReceiverStyle::Move => "self",
            ReceiverStyle::Ref => "&self",
            ReceiverStyle::Mut => "&mut self",
        }
    }

    /// The function trait a proxy of this convention demands of its dispatch
    /// function.
    pub fn fn_trait(self) -> (r: &'static str)
        ensures
            r@ == spec_fn_trait_text(self),
    {
        match self {
            ReceiverStyle::Move => "FnOnce",
            ReceiverStyle::Mut => "FnMut",
            ReceiverStyle::Ref => "Fn",
        }
    }

    /// The default name of the dispatcher function of this convention.
    pub fn call_fn_name(self, returnval: bool) -> (r: &'static str)
        ensures
            r@ == spec_call_fn_name(self, returnval),
    {
        match (self, returnval) {
            (ReceiverStyle::Move, false) => "call_once",
            (ReceiverStyle::Mut, false) => "call_mut",
            (ReceiverStyle::Ref, false) => "call",
            (ReceiverStyle::Move, true) => "try_call_once",
            (ReceiverStyle::Mut, true) => "try_call_mut",
            (ReceiverStyle::Ref, true) => "try_call",
        }
    }

    /// The suffix distinguishing generated names of this convention.
    pub fn identpart(self) -> (r: &'static str)
        ensures
            r@ == spec_identpart(self),
    {
        match self {
            ReceiverStyle::Move => "Once",
            ReceiverStyle::Mut => "Mut",
            ReceiverStyle::Ref => "",
        }
    }
}

pub open spec fn spec_receiver_text(s: ReceiverStyle) -> Seq<char> {
    match s {
        ReceiverStyle::Move => "self"@,
        ReceiverStyle::Ref => "&self"@,
        ReceiverStyle::Mut => "&mut self"@,
    }
}

pub open spec fn spec_fn_trait_text(s: ReceiverStyle) -> Seq<char> {
    match s {
        ReceiverStyle::Move => "FnOnce"@,
        ReceiverStyle::Mut => "FnMut"@,
        ReceiverStyle::Ref => "Fn"@,
    }
}

pub open spec fn spec_call_fn_name(s: ReceiverStyle, returnval: bool) -> Seq<char> {
    match (s, returnval) {
        (ReceiverStyle::Move, false) => "call_once"@,
        (ReceiverStyle::Mut, false) => "call_mut"@,
        (ReceiverStyle::Ref, false) => "call"@,
        (ReceiverStyle::Move, true) => "try_call_once"@,
        (ReceiverStyle::Mut, true) => "try_call_mut"@,
        (ReceiverStyle::Ref, true) => "try_call"@,
    }
}

pub open spec fn spec_identpart(s: ReceiverStyle) -> Seq<char> {
    match s {
        ReceiverStyle::Move => "Once"@,
        ReceiverStyle::Mut => "Mut"@,
        ReceiverStyle::Ref => ""@,
    }
}

/// Visibility of every generated item.
#[derive(Clone, Copy, Debug, PartialEq, Eq, Structural)]
pub enum AccessMode {
    Priv,
    Pub,
    PubCrate,
}

impl AccessMode {
    /// The visibility token text of this access mode.
    pub fn code(self) -> (r: &'static str)
        ensures
            r@ == spec_access_text(self),
    {
        match self {
            AccessMode::Priv => "",
            AccessMode::Pub => "pub",
            AccessMode::PubCrate => "pub(crate)",
        }
    }
}

pub open spec fn spec_access_text(m: AccessMode) -> Seq<char> {
    match m {
        AccessMode::Priv => ""@,
        AccessMode::Pub => "pub"@,
        AccessMode::PubCrate => "pub(crate)"@,
    }
}

/// A type expression, as far as this engine reads one: whether it is a
/// reference type, and the text of the referent (or of the whole type when it
/// is not a reference).
#[derive(Debug)]
pub struct TyExpr {
    pub is_ref: bool,
    pub base: String,
}

impl TyExpr {
    /// A copy of this type expression with the same shape.
    pub fn duplicate(&self) -> (r: TyExpr)
        ensures
            r@ == self@,
    {
        TyExpr { is_ref: self.is_ref, base: self.base.clone() }
    }
}

/// A copy of an optional type expression with the same shape.
pub fn duplicate_opt_ty(t: &Option<TyExpr>) -> (r: Option<TyExpr>)
    ensures
        r.deep_view() == t.deep_view(),
{
    match t {
        Some(ty) => Some(ty.duplicate()),
        None => None,
    }
}

/// One typed method argument, with its generated-field options.
#[derive(Debug)]
pub struct Argument {
    pub name: String,
    pub ty: TyExpr,
    pub enum_attr: Vec<Tok>,
    pub to_owned: bool,
}

/// One interface method.
#[derive(Debug)]
pub struct Method {
    pub name: String,
    pub receiver_style: ReceiverStyle,
    pub args: Vec<Argument>,
    pub ret: Option<TyExpr>,
    pub enum_attr: Vec<Tok>,
    pub return_attr: Vec<Tok>,
    pub is_async: bool,
}

impl Method {
    /// The name of the command-enum variant this method maps to.
    pub fn variant_name(&self) -> (r: String)
        ensures
            r@ == upper_camel_of(self.name@),
    {
        to_upper_camel(self.name.as_str())
    }
}

/// One requested dispatcher function.
#[derive(Debug)]
pub struct CallFnParams {
    pub level: ReceiverStyle,
    pub allow_panic: bool,
    pub extra_arg: Option<Vec<Tok>>,
    pub name: Option<String>,
}

/// One requested proxy, together with which adapter impl (if any) to derive
/// for it.
#[derive(Debug)]
pub struct GenProxyParams {
    pub level: ReceiverStyle,
    pub gen_infallible: bool,
    pub gen_unwrapping: bool,
    pub gen_unwrapping_and_panicking: bool,
    pub extra_arg: Option<Vec<Tok>>,
    pub name: Option<String>,
    pub traitname: Option<String>,
}

impl GenProxyParams {
    /// Whether any adapter impl of the original interface was requested.
    pub fn some_impl_requested(&self) -> (r: bool)
        ensures
            r == spec_some_impl_requested(*self),
    {
        self.gen_infallible || self.gen_unwrapping || self.gen_unwrapping_and_panicking
    }
}

pub open spec fn spec_some_impl_requested(g: GenProxyParams) -> bool {
    g.gen_infallible || g.gen_unwrapping || g.gen_unwrapping_and_panicking
}

/// The whole configuration of one expansion.
#[derive(Debug)]
pub struct Params {
    pub ref_proxy: Option<GenProxyParams>,
    pub mut_proxy: Option<GenProxyParams>,
    pub once_proxy: Option<GenProxyParams>,
    pub call_ref: Option<CallFnParams>,
    pub call_mut: Option<CallFnParams>,
    pub call_once: Option<CallFnParams>,
    pub access_mode: AccessMode,
    pub returnval: Option<String>,
    pub enum_attr: Vec<Tok>,
    pub enum_name: Option<String>,
    pub inherent_impl_mode: bool,
}

/// The analyzed interface: its name, its methods in declaration order, and
/// the configuration under which it was analyzed.
#[derive(Debug)]
pub struct InputData {
    pub name: String,
    pub methods: Vec<Method>,
    pub params: Params,
}

/// The receiver conventions of a method sequence, in order.
pub open spec fn styles_of(methods: Seq<Method>) -> Seq<ReceiverStyle> {
    methods.map_values(|m: Method| m.receiver_style)
}

/// The receiver conventions of a method-shape sequence, in order.
pub open spec fn styles_of_v(methods: Seq<MethodV>) -> Seq<ReceiverStyle> {
    methods.map_values(|m: MethodV| m.receiver_style)
}

/// The conventions a method sequence and its shape sequence carry are the
/// same.
pub proof fn lemma_styles_of_view(methods: Vec<Method>)
    ensures
        styles_of(methods@) == styles_of_v(methods.deep_view()),
{
    assert(styles_of(methods@) =~= styles_of_v(methods.deep_view()));
}

pub open spec fn spec_some_impl_requested_v(g: GenProxyParamsV) -> bool {
    g.gen_infallible || g.gen_unwrapping || g.gen_unwrapping_and_panicking
}

/// Whether some method in the sequence uses convention `s`.
pub open spec fn has_style(styles: Seq<ReceiverStyle>, s: ReceiverStyle) -> bool {
    exists|i: int| 0 <= i < styles.len() && styles[i] == s
}

/// The most caller-restrictive convention present: any by-value method makes
/// the whole interface by-value for callers; otherwise any unique-reference
/// method makes it unique-reference; otherwise it is shared-reference.
pub open spec fn spec_most_inconvenient_for_caller(styles: Seq<ReceiverStyle>) -> ReceiverStyle {
    if has_style(styles, ReceiverStyle::Move) {
        ReceiverStyle::Move
    } else if has_style(styles, ReceiverStyle::Mut) {
        ReceiverStyle::Mut
    } else {
        ReceiverStyle::Ref
    }
}

/// The most callee-restrictive convention present: any shared-reference
/// method forces shared-reference treatment of the whole interface; otherwise
/// any unique-reference method forces unique-reference; otherwise by-value.
pub open spec fn spec_most_inconvenient_for_callee(styles: Seq<ReceiverStyle>) -> ReceiverStyle {
    if has_style(styles, ReceiverStyle::Ref) {
        ReceiverStyle::Ref
    } else if has_style(styles, ReceiverStyle::Mut) {
        ReceiverStyle::Mut
    } else {
        ReceiverStyle::Move
    }
}

/// The one convention all methods share, if they do share one; `None` for an
/// empty interface or a mixed one.
pub open spec fn spec_sole_receiver_style(styles: Seq<ReceiverStyle>) -> Option<ReceiverStyle> {
    if styles.len() == 0 {
        None
    } else if forall|i: int| 0 <= i < styles.len() ==> #[trigger] styles[i] == styles[0] {
        Some(styles[0])
    } else {
        None
    }
}

pub proof fn lemma_has_style_push(styles: Seq<ReceiverStyle>, x: ReceiverStyle, s: ReceiverStyle)
    ensures
        has_style(styles.push(x), s) <==> (has_style(styles, s) || x == s),
{
    if has_style(styles, s) {
        let i = choose|i: int| 0 <= i < styles.len() && styles[i] == s;
        assert(styles.push(x)[i] == s);
    }
    if x == s {
        assert(styles.push(x)[styles.len() as int] == s);
    }
    if has_style(styles.push(x), s) {
        let i = choose|i: int| 0 <= i < styles.push(x).len() && styles.push(x)[i] == s;
        if i < styles.len() {
            assert(styles[i] == s);
        }
    }
}

/// Convention monotonicity, caller side: adding one by-value method pins the
/// caller-side fold to by-value.
pub proof fn lemma_caller_fold_add_move(styles: Seq<ReceiverStyle>)
    ensures
        spec_most_inconvenient_for_caller(styles.push(ReceiverStyle::Move)) == ReceiverStyle::Move,
{
    lemma_has_style_push(styles, ReceiverStyle::Move, ReceiverStyle::Move);
}

/// Convention monotonicity, callee side: adding one shared-reference method
/// pins the callee-side fold to shared-reference.
pub proof fn lemma_callee_fold_add_ref(styles: Seq<ReceiverStyle>)
    ensures
        spec_most_inconvenient_for_callee(styles.push(ReceiverStyle::Ref)) == ReceiverStyle::Ref,
{
    lemma_has_style_push(styles, ReceiverStyle::Ref, ReceiverStyle::Ref);
}

/// Adding a method never lowers the caller-side fold's rank.
pub proof fn lemma_caller_fold_monotone(styles: Seq<ReceiverStyle>, x: ReceiverStyle)
    ensures
        caller_rank(spec_most_inconvenient_for_caller(styles.push(x))) >= caller_rank(
            spec_most_inconvenient_for_caller(styles),
        ),
{
    lemma_has_style_push(styles, x, ReceiverStyle::Move);
    lemma_has_style_push(styles, x, ReceiverStyle::Mut);
    lemma_has_style_push(styles, x, ReceiverStyle::Ref);
}

/// Adding a method never lowers the callee-side fold's rank.
pub proof fn lemma_callee_fold_monotone(styles: Seq<ReceiverStyle>, x: ReceiverStyle)
    ensures
        callee_rank(spec_most_inconvenient_for_callee(styles.push(x))) >= callee_rank(
            spec_most_inconvenient_for_callee(styles),
        ),
{
    lemma_has_style_push(styles, x, ReceiverStyle::Move);
    lemma_has_style_push(styles, x, ReceiverStyle::Mut);
    lemma_has_style_push(styles, x, ReceiverStyle::Ref);
}

/// A well-formed analysis result: a method declares a return type only when a
/// return-value channel class is configured.
pub open spec fn wf_input(d: InputDataV) -> bool {
    forall|i: int|
        0 <= i < d.methods.len() && #[trigger] d.methods[i].ret is Some ==> d.params.returnval
            is Some
}

impl InputData {
    /// The name of the generated command enum.
    pub fn enum_name(&self) -> (r: String)
        ensures
            r@ == spec_enum_name(*self),
    {
        match &self.params.enum_name {
            Some(n) => n.clone(),
            None => {
                let mut s = self.name.clone();
                s.append("Enum");
                s
            },
        }
    }

    /// The name of the fallible mirror trait for one proxy request.
    pub fn resultified_trait_name(&self, gpparams: &GenProxyParams) -> (r: String)
        ensures
            r@ == spec_resultified_trait_name(*self, *gpparams),
    {
        match &gpparams.traitname {
            Some(n) => n.clone(),
            None => {
                let mut s = self.name.clone();
                s.append("Resultified");
                s.append(gpparams.level.identpart());
                s
            },
        }
    }

    /// The name of the generated proxy type for one proxy request.
    pub fn proxy_name(&self, gpparams: &GenProxyParams) -> (r: String)
        ensures
            r@ == spec_proxy_name(*self, *gpparams),
    {
        match &gpparams.name {
            Some(n) => n.clone(),
            None => {
                let mut s = self.name.clone();
                s.append("Proxy");
                s.append(gpparams.level.identpart());
                s
            },
        }
    }

    /// The most caller-restrictive convention among this interface's methods.
    pub fn receiver_style_that_is_the_most_inconvenient_for_caller(&self) -> (r: ReceiverStyle)
        ensures
            r == spec_most_inconvenient_for_caller(styles_of(self.methods@)),
    {
        let ghost all = styles_of(self.methods@);
        let mut style = ReceiverStyle::Ref;
        let n = self.methods.len();
        let mut i: usize = 0;
        while i < n
            invariant
                n == self.methods@.len(),
                all == styles_of(self.methods@),
                0 <= i <= n,
                style == spec_most_inconvenient_for_caller(all.take(i as int)),
            decreases n - i,
        {
            let cur = self.methods[i].receiver_style;
            proof {
                assert(all.take(i + 1 as int) =~= all.take(i as int).push(cur));
                lemma_has_style_push(all.take(i as int), cur, ReceiverStyle::Move);
                lemma_has_style_push(all.take(i as int), cur, ReceiverStyle::Mut);
            }
            match (style, cur) {
                (_, ReceiverStyle::Move) => {
                    style = ReceiverStyle::Move;
                },
                (_, ReceiverStyle::Ref) => {},
                (ReceiverStyle::Move, ReceiverStyle::Mut) => {},
                (ReceiverStyle::Ref, ReceiverStyle::Mut) => {
                    style = ReceiverStyle::Mut;
                },
                (ReceiverStyle::Mut, ReceiverStyle::Mut) => {},
            }
            i += 1;
        }
        proof {
            assert(all.take(n as int) =~= all);
        }
        style
    }

    /// The most callee-restrictive convention among this interface's methods.
    pub fn receiver_style_that_is_the_most_inconvenient_for_callee(&self) -> (r: ReceiverStyle)
        ensures
            r == spec_most_inconvenient_for_callee(styles_of(self.methods@)),
    {
        let ghost all = styles_of(self.methods@);
        let mut style = ReceiverStyle::Move;
        let n = self.methods.len();
        let mut i: usize = 0;
        while i < n
            invariant
                n == self.methods@.len(),
                all == styles_of(self.methods@),
                0 <= i <= n,
                style == spec_most_inconvenient_for_callee(all.take(i as int)),
            decreases n - i,
        {
            let cur = self.methods[i].receiver_style;
            proof {
                assert(all.take(i + 1 as int) =~= all.take(i as int).push(cur));
                lemma_has_style_push(all.take(i as int), cur, ReceiverStyle::Ref);
                lemma_has_style_push(all.take(i as int), cur, ReceiverStyle::Mut);
            }
            match (style, cur) {
                (_, ReceiverStyle::Ref) => {
                    style = ReceiverStyle::Ref;
                },
                (_, ReceiverStyle::Move) => {},
                (ReceiverStyle::Ref, ReceiverStyle::Mut) => {},
                (ReceiverStyle::Move, ReceiverStyle::Mut) => {
                    style = ReceiverStyle::Mut;
                },
                (ReceiverStyle::Mut, ReceiverStyle::Mut) => {},
            }
            i += 1;
        }
        proof {
            assert(all.take(n as int) =~= all);
        }
        style
    }

    /// The one convention all methods share, if any.
    pub fn sole_receiver_style(&self) -> (r: Option<ReceiverStyle>)
        ensures
            r == spec_sole_receiver_style(styles_of(self.methods@)),
    {
        let ghost all = styles_of(self.methods@);
        let mut style: Option<ReceiverStyle> = None;
        let n = self.methods.len();
        let mut i: usize = 0;
        while i < n
            invariant
                n == self.methods@.len(),
                all == styles_of(self.methods@),
                0 <= i <= n,
                i == 0 ==> style is None,
                i > 0 ==> style == Some(all[0]),
                forall|j: int| 0 <= j < i ==> #[trigger] all[j] == all[0],
            decreases n - i,
        {
            let cur = self.methods[i].receiver_style;
            match style {
                None => {
                    style = Some(cur);
                },
                Some(t) => {
                    if cur != t {
                        proof {
                            assert(all[i as int] != all[0]);
                        }
                        return None;
                    }
                },
            }
            i += 1;
        }
        style
    }
}

pub open spec fn spec_enum_name(d: InputData) -> Seq<char> {
    match d.params.enum_name {
        Some(n) => n@,
        None => d.name@ + "Enum"@,
    }
}

pub open spec fn spec_resultified_trait_name(d: InputData, g: GenProxyParams) -> Seq<char> {
    match g.traitname {
        Some(n) => n@,
        None => d.name@ + "Resultified"@ + spec_identpart(g.level),
    }
}

pub open spec fn spec_proxy_name(d: InputData, g: GenProxyParams) -> Seq<char> {
    match g.name {
        Some(n) => n@,
        None => d.name@ + "Proxy"@ + spec_identpart(g.level),
    }
}


/// Mathematical shape of a type expression.
pub struct TyExprV {
    pub is_ref: bool,
    pub base: Seq<char>,
}

/// Mathematical shape of an argument.
pub struct ArgumentV {
    pub name: Seq<char>,
    pub ty: TyExprV,
    pub enum_attr: Seq<TokV>,
    pub to_owned: bool,
}

/// Mathematical shape of a method.
pub struct MethodV {
    pub name: Seq<char>,
    pub receiver_style: ReceiverStyle,
    pub args: Seq<ArgumentV>,
    pub ret: Option<TyExprV>,
    pub enum_attr: Seq<TokV>,
    pub return_attr: Seq<TokV>,
    pub is_async: bool,
}

/// Mathematical shape of a dispatcher request.
pub struct CallFnParamsV {
    pub level: ReceiverStyle,
    pub allow_panic: bool,
    pub extra_arg: Option<Seq<TokV>>,
    pub name: Option<Seq<char>>,
}

/// Mathematical shape of a proxy request.
pub struct GenProxyParamsV {
    pub level: ReceiverStyle,
    pub gen_infallible: bool,
    pub gen_unwrapping: bool,
    pub gen_unwrapping_and_panicking: bool,
    pub extra_arg: Option<Seq<TokV>>,
    pub name: Option<Seq<char>>,
    pub traitname: Option<Seq<char>>,
}

/// Mathematical shape of a configuration.
pub struct ParamsV {
    pub ref_proxy: Option<GenProxyParamsV>,
    pub mut_proxy: Option<GenProxyParamsV>,
    pub once_proxy: Option<GenProxyParamsV>,
    pub call_ref: Option<CallFnParamsV>,
    pub call_mut: Option<CallFnParamsV>,
    pub call_once: Option<CallFnParamsV>,
    pub access_mode: AccessMode,
    pub returnval: Option<Seq<char>>,
    pub enum_attr: Seq<TokV>,
    pub enum_name: Option<Seq<char>>,
    pub inherent_impl_mode: bool,
}

/// Mathematical shape of an analyzed interface.
pub struct InputDataV {
    pub name: Seq<char>,
    pub methods: Seq<MethodV>,
    pub params: ParamsV,
}

impl View for TyExpr {
    type V = TyExprV;

    open spec fn view(&self) -> TyExprV {
        TyExprV { is_ref: self.is_ref, base: self.base@ }
    }
}

impl DeepView for TyExpr {
    type V = TyExprV;

    open spec fn deep_view(&self) -> TyExprV {
        self.view()
    }
}

impl View for Argument {
    type V = ArgumentV;

    open spec fn view(&self) -> ArgumentV {
        ArgumentV {
            name: self.name@,
            ty: self.ty@,
            enum_attr: self.enum_attr.deep_view(),
            to_owned: self.to_owned,
        }
    }
}

impl DeepView for Argument {
    type V = ArgumentV;

    open spec fn deep_view(&self) -> ArgumentV {
        self.view()
    }
}

impl View for Method {
    type V = MethodV;

    open spec fn view(&self) -> MethodV {
        MethodV {
            name: self.name@,
            receiver_style: self.receiver_style,
            args: self.args.deep_view(),
            ret: self.ret.deep_view(),
            enum_attr: self.enum_attr.deep_view(),
            return_attr: self.return_attr.deep_view(),
            is_async: self.is_async,
        }
    }
}

impl DeepView for Method {
    type V = MethodV;

    open spec fn deep_view(&self) -> MethodV {
        self.view()
    }
}

impl View for CallFnParams {
    type V = CallFnParamsV;

    open spec fn view(&self) -> CallFnParamsV {
        CallFnParamsV {
            level: self.level,
            allow_panic: self.allow_panic,
            extra_arg: match self.extra_arg {
                Some(ts) => Some(ts.deep_view()),
                None => None,
            },
            name: self.name.deep_view(),
        }
    }
}

impl DeepView for CallFnParams {
    type V = CallFnParamsV;

    open spec fn deep_view(&self) -> CallFnParamsV {
        self.view()
    }
}

impl View for GenProxyParams {
    type V = GenProxyParamsV;

    open spec fn view(&self) -> GenProxyParamsV {
        GenProxyParamsV {
            level: self.level,
            gen_infallible: self.gen_infallible,
            gen_unwrapping: self.gen_unwrapping,
            gen_unwrapping_and_panicking: self.gen_unwrapping_and_panicking,
            extra_arg: match self.extra_arg {
                Some(ts) => Some(ts.deep_view()),
                None => None,
            },
            name: self.name.deep_view(),
            traitname: self.traitname.deep_view(),
        }
    }
}

impl DeepView for GenProxyParams {
    type V = GenProxyParamsV;

    open spec fn deep_view(&self) -> GenProxyParamsV {
        self.view()
    }
}

impl View for Params {
    type V = ParamsV;

    open spec fn view(&self) -> ParamsV {
        ParamsV {
            ref_proxy: self.ref_proxy.deep_view(),
            mut_proxy: self.mut_proxy.deep_view(),
            once_proxy: self.once_proxy.deep_view(),
            call_ref: self.call_ref.deep_view(),
            call_mut: self.call_mut.deep_view(),
            call_once: self.call_once.deep_view(),
            access_mode: self.access_mode,
            returnval: self.returnval.deep_view(),
            enum_attr: self.enum_attr.deep_view(),
            enum_name: self.enum_name.deep_view(),
            inherent_impl_mode: self.inherent_impl_mode,
        }
    }
}

impl DeepView for Params {
    type V = ParamsV;

    open spec fn deep_view(&self) -> ParamsV {
        self.view()
    }
}

impl View for InputData {
    type V = InputDataV;

    open spec fn view(&self) -> InputDataV {
        InputDataV { name: self.name@, methods: self.methods.deep_view(), params: self.params@ }
    }
}

impl DeepView for InputData {
    type V = InputDataV;

    open spec fn deep_view(&self) -> InputDataV {
        self.view()
    }
}

} // verus!
