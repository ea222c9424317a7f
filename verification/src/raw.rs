//! A plain model of a raw interface definition, as far as the analyzer reads
//! one: an abstract trait block or a concrete type's method block.

use crate::model::TyExpr;
use crate::model::TyExprV;
use crate::tokens::Tok;
use crate::tokens::TokV;
use vstd::prelude::*;

verus! {

/// The receiver parameter of a method, as declared.
#[derive(Clone, Copy, Debug)]
pub struct RawReceiver {
    pub reference: bool,
    pub lifetime: bool,
    pub mutability: bool,
}

/// One attribute on a method or an argument: the single identifier of its
/// path, if the path is one, and its argument tokens.
#[derive(Debug)]
pub struct RawAttr {
    pub path_ident: Option<String>,
    pub tokens: Vec<Tok>,
}

/// Mathematical shape of an attribute.
pub struct RawAttrV {
    pub path_ident: Option<Seq<char>>,
    pub tokens: Seq<TokV>,
}

impl View for RawAttr {
    type V = RawAttrV;

    open spec fn view(&self) -> RawAttrV {
        RawAttrV { path_ident: self.path_ident.deep_view(), tokens: self.tokens.deep_view() }
    }
}

impl DeepView for RawAttr {
    type V = RawAttrV;

    open spec fn deep_view(&self) -> RawAttrV {
        self.view()
    }
}

impl RawAttr {
    /// A copy of this attribute with the same shape.
    pub fn duplicate(&self) -> (r: RawAttr)
        ensures
            r@ == self@,
    {
        RawAttr {
            path_ident: match &self.path_ident {
                Some(p) => Some(p.clone()),
                None => None,
            },
            tokens: crate::tokens::duplicate_toks(&self.tokens),
        }
    }
}

/// The binding pattern of a typed argument.
#[derive(Debug)]
pub enum RawPat {
    Ident { by_ref: bool, name: String },
    Other,
}

/// Mathematical shape of a binding pattern.
pub enum RawPatV {
    Ident { by_ref: bool, name: Seq<char> },
    Other,
}

impl View for RawPat {
    type V = RawPatV;

    open spec fn view(&self) -> RawPatV {
        match self {
            RawPat::Ident { by_ref, name } => RawPatV::Ident { by_ref: *by_ref, name: name@ },
            RawPat::Other => RawPatV::Other,
        }
    }
}

impl DeepView for RawPat {
    type V = RawPatV;

    open spec fn deep_view(&self) -> RawPatV {
        self.view()
    }
}

/// One non-receiver parameter.
#[derive(Debug)]
pub struct RawTypedArg {
    pub attrs: Vec<RawAttr>,
    pub pat: RawPat,
    pub ty: TyExpr,
}

/// Mathematical shape of a non-receiver parameter.
pub struct RawTypedArgV {
    pub attrs: Seq<RawAttrV>,
    pub pat: RawPatV,
    pub ty: TyExprV,
}

impl View for RawTypedArg {
    type V = RawTypedArgV;

    open spec fn view(&self) -> RawTypedArgV {
        RawTypedArgV { attrs: self.attrs.deep_view(), pat: self.pat@, ty: self.ty@ }
    }
}

impl DeepView for RawTypedArg {
    type V = RawTypedArgV;

    open spec fn deep_view(&self) -> RawTypedArgV {
        self.view()
    }
}

/// One declared parameter of a method.
#[derive(Debug)]
pub enum RawFnArg {
    Receiver(RawReceiver),
    Typed(RawTypedArg),
}

/// Mathematical shape of a declared parameter.
pub enum RawFnArgV {
    Receiver(RawReceiver),
    Typed(RawTypedArgV),
}

impl View for RawFnArg {
    type V = RawFnArgV;

    open spec fn view(&self) -> RawFnArgV {
        match self {
            RawFnArg::Receiver(r) => RawFnArgV::Receiver(*r),
            RawFnArg::Typed(t) => RawFnArgV::Typed(t@),
        }
    }
}

impl DeepView for RawFnArg {
    type V = RawFnArgV;

    open spec fn deep_view(&self) -> RawFnArgV {
        self.view()
    }
}

/// A method signature, with the declaration features the analyzer inspects.
#[derive(Debug)]
pub struct RawSignature {
    pub name: String,
    pub constness: bool,
    pub asyncness: bool,
    pub unsafety: bool,
    pub abi: bool,
    pub generics: bool,
    pub variadic: bool,
    pub inputs: Vec<RawFnArg>,
    pub output: Option<TyExpr>,
}

/// Mathematical shape of a method signature.
pub struct RawSignatureV {
    pub name: Seq<char>,
    pub constness: bool,
    pub asyncness: bool,
    pub unsafety: bool,
    pub abi: bool,
    pub generics: bool,
    pub variadic: bool,
    pub inputs: Seq<RawFnArgV>,
    pub output: Option<TyExprV>,
}

impl View for RawSignature {
    type V = RawSignatureV;

    open spec fn view(&self) -> RawSignatureV {
        RawSignatureV {
            name: self.name@,
            constness: self.constness,
            asyncness: self.asyncness,
            unsafety: self.unsafety,
            abi: self.abi,
            generics: self.generics,
            variadic: self.variadic,
            inputs: self.inputs.deep_view(),
            output: self.output.deep_view(),
        }
    }
}

impl DeepView for RawSignature {
    type V = RawSignatureV;

    open spec fn deep_view(&self) -> RawSignatureV {
        self.view()
    }
}

/// One declared method, with its attributes.
#[derive(Debug)]
pub struct RawMethod {
    pub attrs: Vec<RawAttr>,
    pub sig: RawSignature,
    pub defaultness: bool,
}

/// Mathematical shape of a declared method.
pub struct RawMethodV {
    pub attrs: Seq<RawAttrV>,
    pub sig: RawSignatureV,
    pub defaultness: bool,
}

impl View for RawMethod {
    type V = RawMethodV;

    open spec fn view(&self) -> RawMethodV {
        RawMethodV { attrs: self.attrs.deep_view(), sig: self.sig@, defaultness: self.defaultness }
    }
}

impl DeepView for RawMethod {
    type V = RawMethodV;

    open spec fn deep_view(&self) -> RawMethodV {
        self.view()
    }
}

/// One item of an abstract trait block.
#[derive(Debug)]
pub enum RawTraitItem {
    Method(RawMethod),
    AssocConst,
    AssocType,
    MacroCall,
    Other,
}

/// Mathematical shape of a trait item.
pub enum RawTraitItemV {
    Method(RawMethodV),
    AssocConst,
    AssocType,
    MacroCall,
    Other,
}

impl View for RawTraitItem {
    type V = RawTraitItemV;

    open spec fn view(&self) -> RawTraitItemV {
        match self {
            RawTraitItem::Method(m) => RawTraitItemV::Method(m@),
            RawTraitItem::AssocConst => RawTraitItemV::AssocConst,
            RawTraitItem::AssocType => RawTraitItemV::AssocType,
            RawTraitItem::MacroCall => RawTraitItemV::MacroCall,
            RawTraitItem::Other => RawTraitItemV::Other,
        }
    }
}

impl DeepView for RawTraitItem {
    type V = RawTraitItemV;

    open spec fn deep_view(&self) -> RawTraitItemV {
        self.view()
    }
}

/// An abstract trait block.
#[derive(Debug)]
pub struct RawTrait {
    pub name: String,
    pub items: Vec<RawTraitItem>,
}

/// Mathematical shape of a trait block.
pub struct RawTraitV {
    pub name: Seq<char>,
    pub items: Seq<RawTraitItemV>,
}

impl View for RawTrait {
    type V = RawTraitV;

    open spec fn view(&self) -> RawTraitV {
        RawTraitV { name: self.name@, items: self.items.deep_view() }
    }
}

impl DeepView for RawTrait {
    type V = RawTraitV;

    open spec fn deep_view(&self) -> RawTraitV {
        self.view()
    }
}

/// The type a concrete method block implements, as far as the analyzer reads
/// it.
#[derive(Debug)]
pub enum RawSelfTy {
    Ident(String),
    Qualified,
    MultiSegmentPath,
    NotPath,
}

/// Mathematical shape of the implemented type.
pub enum RawSelfTyV {
    Ident(Seq<char>),
    Qualified,
    MultiSegmentPath,
    NotPath,
}

impl View for RawSelfTy {
    type V = RawSelfTyV;

    open spec fn view(&self) -> RawSelfTyV {
        match self {
            RawSelfTy::Ident(s) => RawSelfTyV::Ident(s@),
            RawSelfTy::Qualified => RawSelfTyV::Qualified,
            RawSelfTy::MultiSegmentPath => RawSelfTyV::MultiSegmentPath,
            RawSelfTy::NotPath => RawSelfTyV::NotPath,
        }
    }
}

impl DeepView for RawSelfTy {
    type V = RawSelfTyV;

    open spec fn deep_view(&self) -> RawSelfTyV {
        self.view()
    }
}

/// One item of a concrete method block.
#[derive(Debug)]
pub enum RawImplItem {
    Method(RawMethod),
    Other,
}

/// Mathematical shape of a method-block item.
pub enum RawImplItemV {
    Method(RawMethodV),
    Other,
}

impl View for RawImplItem {
    type V = RawImplItemV;

    open spec fn view(&self) -> RawImplItemV {
        match self {
            RawImplItem::Method(m) => RawImplItemV::Method(m@),
            RawImplItem::Other => RawImplItemV::Other,
        }
    }
}

impl DeepView for RawImplItem {
    type V = RawImplItemV;

    open spec fn deep_view(&self) -> RawImplItemV {
        self.view()
    }
}

/// A concrete type's method block.
#[derive(Debug)]
pub struct RawImpl {
    pub defaultness: bool,
    pub unsafety: bool,
    pub generics: bool,
    pub where_clause: bool,
    pub trait_impl: bool,
    pub self_ty: RawSelfTy,
    pub items: Vec<RawImplItem>,
}

/// Mathematical shape of a method block.
pub struct RawImplV {
    pub defaultness: bool,
    pub unsafety: bool,
    pub generics: bool,
    pub where_clause: bool,
    pub trait_impl: bool,
    pub self_ty: RawSelfTyV,
    pub items: Seq<RawImplItemV>,
}

impl View for RawImpl {
    type V = RawImplV;

    open spec fn view(&self) -> RawImplV {
        RawImplV {
            defaultness: self.defaultness,
            unsafety: self.unsafety,
            generics: self.generics,
            where_clause: self.where_clause,
            trait_impl: self.trait_impl,
            self_ty: self.self_ty@,
            items: self.items.deep_view(),
        }
    }
}

impl DeepView for RawImpl {
    type V = RawImplV;

    open spec fn deep_view(&self) -> RawImplV {
        self.view()
    }
}

} // verus!
