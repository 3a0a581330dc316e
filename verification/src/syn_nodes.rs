//! Trusted constructors for the renderable `syn` nodes the lowering
//! produces. Each builds exactly one node from plain values; every name
//! handed to `proc_macro2::Ident::new` must be a valid identifier, or
//! that constructor panics.
//!
//! Each constructor is a function of its arguments alone (spans here
//! are the fixed call-site value), so its result is pinned by an
//! uninterpreted name: the lowering's contracts speak of those names.

use vstd::prelude::*;

use crate::decl::{ParameterUsage, StatementModel};
use crate::ident::is_ident;

verus! {

#[verifier::external_type_specification]
#[verifier::external_body]
pub struct ExSynItem(syn::Item);

#[verifier::external_type_specification]
#[verifier::external_body]
pub struct ExSynImplItem(syn::ImplItem);

#[verifier::external_type_specification]
#[verifier::external_body]
pub struct ExSynType(syn::Type);

#[verifier::external_type_specification]
#[verifier::external_body]
pub struct ExSynPath(syn::Path);

#[verifier::external_type_specification]
#[verifier::external_body]
pub struct ExSynStmt(syn::Stmt);

#[verifier::external_type_specification]
#[verifier::external_body]
pub struct ExSynFnArg(syn::FnArg);

#[verifier::external_type_specification]
#[verifier::external_body]
pub struct ExSynVisibility(syn::Visibility);

/// The `syn` type node written `name`.
pub uninterp spec fn named_type_node(name: Seq<char>) -> syn::Type;

/// The `syn` type node written `name<arg>`.
pub uninterp spec fn generic_type_node(name: Seq<char>, arg: syn::Type) -> syn::Type;

/// The `syn` path node written `name`.
pub uninterp spec fn named_path_node(name: Seq<char>) -> syn::Path;

/// The `syn` path node written `name<arg>`.
pub uninterp spec fn generic_path_node(name: Seq<char>, arg: syn::Type) -> syn::Path;

/// The `syn` member node written `const name: ty = value;`.
pub uninterp spec fn const_member_node(name: Seq<char>, ty: syn::Type, value: u64) -> syn::ImplItem;

/// The `syn` member node written `type name = ty;`.
pub uninterp spec fn assoc_type_member_node(name: Seq<char>, ty: syn::Type) -> syn::ImplItem;

/// The `syn` receiver node: `&self` for a borrowing receiver, `self`
/// for a consuming one.
pub uninterp spec fn receiver_node(usage: ParameterUsage) -> syn::FnArg;

/// The `syn` parameter node written `name: ty`.
pub uninterp spec fn owned_arg_node(name: Seq<char>, ty: syn::Type) -> syn::FnArg;

/// The `syn` parameter node written `name: &ty`.
pub uninterp spec fn ref_arg_node(name: Seq<char>, ty: syn::Type) -> syn::FnArg;

/// The single straight-line `syn` statement a body operation lowers to.
pub uninterp spec fn stmt_node(s: StatementModel) -> syn::Stmt;

/// The `syn` visibility node: `pub` when explicit, nothing otherwise.
pub uninterp spec fn visibility_node(explicit: bool) -> syn::Visibility;

/// The `syn` method node with the given visibility, name, inputs,
/// return type and body statements.
pub uninterp spec fn method_node(
    vis: syn::Visibility,
    name: Seq<char>,
    inputs: Seq<syn::FnArg>,
    ret: Option<syn::Type>,
    stmts: Seq<syn::Stmt>,
) -> syn::ImplItem;

/// The `syn` item node written `impl trait_path for self_ty { items }`.
pub uninterp spec fn impl_item_node(
    trait_path: syn::Path,
    self_ty: syn::Type,
    items: Seq<syn::ImplItem>,
) -> syn::Item;

/// Relies on proc_macro2::Ident::new and syn::Path: the type reference
/// written `name`.
#[verifier::external_body]
pub(crate) fn syn_named_type(name: &str) -> (r: syn::Type)
    requires
        is_ident(name@),
    ensures
        r == named_type_node(name@),
{
    syn::Type::Path(syn::TypePath {
        qself: None,
        path: syn::Path::from(syn::Ident::new(name, proc_macro2::Span::call_site())),
    })
}

/// Relies on proc_macro2::Ident::new and syn's generic-argument nodes:
/// the type reference written `name<arg>`.
#[verifier::external_body]
pub(crate) fn syn_generic_type(name: &str, arg: syn::Type) -> (r: syn::Type)
    requires
        is_ident(name@),
    ensures
        r == generic_type_node(name@, arg),
{
    let args = syn::AngleBracketedGenericArguments {
        colon2_token: None,
        lt_token: Default::default(),
        args: std::iter::once(syn::GenericArgument::Type(arg)).collect(),
        gt_token: Default::default(),
    };
    let segment = syn::PathSegment {
        ident: syn::Ident::new(name, proc_macro2::Span::call_site()),
        arguments: syn::PathArguments::AngleBracketed(args),
    };
    syn::Type::Path(syn::TypePath { qself: None, path: syn::Path::from(segment) })
}

/// Relies on proc_macro2::Ident::new and syn::Path: the trait path
/// written `name`.
#[verifier::external_body]
pub(crate) fn syn_named_path(name: &str) -> (r: syn::Path)
    requires
        is_ident(name@),
    ensures
        r == named_path_node(name@),
{
    syn::Path::from(syn::Ident::new(name, proc_macro2::Span::call_site()))
}

/// Relies on proc_macro2::Ident::new and syn's generic-argument nodes:
/// the trait path written `name<arg>`.
#[verifier::external_body]
pub(crate) fn syn_generic_path(name: &str, arg: syn::Type) -> (r: syn::Path)
    requires
        is_ident(name@),
    ensures
        r == generic_path_node(name@, arg),
{
    let args = syn::AngleBracketedGenericArguments {
        colon2_token: None,
        lt_token: Default::default(),
        args: std::iter::once(syn::GenericArgument::Type(arg)).collect(),
        gt_token: Default::default(),
    };
    let segment = syn::PathSegment {
        ident: syn::Ident::new(name, proc_macro2::Span::call_site()),
        arguments: syn::PathArguments::AngleBracketed(args),
    };
    syn::Path::from(segment)
}

/// Relies on syn::LitInt::new and proc_macro2::Ident::new: the member
/// written `const name: ty = value;`.
#[verifier::external_body]
pub(crate) fn syn_const_member(name: &str, ty: syn::Type, value: u64) -> (r: syn::ImplItem)
    requires
        is_ident(name@),
    ensures
        r == const_member_node(name@, ty, value),
{
    let lit = syn::LitInt::new(&format!("{}", value), proc_macro2::Span::call_site());
    syn::ImplItem::Const(syn::ImplItemConst {
        attrs: vec![],
        vis: syn::Visibility::Inherited,
        defaultness: None,
        const_token: Default::default(),
        ident: syn::Ident::new(name, proc_macro2::Span::call_site()),
        colon_token: Default::default(),
        ty,
        eq_token: Default::default(),
        expr: syn::Expr::Lit(syn::ExprLit { attrs: vec![], lit: syn::Lit::Int(lit) }),
        semi_token: Default::default(),
    })
}

/// Relies on proc_macro2::Ident::new: the member written
/// `type name = ty;`.
#[verifier::external_body]
pub(crate) fn syn_assoc_type_member(name: &str, ty: syn::Type) -> (r: syn::ImplItem)
    requires
        is_ident(name@),
    ensures
        r == assoc_type_member_node(name@, ty),
{
    syn::ImplItem::Type(syn::ImplItemType {
        attrs: vec![],
        vis: syn::Visibility::Inherited,
        defaultness: None,
        type_token: Default::default(),
        ident: syn::Ident::new(name, proc_macro2::Span::call_site()),
        generics: Default::default(),
        eq_token: Default::default(),
        ty,
        semi_token: Default::default(),
    })
}

/// Relies on syn::Receiver: the borrowing receiver written `&self`.
#[verifier::external_body]
pub(crate) fn syn_receiver_ref() -> (r: syn::FnArg)
    ensures
        r == receiver_node(ParameterUsage::Ref),
{
    syn::FnArg::Receiver(syn::Receiver {
        attrs: vec![],
        reference: Some((Default::default(), None)),
        mutability: None,
        self_token: Default::default(),
    })
}

/// Relies on syn::Receiver: the consuming receiver written `self`.
#[verifier::external_body]
pub(crate) fn syn_receiver_owned() -> (r: syn::FnArg)
    ensures
        r == receiver_node(ParameterUsage::Owned),
{
    syn::FnArg::Receiver(syn::Receiver {
        attrs: vec![],
        reference: None,
        mutability: None,
        self_token: Default::default(),
    })
}

/// Relies on proc_macro2::Ident::new and syn's pattern nodes: the
/// parameter written `name: ty`.
#[verifier::external_body]
pub(crate) fn syn_owned_arg(name: &str, ty: syn::Type) -> (r: syn::FnArg)
    requires
        is_ident(name@),
    ensures
        r == owned_arg_node(name@, ty),
{
    let pat = syn::Pat::Ident(syn::PatIdent {
        attrs: vec![], by_ref: None, mutability: None, subpat: None,
        ident: syn::Ident::new(name, proc_macro2::Span::call_site()),
    });
    syn::FnArg::Typed(syn::PatType {
        attrs: vec![], pat: Box::new(pat), colon_token: Default::default(), ty: Box::new(ty),
    })
}

/// Relies on proc_macro2::Ident::new and syn's pattern nodes: the
/// parameter written `name: &ty`.
#[verifier::external_body]
pub(crate) fn syn_ref_arg(name: &str, ty: syn::Type) -> (r: syn::FnArg)
    requires
        is_ident(name@),
    ensures
        r == ref_arg_node(name@, ty),
{
    let pat = syn::Pat::Ident(syn::PatIdent {
        attrs: vec![], by_ref: None, mutability: None, subpat: None,
        ident: syn::Ident::new(name, proc_macro2::Span::call_site()),
    });
    let refty = syn::Type::Reference(syn::TypeReference {
        and_token: Default::default(), lifetime: None, mutability: None, elem: Box::new(ty),
    });
    syn::FnArg::Typed(syn::PatType {
        attrs: vec![], pat: Box::new(pat), colon_token: Default::default(), ty: Box::new(refty),
    })
}

/// Relies on syn::parse_str over a fixed valid expression: the
/// statement that reads the receiver's identifier field, `self.xid`.
#[verifier::external_body]
pub(crate) fn syn_stmt_read_xid() -> (r: syn::Stmt)
    ensures
        r == stmt_node(StatementModel::ReadResourceId),
{
    syn::Stmt::Expr(syn::parse_str("self.xid").unwrap())
}

/// Relies on syn::parse_str over a fixed valid expression: the
/// statement that wraps the `id` parameter into the enclosing type,
/// `Self { xid: id }`.
#[verifier::external_body]
pub(crate) fn syn_stmt_wrap_xid() -> (r: syn::Stmt)
    ensures
        r == stmt_node(StatementModel::ConstructFromResourceId),
{
    syn::Stmt::Expr(syn::parse_str("Self { xid: id }").unwrap())
}

/// Relies on proc_macro2::Ident::new and syn's path nodes: the
/// statement returning the literal path `owner::variant`.
#[verifier::external_body]
pub(crate) fn syn_stmt_variant_path(owner: &str, variant: &str) -> (r: syn::Stmt)
    requires
        is_ident(owner@),
        is_ident(variant@),
    ensures
        r == stmt_node(StatementModel::ReturnNamedVariant(owner@, variant@)),
{
    let mut path = syn::Path::from(syn::Ident::new(owner, proc_macro2::Span::call_site()));
    path.segments.push(syn::PathSegment::from(
        syn::Ident::new(variant, proc_macro2::Span::call_site()),
    ));
    syn::Stmt::Expr(syn::Expr::Path(syn::ExprPath { attrs: vec![], qself: None, path }))
}

/// Relies on syn::parse_str over a fixed valid expression: the
/// statement that rebuilds the new type around the old one's resource
/// identifier. It is the same for every pair of type names — `Self`
/// already denotes the new type and `base` the old instance — so the
/// operation is `Self::from_xid(base.xid())`.
#[verifier::external_body]
pub(crate) fn syn_stmt_remap_xids(oldname: &str, newname: &str) -> (r: syn::Stmt)
    requires
        is_ident(oldname@),
        is_ident(newname@),
    ensures
        r == stmt_node(StatementModel::RemapResourceFields(oldname@, newname@)),
{
    syn::Stmt::Expr(syn::parse_str("Self::from_xid(base.xid())").unwrap())
}

/// Relies on syn::Visibility: no explicit visibility modifier.
#[verifier::external_body]
pub(crate) fn syn_vis_inherited() -> (r: syn::Visibility)
    ensures
        r == visibility_node(false),
{
    syn::Visibility::Inherited
}

/// Relies on syn::Visibility: the modifier written `pub`.
#[verifier::external_body]
pub(crate) fn syn_vis_pub() -> (r: syn::Visibility)
    ensures
        r == visibility_node(true),
{
    syn::Visibility::Public(syn::VisPublic { pub_token: Default::default() })
}

/// Relies on proc_macro2::Ident::new and syn's signature nodes: the
/// method item with the given visibility, name, inputs, return type
/// and body statements.
#[verifier::external_body]
pub(crate) fn syn_impl_method(
    vis: syn::Visibility,
    name: &str,
    inputs: Vec<syn::FnArg>,
    ret: Option<syn::Type>,
    stmts: Vec<syn::Stmt>,
) -> (r: syn::ImplItem)
    requires
        is_ident(name@),
    ensures
        r == method_node(vis, name@, inputs@, ret, stmts@),
{
    let output = match ret {
        None => syn::ReturnType::Default,
        Some(t) => syn::ReturnType::Type(Default::default(), Box::new(t)),
    };
    let sig = syn::Signature {
        constness: None, asyncness: None, unsafety: None, abi: None,
        fn_token: Default::default(), generics: Default::default(),
        ident: syn::Ident::new(name, proc_macro2::Span::call_site()),
        paren_token: Default::default(), inputs: inputs.into_iter().collect(),
        variadic: None, output,
    };
    let block = syn::Block { brace_token: Default::default(), stmts };
    syn::ImplItem::Method(syn::ImplItemMethod { attrs: vec![], vis, defaultness: None, sig, block })
}

/// Relies on syn::ItemImpl: the item written
/// `impl trait_path for self_ty { items }`.
#[verifier::external_body]
pub(crate) fn syn_item_impl(
    trait_path: syn::Path,
    self_ty: syn::Type,
    items: Vec<syn::ImplItem>,
) -> (r: syn::Item)
    ensures
        r == impl_item_node(trait_path, self_ty, items@),
{
    syn::Item::Impl(syn::ItemImpl {
        attrs: vec![],
        defaultness: None,
        unsafety: None,
        impl_token: Default::default(),
        generics: Default::default(),
        trait_: Some((None, trait_path, Default::default())),
        self_ty: Box::new(self_ty),
        brace_token: Default::default(),
        items,
    })
}

} // verus!
