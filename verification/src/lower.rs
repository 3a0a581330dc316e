//! Verified lowering from the declaration tree to renderable `syn`
//! items. Which declaration is built is fixed by [`crate::rtrait`]'s
//! contracts; this pass maps each node to its `syn` counterpart, and
//! its contracts pin the result as the composition of the trusted
//! constructors' named nodes over the declaration's model.

use vstd::prelude::*;

use crate::decl::{
    decl_wf, member_wf, method_wf, param_wf, stmt_wf, type_wf, DeclModel, ImplementationDeclaration,
    Member, MemberModel, Method, MethodModel, ParamModel, ParameterUsage, Statement, StatementModel,
    TypeModel, TypeRef,
};
use crate::ident::is_ident;
use crate::rtrait::{emit_model, lemma_emit_wf, trait_wf, Trait};
use crate::syn_nodes::{
    assoc_type_member_node, const_member_node, generic_path_node, generic_type_node,
    impl_item_node, method_node, named_path_node, named_type_node, owned_arg_node, receiver_node,
    ref_arg_node, stmt_node, syn_assoc_type_member, syn_const_member, syn_generic_path,
    syn_generic_type, syn_impl_method, syn_item_impl, syn_named_path, syn_named_type,
    syn_owned_arg, syn_receiver_owned, syn_receiver_ref, syn_ref_arg, syn_stmt_read_xid,
    syn_stmt_remap_xids, syn_stmt_variant_path, syn_stmt_wrap_xid, syn_vis_inherited, syn_vis_pub,
    visibility_node,
};

verus! {

/// The `syn` type node a type reference lowers to.
pub open spec fn type_node_of(t: TypeModel) -> syn::Type
    decreases t,
{
    match t {
        TypeModel::Basic(name) => named_type_node(name),
        TypeModel::Generic(name, arg) => generic_type_node(name, type_node_of(*arg)),
    }
}

/// The `syn` path node a contract path lowers to.
pub open spec fn path_node_of(t: TypeModel) -> syn::Path {
    match t {
        TypeModel::Basic(name) => named_path_node(name),
        TypeModel::Generic(name, arg) => generic_path_node(name, type_node_of(*arg)),
    }
}

/// The `syn` argument node a parameter lowers to.
pub open spec fn param_node_of(p: ParamModel) -> syn::FnArg {
    match p.usage {
        ParameterUsage::Owned => owned_arg_node(p.name, type_node_of(p.ty)),
        ParameterUsage::Ref => ref_arg_node(p.name, type_node_of(p.ty)),
    }
}

/// The receiver argument a method's receiver usage contributes, if any.
pub open spec fn receiver_nodes(receiver: Option<ParameterUsage>) -> Seq<syn::FnArg> {
    match receiver {
        Some(usage) => seq![receiver_node(usage)],
        None => Seq::<syn::FnArg>::empty(),
    }
}

/// All input argument nodes of a method: the receiver first, then the
/// explicit parameters in order.
pub open spec fn inputs_node_of(m: MethodModel) -> Seq<syn::FnArg> {
    receiver_nodes(m.receiver) + m.parameters.map_values(|p: ParamModel| param_node_of(p))
}

/// The lowered return type of a method, if it has one.
pub open spec fn ret_node_of(m: MethodModel) -> Option<syn::Type> {
    match m.ret {
        Some(t) => Some(type_node_of(t)),
        None => None,
    }
}

/// The `syn` impl item a method lowers to.
pub open spec fn method_node_of(m: MethodModel, is_trait_member: bool) -> syn::ImplItem {
    method_node(
        visibility_node(!is_trait_member),
        m.name,
        inputs_node_of(m),
        ret_node_of(m),
        m.statements.map_values(|s: StatementModel| stmt_node(s)),
    )
}

/// The `syn` impl item a member lowers to.
pub open spec fn member_node_of(m: MemberModel) -> syn::ImplItem {
    match m {
        MemberModel::Constant { name, ty, value } => const_member_node(
            name,
            type_node_of(ty),
            value,
        ),
        MemberModel::AssociatedType { name, value } => assoc_type_member_node(
            name,
            type_node_of(value),
        ),
        MemberModel::Method(method) => method_node_of(method, true),
    }
}

/// The `syn` item a whole declaration lowers to.
pub open spec fn item_node_of(d: DeclModel) -> syn::Item {
    impl_item_node(
        path_node_of(d.contract),
        named_type_node(d.self_type),
        d.members.map_values(|m: MemberModel| member_node_of(m)),
    )
}

/// Lower a type reference to the `syn` type it names.
pub(crate) fn lower_type(t: &TypeRef) -> (r: syn::Type)
    requires
        type_wf(t@),
    ensures
        r == type_node_of(t@),
    decreases *t,
{
    match t {
        TypeRef::Basic(name) => syn_named_type(name.as_str()),
        TypeRef::Generic(name, arg) => {
            proof {
                assert(t@ == TypeModel::Generic(name@, Box::new((&**arg)@)));
            }
            let inner = lower_type(&**arg);
            syn_generic_type(name.as_str(), inner)
        },
    }
}

/// Lower a contract path to the `syn` path it names.
pub(crate) fn lower_path(t: &TypeRef) -> (r: syn::Path)
    requires
        type_wf(t@),
    ensures
        r == path_node_of(t@),
{
    match t {
        TypeRef::Basic(name) => syn_named_path(name.as_str()),
        TypeRef::Generic(name, arg) => {
            proof {
                assert(t@ == TypeModel::Generic(name@, Box::new((&**arg)@)));
            }
            let inner = lower_type(&**arg);
            syn_generic_path(name.as_str(), inner)
        },
    }
}

/// Lower one body statement to its single straight-line operation.
pub(crate) fn lower_statement(s: &Statement) -> (r: syn::Stmt)
    requires
        stmt_wf(s@),
    ensures
        r == stmt_node(s@),
{
    match s {
        Statement::ReadResourceId => syn_stmt_read_xid(),
        Statement::ConstructFromResourceId => syn_stmt_wrap_xid(),
        Statement::ReturnNamedVariant(owner, variant) => syn_stmt_variant_path(
            owner.as_str(),
            variant.as_str(),
        ),
        Statement::RemapResourceFields(oldname, newname) => syn_stmt_remap_xids(
            oldname.as_str(),
            newname.as_str(),
        ),
    }
}

impl Method {
    /// Lower to a renderable impl item. `is_trait_member` suppresses
    /// the explicit visibility modifier, since contract-implementing
    /// members are public through the contract itself.
    pub(crate) fn to_syn_impl_item(&self, is_trait_member: bool) -> (r: syn::ImplItem)
        requires
            method_wf(self@),
        ensures
            r == method_node_of(self@, is_trait_member),
    {
        let mut inputs: Vec<syn::FnArg> = Vec::new();
        match self.receiver {
            Some(ParameterUsage::Ref) => inputs.push(syn_receiver_ref()),
            Some(ParameterUsage::Owned) => inputs.push(syn_receiver_owned()),
            None => {},
        }
        proof {
            assert(inputs@ =~= receiver_nodes(self@.receiver));
        }
        let mut i: usize = 0;
        while i < self.parameters.len()
            invariant
                method_wf(self@),
                i <= self.parameters.len(),
                self@.parameters.len() == self.parameters.len(),
                inputs@ =~= receiver_nodes(self@.receiver) + self@.parameters.take(
                    i as int,
                ).map_values(|q: ParamModel| param_node_of(q)),
            decreases self.parameters.len() - i,
        {
            let p = &self.parameters[i];
            proof {
                assert(self@.parameters[i as int] == p@);
                assert(param_wf(self@.parameters[i as int]));
            }
            let ty = lower_type(&p.ty);
            match p.usage {
                ParameterUsage::Owned => inputs.push(syn_owned_arg(p.name.as_str(), ty)),
                ParameterUsage::Ref => inputs.push(syn_ref_arg(p.name.as_str(), ty)),
            }
            proof {
                assert(self@.parameters.take(i as int + 1) =~= self@.parameters.take(
                    i as int,
                ).push(p@));
                assert(self@.parameters.take(i as int + 1).map_values(
                    |q: ParamModel| param_node_of(q),
                ) =~= self@.parameters.take(i as int).map_values(
                    |q: ParamModel| param_node_of(q),
                ).push(param_node_of(p@)));
                assert(inputs@ =~= receiver_nodes(self@.receiver) + self@.parameters.take(
                    i as int + 1,
                ).map_values(|q: ParamModel| param_node_of(q)));
            }
            i += 1;
        }
        proof {
            assert(self@.parameters.take(self@.parameters.len() as int) =~= self@.parameters);
            assert(inputs@ =~= inputs_node_of(self@));
        }
        let ret: Option<syn::Type> = match &self.ret {
            Some(t) => Some(lower_type(t)),
            None => None,
        };
        proof {
            assert(ret == ret_node_of(self@));
        }
        let mut stmts: Vec<syn::Stmt> = Vec::new();
        let mut j: usize = 0;
        while j < self.statements.len()
            invariant
                method_wf(self@),
                j <= self.statements.len(),
                self@.statements.len() == self.statements.len(),
                stmts@ =~= self@.statements.take(j as int).map_values(
                    |s: StatementModel| stmt_node(s),
                ),
            decreases self.statements.len() - j,
        {
            proof {
                assert(self@.statements[j as int] == self.statements[j as int]@);
                assert(stmt_wf(self@.statements[j as int]));
            }
            stmts.push(lower_statement(&self.statements[j]));
            proof {
                assert(self@.statements.take(j as int + 1) =~= self@.statements.take(
                    j as int,
                ).push(self@.statements[j as int]));
                assert(self@.statements.take(j as int + 1).map_values(
                    |s: StatementModel| stmt_node(s),
                ) =~= self@.statements.take(j as int).map_values(
                    |s: StatementModel| stmt_node(s),
                ).push(stmt_node(self@.statements[j as int])));
                assert(stmts@ =~= self@.statements.take(j as int + 1).map_values(
                    |s: StatementModel| stmt_node(s),
                ));
            }
            j += 1;
        }
        proof {
            assert(self@.statements.take(self@.statements.len() as int) =~= self@.statements);
            assert(stmts@ =~= self@.statements.map_values(|s: StatementModel| stmt_node(s)));
        }
        let vis = if is_trait_member {
            syn_vis_inherited()
        } else {
            syn_vis_pub()
        };
        let item = syn_impl_method(vis, self.name.as_str(), inputs, ret, stmts);
        proof {
            assert(item == method_node_of(self@, is_trait_member));
        }
        item
    }
}

/// Lower one member to its renderable impl item.
pub(crate) fn lower_member(m: &Member) -> (r: syn::ImplItem)
    requires
        member_wf(m@),
    ensures
        r == member_node_of(m@),
{
    match m {
        Member::Constant { name, ty, value } => {
            let lowered = lower_type(ty);
            syn_const_member(name.as_str(), lowered, *value)
        },
        Member::AssociatedType { name, value } => {
            let lowered = lower_type(value);
            syn_assoc_type_member(name.as_str(), lowered)
        },
        Member::Method(method) => method.to_syn_impl_item(true),
    }
}

/// Lower a well-formed declaration to the one renderable item it
/// describes.
pub(crate) fn lower_decl(d: &ImplementationDeclaration) -> (r: syn::Item)
    requires
        decl_wf(d@),
    ensures
        r == item_node_of(d@),
{
    let trait_path = lower_path(&d.contract);
    let self_ty = syn_named_type(d.self_type.as_str());
    let mut items: Vec<syn::ImplItem> = Vec::new();
    let mut i: usize = 0;
    while i < d.members.len()
        invariant
            decl_wf(d@),
            i <= d.members.len(),
            d@.members.len() == d.members.len(),
            items@ =~= d@.members.take(i as int).map_values(|m: MemberModel| member_node_of(m)),
        decreases d.members.len() - i,
    {
        proof {
            assert(member_wf(d@.members[i as int]));
            assert(d@.members[i as int] == d.members[i as int]@);
        }
        items.push(lower_member(&d.members[i]));
        proof {
            assert(d@.members.take(i as int + 1) =~= d@.members.take(i as int).push(
                d@.members[i as int],
            ));
            assert(d@.members.take(i as int + 1).map_values(
                |m: MemberModel| member_node_of(m),
            ) =~= d@.members.take(i as int).map_values(|m: MemberModel| member_node_of(m)).push(
                member_node_of(d@.members[i as int]),
            ));
            assert(items@ =~= d@.members.take(i as int + 1).map_values(
                |m: MemberModel| member_node_of(m),
            ));
        }
        i += 1;
    }
    proof {
        assert(d@.members.take(d@.members.len() as int) =~= d@.members);
        assert(items@ =~= d@.members.map_values(|m: MemberModel| member_node_of(m)));
    }
    let item = syn_item_impl(trait_path, self_ty, items);
    proof {
        assert(item == item_node_of(d@));
    }
    item
}

impl Trait {
    /// Emit the declaration this capability demands of `tyname` and
    /// lower it to renderable items: exactly one, the lowering of
    /// exactly the declaration that [`emit_model`] gives.
    pub fn to_syn_item(self, tyname: &str) -> (r: Vec<syn::Item>)
        requires
            trait_wf(self@),
            is_ident(tyname@),
        ensures
            r@.len() == 1,
            r@[0] == item_node_of(emit_model(self@, tyname@)),
    {
        proof {
            lemma_emit_wf(self@, tyname@);
        }
        let ghost t = self@;
        let declaration = self.emit(tyname);
        let item = lower_decl(&declaration);
        proof {
            assert(item == item_node_of(emit_model(t, tyname@)));
        }
        let mut out: Vec<syn::Item> = Vec::new();
        out.push(item);
        out
    }
}

} // verus!
