//! The declaration tree the emitter produces: type references, body
//! statements, methods, members and whole implementation declarations,
//! together with the mathematical model of each.
//!
//! The tree is renderer-agnostic: it records which members a generated
//! type carries, not how they are printed.

use vstd::prelude::*;

use crate::ident::is_ident;

verus! {

/// A reference to a type by name, or one generic instantiation of a
/// named type over a single argument.
#[derive(Debug, PartialEq, Eq)]
pub enum TypeRef {
    Basic(String),
    Generic(String, Box<TypeRef>),
}

/// Model of a [`TypeRef`]: the same shape over character sequences.
#[verifier::ext_equal]
pub enum TypeModel {
    Basic(Seq<char>),
    Generic(Seq<char>, Box<TypeModel>),
}

pub open spec fn type_view(t: TypeRef) -> TypeModel
    decreases t,
{
    match t {
        TypeRef::Basic(name) => TypeModel::Basic(name@),
        TypeRef::Generic(name, arg) => TypeModel::Generic(name@, Box::new(type_view(*arg))),
    }
}

impl View for TypeRef {
    type V = TypeModel;

    open spec fn view(&self) -> TypeModel {
        type_view(*self)
    }
}

/// Every name a type reference mentions is a valid identifier.
pub open spec fn type_wf(t: TypeModel) -> bool
    decreases t,
{
    match t {
        TypeModel::Basic(name) => is_ident(name),
        TypeModel::Generic(name, arg) => is_ident(name) && type_wf(*arg),
    }
}

/// How a receiver or parameter is passed: consumed or borrowed.
#[derive(Debug, PartialEq, Eq, Clone, Copy)]
pub enum ParameterUsage {
    Owned,
    Ref,
}

/// One explicit parameter of a generated method.
#[derive(Debug, PartialEq, Eq)]
pub struct InputParameter {
    pub name: String,
    pub ty: TypeRef,
    pub usage: ParameterUsage,
}

/// Model of an [`InputParameter`].
#[verifier::ext_equal]
pub struct ParamModel {
    pub name: Seq<char>,
    pub ty: TypeModel,
    pub usage: ParameterUsage,
}

impl View for InputParameter {
    type V = ParamModel;

    open spec fn view(&self) -> ParamModel {
        ParamModel { name: self.name@, ty: self.ty@, usage: self.usage }
    }
}

pub open spec fn param_wf(p: ParamModel) -> bool {
    is_ident(p.name) && type_wf(p.ty)
}

/// The closed vocabulary of body operations a generated method may
/// perform. Each kind lowers to exactly one straight-line operation.
#[derive(Debug, PartialEq, Eq)]
pub enum Statement {
    /// Read the receiver's underlying resource identifier and return it.
    ReadResourceId,
    /// Wrap the incoming identifier parameter into the enclosing type.
    ConstructFromResourceId,
    /// Return the literal path `owner::variant`.
    ReturnNamedVariant(String, String),
    /// Rebuild the new type from an instance of the old one, carrying
    /// the resource identifier across the type boundary.
    RemapResourceFields(String, String),
}

/// Model of a [`Statement`].
#[verifier::ext_equal]
pub enum StatementModel {
    ReadResourceId,
    ConstructFromResourceId,
    ReturnNamedVariant(Seq<char>, Seq<char>),
    RemapResourceFields(Seq<char>, Seq<char>),
}

impl View for Statement {
    type V = StatementModel;

    open spec fn view(&self) -> StatementModel {
        match self {
            Statement::ReadResourceId => StatementModel::ReadResourceId,
            Statement::ConstructFromResourceId => StatementModel::ConstructFromResourceId,
            Statement::ReturnNamedVariant(owner, variant) => StatementModel::ReturnNamedVariant(
                owner@,
                variant@,
            ),
            Statement::RemapResourceFields(oldname, newname) => StatementModel::RemapResourceFields(
                oldname@,
                newname@,
            ),
        }
    }
}

pub open spec fn stmt_wf(s: StatementModel) -> bool {
    match s {
        StatementModel::ReadResourceId => true,
        StatementModel::ConstructFromResourceId => true,
        StatementModel::ReturnNamedVariant(owner, variant) => is_ident(owner) && is_ident(variant),
        StatementModel::RemapResourceFields(oldname, newname) => is_ident(oldname) && is_ident(
            newname,
        ),
    }
}

/// One generated method: a name, an optional implicit receiver, the
/// explicit parameters, an optional return type and the ordered body.
#[derive(Debug, PartialEq, Eq)]
pub struct Method {
    pub name: String,
    pub receiver: Option<ParameterUsage>,
    pub parameters: Vec<InputParameter>,
    pub ret: Option<TypeRef>,
    pub statements: Vec<Statement>,
}

/// Model of a [`Method`].
#[verifier::ext_equal]
pub struct MethodModel {
    pub name: Seq<char>,
    pub receiver: Option<ParameterUsage>,
    pub parameters: Seq<ParamModel>,
    pub ret: Option<TypeModel>,
    pub statements: Seq<StatementModel>,
}

impl View for Method {
    type V = MethodModel;

    open spec fn view(&self) -> MethodModel {
        MethodModel {
            name: self.name@,
            receiver: self.receiver,
            parameters: self.parameters@.map_values(|p: InputParameter| p@),
            ret: match self.ret {
                Some(t) => Some(t@),
                None => None,
            },
            statements: self.statements@.map_values(|s: Statement| s@),
        }
    }
}

pub open spec fn method_wf(m: MethodModel) -> bool {
    &&& is_ident(m.name)
    &&& forall|i: int| 0 <= i < m.parameters.len() ==> param_wf(#[trigger] m.parameters[i])
    &&& (m.ret matches Some(t) ==> type_wf(t))
    &&& forall|i: int| 0 <= i < m.statements.len() ==> stmt_wf(#[trigger] m.statements[i])
}

impl Method {
    /// Assemble a method from its signature parts; the body statements
    /// are filled in afterwards.
    pub fn new(
        name: String,
        receiver: Option<ParameterUsage>,
        parameters: Vec<InputParameter>,
        ret: Option<TypeRef>,
    ) -> (r: Method)
        ensures
            r@.name == name@,
            r@.receiver == receiver,
            r@.parameters == parameters@.map_values(|p: InputParameter| p@),
            r@.ret == (match ret {
                Some(t) => Some(t@),
                None => None,
            }),
            r@.statements =~= Seq::<StatementModel>::empty(),
    {
        Method { name, receiver, parameters, ret, statements: Vec::new() }
    }
}

/// One member of an implementation declaration.
#[allow(inconsistent_fields)]
#[derive(Debug, PartialEq, Eq)]
pub enum Member {
    Constant { name: String, ty: TypeRef, value: u64 },
    AssociatedType { name: String, value: TypeRef },
    Method(Method),
}

/// Model of a [`Member`].
#[allow(inconsistent_fields)]
#[verifier::ext_equal]
pub enum MemberModel {
    Constant { name: Seq<char>, ty: TypeModel, value: u64 },
    AssociatedType { name: Seq<char>, value: TypeModel },
    Method(MethodModel),
}

impl View for Member {
    type V = MemberModel;

    open spec fn view(&self) -> MemberModel {
        match self {
            Member::Constant { name, ty, value } => MemberModel::Constant {
                name: name@,
                ty: ty@,
                value: *value,
            },
            Member::AssociatedType { name, value } => MemberModel::AssociatedType {
                name: name@,
                value: value@,
            },
            Member::Method(m) => MemberModel::Method(m@),
        }
    }
}

pub open spec fn member_wf(m: MemberModel) -> bool {
    match m {
        MemberModel::Constant { name, ty, .. } => is_ident(name) && type_wf(ty),
        MemberModel::AssociatedType { name, value } => is_ident(name) && type_wf(value),
        MemberModel::Method(method) => method_wf(method),
    }
}

/// A whole implementation declaration: the target type, the one
/// contract path it implements, and its ordered members.
#[derive(Debug, PartialEq, Eq)]
pub struct ImplementationDeclaration {
    pub self_type: String,
    pub contract: TypeRef,
    pub members: Vec<Member>,
}

/// Model of an [`ImplementationDeclaration`].
#[verifier::ext_equal]
pub struct DeclModel {
    pub self_type: Seq<char>,
    pub contract: TypeModel,
    pub members: Seq<MemberModel>,
}

impl View for ImplementationDeclaration {
    type V = DeclModel;

    open spec fn view(&self) -> DeclModel {
        DeclModel {
            self_type: self.self_type@,
            contract: self.contract@,
            members: self.members@.map_values(|m: Member| m@),
        }
    }
}

/// Every name in the declaration is a valid identifier.
pub open spec fn decl_wf(d: DeclModel) -> bool {
    &&& is_ident(d.self_type)
    &&& type_wf(d.contract)
    &&& forall|i: int| 0 <= i < d.members.len() ==> member_wf(#[trigger] d.members[i])
}

} // verus!
