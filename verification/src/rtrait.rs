//! The implementation emitter: one capability descriptor plus a target
//! type name in, one implementation declaration out.

use vstd::prelude::*;
use vstd::string::StringExecFns;

use crate::decl::{
    decl_wf, member_wf, method_wf, type_wf, DeclModel, ImplementationDeclaration, InputParameter,
    Member, MemberModel, Method, MethodModel, ParamModel, ParameterUsage, Statement,
    StatementModel, TypeModel, TypeRef,
};
use crate::ident::{is_ident, lemma_fixed_names_are_idents};

verus! {

/// A capability a generated type must provide: the protocol role the
/// upstream semantic model assigned to it.
#[derive(Debug)]
pub enum Trait {
    /// The type is a protocol event with the given opcode.
    Event(u64),
    /// The type is a protocol error with the given opcode.
    Error(u64),
    /// The type is a request with the given opcode and reply type.
    Request(u64, TypeRef),
    /// The type wraps a resource identifier.
    Xid,
    /// The type is an enumeration whose default is the named variant.
    EnumDefault(String),
    /// The type supersedes the named legacy type and converts from it.
    FromXid(String),
}

/// Model of a [`Trait`] descriptor.
#[verifier::ext_equal]
pub enum TraitModel {
    Event(u64),
    Error(u64),
    Request(u64, TypeModel),
    Xid,
    EnumDefault(Seq<char>),
    FromXid(Seq<char>),
}

impl View for Trait {
    type V = TraitModel;

    open spec fn view(&self) -> TraitModel {
        match self {
            Trait::Event(opcode) => TraitModel::Event(*opcode),
            Trait::Error(opcode) => TraitModel::Error(*opcode),
            Trait::Request(opcode, reply) => TraitModel::Request(*opcode, reply@),
            Trait::Xid => TraitModel::Xid,
            Trait::EnumDefault(variant) => TraitModel::EnumDefault(variant@),
            Trait::FromXid(from) => TraitModel::FromXid(from@),
        }
    }
}

/// Every name the descriptor carries is a valid identifier.
pub open spec fn trait_wf(t: TraitModel) -> bool {
    match t {
        TraitModel::Event(_) => true,
        TraitModel::Error(_) => true,
        TraitModel::Request(_, reply) => type_wf(reply),
        TraitModel::Xid => true,
        TraitModel::EnumDefault(variant) => is_ident(variant),
        TraitModel::FromXid(from) => is_ident(from),
    }
}

/// The contract path each capability makes the target type implement.
/// It depends on the descriptor alone, never on the type name.
pub open spec fn contract_model(t: TraitModel) -> TypeModel {
    match t {
        TraitModel::Event(_) => TypeModel::Basic("Event"@),
        TraitModel::Error(_) => TypeModel::Basic("Error"@),
        TraitModel::Request(_, _) => TypeModel::Basic("Request"@),
        TraitModel::Xid => TypeModel::Basic("XidType"@),
        TraitModel::EnumDefault(_) => TypeModel::Basic("Default"@),
        TraitModel::FromXid(from) => TypeModel::Generic(
            "From"@,
            Box::new(TypeModel::Basic(from)),
        ),
    }
}

/// The opcode constant every event, error and request declaration
/// carries. The value is recorded verbatim; it is typed `u8` in the
/// emitted code, and keeping it in range is upstream's responsibility.
pub open spec fn opcode_member_model(opcode: u64) -> MemberModel {
    MemberModel::Constant { name: "OPCODE"@, ty: TypeModel::Basic("u8"@), value: opcode }
}

/// The method `xid(&self) -> XID` that reads the wrapped identifier.
pub open spec fn xid_method_model() -> MethodModel {
    MethodModel {
        name: "xid"@,
        receiver: Some(ParameterUsage::Ref),
        parameters: Seq::<ParamModel>::empty(),
        ret: Some(TypeModel::Basic("XID"@)),
        statements: seq![StatementModel::ReadResourceId],
    }
}

/// The method `from_xid(id: XID) -> Self` that wraps an identifier.
pub open spec fn from_xid_method_model() -> MethodModel {
    MethodModel {
        name: "from_xid"@,
        receiver: None,
        parameters: seq![
            ParamModel {
                name: "id"@,
                ty: TypeModel::Basic("XID"@),
                usage: ParameterUsage::Owned,
            },
        ],
        ret: Some(TypeModel::Basic("Self"@)),
        statements: seq![StatementModel::ConstructFromResourceId],
    }
}

/// The static method `default() -> tyname` returning the named variant.
/// The variant is emitted verbatim, whether or not the type declares it.
pub open spec fn default_method_model(tyname: Seq<char>, variant: Seq<char>) -> MethodModel {
    MethodModel {
        name: "default"@,
        receiver: None,
        parameters: Seq::<ParamModel>::empty(),
        ret: Some(TypeModel::Basic(tyname)),
        statements: seq![StatementModel::ReturnNamedVariant(tyname, variant)],
    }
}

/// The method `from(base: from) -> Self` that remaps the legacy type's
/// resource-identifier fields into the new type.
pub open spec fn from_method_model(from: Seq<char>, tyname: Seq<char>) -> MethodModel {
    MethodModel {
        name: "from"@,
        receiver: None,
        parameters: seq![
            ParamModel { name: "base"@, ty: TypeModel::Basic(from), usage: ParameterUsage::Owned },
        ],
        ret: Some(TypeModel::Basic("Self"@)),
        statements: seq![StatementModel::RemapResourceFields(from, tyname)],
    }
}

/// The ordered members each capability contributes.
pub open spec fn members_model(t: TraitModel, tyname: Seq<char>) -> Seq<MemberModel> {
    match t {
        TraitModel::Event(opcode) => seq![opcode_member_model(opcode)],
        TraitModel::Error(opcode) => seq![opcode_member_model(opcode)],
        TraitModel::Request(opcode, reply) => seq![
            opcode_member_model(opcode),
            MemberModel::AssociatedType { name: "Reply"@, value: reply },
        ],
        TraitModel::Xid => seq![
            MemberModel::Method(xid_method_model()),
            MemberModel::Method(from_xid_method_model()),
        ],
        TraitModel::EnumDefault(variant) => seq![
            MemberModel::Method(default_method_model(tyname, variant)),
        ],
        TraitModel::FromXid(from) => seq![
            MemberModel::Method(from_method_model(from, tyname)),
        ],
    }
}

/// What emission returns: the whole declaration, determined by the
/// descriptor and the target type name alone.
pub open spec fn emit_model(t: TraitModel, tyname: Seq<char>) -> DeclModel {
    DeclModel {
        self_type: tyname,
        contract: contract_model(t),
        members: members_model(t, tyname),
    }
}

/// Build the `OPCODE` constant member.
fn opcode_const(opcode: u64) -> (r: Member)
    ensures
        r@ == opcode_member_model(opcode),
{
    Member::Constant {
        name: String::from_str("OPCODE"),
        ty: TypeRef::Basic(String::from_str("u8")),
        value: opcode,
    }
}

impl Trait {
    /// Decide which contract the target type must implement for this
    /// capability and build the implementation declaration: exactly the
    /// one that [`emit_model`] gives for the descriptor and type name.
    pub fn emit(self, tyname: &str) -> (r: ImplementationDeclaration)
        ensures
            r@ == emit_model(self@, tyname@),
    {
        let ghost t = self@;
        match self {
            Trait::Event(opcode) => {
                let d = ImplementationDeclaration {
                    self_type: String::from_str(tyname),
                    contract: TypeRef::Basic(String::from_str("Event")),
                    members: vec![opcode_const(opcode)],
                };
                proof {
                    assert(d@ =~~= emit_model(t, tyname@));
                }
                d
            },
            Trait::Error(opcode) => {
                let d = ImplementationDeclaration {
                    self_type: String::from_str(tyname),
                    contract: TypeRef::Basic(String::from_str("Error")),
                    members: vec![opcode_const(opcode)],
                };
                proof {
                    assert(d@ =~~= emit_model(t, tyname@));
                }
                d
            },
            Trait::Request(opcode, reply_name) => {
                let d = ImplementationDeclaration {
                    self_type: String::from_str(tyname),
                    contract: TypeRef::Basic(String::from_str("Request")),
                    members: vec![
                        opcode_const(opcode),
                        Member::AssociatedType { name: String::from_str("Reply"), value: reply_name },
                    ],
                };
                proof {
                    assert(d@ =~~= emit_model(t, tyname@));
                }
                d
            },
            Trait::Xid => {
                let mut xid_method = Method::new(
                    String::from_str("xid"),
                    Some(ParameterUsage::Ref),
                    Vec::new(),
                    Some(TypeRef::Basic(String::from_str("XID"))),
                );
                xid_method.statements = vec![Statement::ReadResourceId];
                let mut from_xid_method = Method::new(
                    String::from_str("from_xid"),
                    None,
                    vec![
                        InputParameter {
                            name: String::from_str("id"),
                            ty: TypeRef::Basic(String::from_str("XID")),
                            usage: ParameterUsage::Owned,
                        },
                    ],
                    Some(TypeRef::Basic(String::from_str("Self"))),
                );
                from_xid_method.statements = vec![Statement::ConstructFromResourceId];
                let d = ImplementationDeclaration {
                    self_type: String::from_str(tyname),
                    contract: TypeRef::Basic(String::from_str("XidType")),
                    members: vec![Member::Method(xid_method), Member::Method(from_xid_method)],
                };
                proof {
                    assert(d@ =~~= emit_model(t, tyname@));
                }
                d
            },
            Trait::EnumDefault(variant) => {
                let mut method = Method::new(
                    String::from_str("default"),
                    None,
                    Vec::new(),
                    Some(TypeRef::Basic(String::from_str(tyname))),
                );
                method.statements = vec![
                    Statement::ReturnNamedVariant(String::from_str(tyname), variant),
                ];
                let d = ImplementationDeclaration {
                    self_type: String::from_str(tyname),
                    contract: TypeRef::Basic(String::from_str("Default")),
                    members: vec![Member::Method(method)],
                };
                proof {
                    assert(d@ =~~= emit_model(t, tyname@));
                }
                d
            },
            Trait::FromXid(from) => {
                let ghost from_name = from@;
                let mut method = Method::new(
                    String::from_str("from"),
                    None,
                    vec![
                        InputParameter {
                            name: String::from_str("base"),
                            ty: TypeRef::Basic(from.clone()),
                            usage: ParameterUsage::Owned,
                        },
                    ],
                    Some(TypeRef::Basic(String::from_str("Self"))),
                );
                method.statements = vec![
                    Statement::RemapResourceFields(from.clone(), String::from_str(tyname)),
                ];
                let source = TypeRef::Basic(from);
                proof {
                    assert(source@ == TypeModel::Basic(from_name));
                }
                let d = ImplementationDeclaration {
                    self_type: String::from_str(tyname),
                    contract: TypeRef::Generic(String::from_str("From"), Box::new(source)),
                    members: vec![Member::Method(method)],
                };
                proof {
                    assert(d@ =~~= emit_model(t, tyname@));
                }
                d
            },
        }
    }
}

/// Law: emission of a well-formed descriptor for a valid type name
/// yields a well-formed declaration, so it can always be lowered.
pub proof fn lemma_emit_wf(t: TraitModel, tyname: Seq<char>)
    requires
        trait_wf(t),
        is_ident(tyname),
    ensures
        decl_wf(emit_model(t, tyname)),
{
    lemma_fixed_names_are_idents();
    let d = emit_model(t, tyname);
    match t {
        TraitModel::Event(opcode) => {
            assert(member_wf(d.members[0]));
        },
        TraitModel::Error(opcode) => {
            assert(member_wf(d.members[0]));
        },
        TraitModel::Request(opcode, reply) => {
            assert(member_wf(d.members[0]));
            assert(member_wf(d.members[1]));
        },
        TraitModel::Xid => {
            assert(method_wf(xid_method_model()));
            assert(method_wf(from_xid_method_model()));
            assert(member_wf(d.members[0]));
            assert(member_wf(d.members[1]));
        },
        TraitModel::EnumDefault(variant) => {
            assert(method_wf(default_method_model(tyname, variant)));
            assert(member_wf(d.members[0]));
        },
        TraitModel::FromXid(from) => {
            assert(method_wf(from_method_model(from, tyname)));
            assert(member_wf(d.members[0]));
            assert(type_wf(TypeModel::Basic(from)));
            assert(type_wf(d.contract));
        },
    }
    assert forall|i: int| 0 <= i < d.members.len() implies member_wf(#[trigger] d.members[i]) by {
        if i == 0 {
            assert(member_wf(d.members[0]));
        } else {
            assert(i == 1 && d.members.len() == 2);
            assert(member_wf(d.members[1]));
        }
    }
}

/// Law: for any 8-bit opcode and any type name, the event capability
/// yields a declaration implementing "Event" for the type whose single
/// member is the constant `OPCODE: u8 = opcode`.
pub proof fn lemma_event_declaration(opcode: u64, tyname: Seq<char>)
    requires
        opcode <= 0xff,
    ensures
        ({
            let d = emit_model(TraitModel::Event(opcode), tyname);
            &&& d.self_type == tyname
            &&& d.contract == TypeModel::Basic("Event"@)
            &&& d.members.len() == 1
            &&& d.members[0] == (MemberModel::Constant {
                name: "OPCODE"@,
                ty: TypeModel::Basic("u8"@),
                value: opcode,
            })
        }),
{
}

/// Law: the error capability mirrors the event capability under the
/// "Error" contract.
pub proof fn lemma_error_declaration(opcode: u64, tyname: Seq<char>)
    requires
        opcode <= 0xff,
    ensures
        ({
            let d = emit_model(TraitModel::Error(opcode), tyname);
            &&& d.self_type == tyname
            &&& d.contract == TypeModel::Basic("Error"@)
            &&& d.members.len() == 1
            &&& d.members[0] == (MemberModel::Constant {
                name: "OPCODE"@,
                ty: TypeModel::Basic("u8"@),
                value: opcode,
            })
        }),
{
}

/// Law: the request capability yields two members in order — the
/// opcode constant, then the associated type `Reply` set to the reply
/// type — under the "Request" contract.
pub proof fn lemma_request_declaration(opcode: u64, reply: TypeModel, tyname: Seq<char>)
    ensures
        ({
            let d = emit_model(TraitModel::Request(opcode, reply), tyname);
            &&& d.self_type == tyname
            &&& d.contract == TypeModel::Basic("Request"@)
            &&& d.members.len() == 2
            &&& d.members[0] == (MemberModel::Constant {
                name: "OPCODE"@,
                ty: TypeModel::Basic("u8"@),
                value: opcode,
            })
            &&& d.members[1] == (MemberModel::AssociatedType { name: "Reply"@, value: reply })
        }),
{
}

/// Law: the resource-identifier capability yields exactly two methods
/// under the "XidType" contract — `xid`, with a borrowing receiver, no
/// parameters and return type `XID`, reading the wrapped identifier;
/// and `from_xid`, with no receiver, one owned parameter `id: XID`
/// and return type `Self`, wrapping the identifier.
pub proof fn lemma_xid_declaration(tyname: Seq<char>)
    ensures
        ({
            let d = emit_model(TraitModel::Xid, tyname);
            &&& d.self_type == tyname
            &&& d.contract == TypeModel::Basic("XidType"@)
            &&& d.members.len() == 2
            &&& d.members[0] == (MemberModel::Method(
                MethodModel {
                    name: "xid"@,
                    receiver: Some(ParameterUsage::Ref),
                    parameters: Seq::<ParamModel>::empty(),
                    ret: Some(TypeModel::Basic("XID"@)),
                    statements: seq![StatementModel::ReadResourceId],
                },
            ))
            &&& d.members[1] == (MemberModel::Method(
                MethodModel {
                    name: "from_xid"@,
                    receiver: None,
                    parameters: seq![
                        ParamModel {
                            name: "id"@,
                            ty: TypeModel::Basic("XID"@),
                            usage: ParameterUsage::Owned,
                        },
                    ],
                    ret: Some(TypeModel::Basic("Self"@)),
                    statements: seq![StatementModel::ConstructFromResourceId],
                },
            ))
        }),
{
}

/// Law: the enumeration-default capability yields one static method
/// "default" with no receiver, no parameters and return type equal to
/// the target type, whose body returns `tyname::variant` verbatim —
/// the generator never checks that the variant exists on the type.
pub proof fn lemma_enum_default_declaration(variant: Seq<char>, tyname: Seq<char>)
    ensures
        ({
            let d = emit_model(TraitModel::EnumDefault(variant), tyname);
            &&& d.self_type == tyname
            &&& d.contract == TypeModel::Basic("Default"@)
            &&& d.members.len() == 1
            &&& d.members[0] == (MemberModel::Method(
                MethodModel {
                    name: "default"@,
                    receiver: None,
                    parameters: Seq::<ParamModel>::empty(),
                    ret: Some(TypeModel::Basic(tyname)),
                    statements: seq![StatementModel::ReturnNamedVariant(tyname, variant)],
                },
            ))
        }),
{
}

/// Law: the legacy-conversion capability yields one method "from" with
/// no receiver, one owned parameter `base` typed as the source type
/// and return type `Self`, whose single statement remaps the source
/// type's resource-identifier fields into the target type, under the
/// conversion contract parameterized by the source type.
pub proof fn lemma_legacy_conversion_declaration(from: Seq<char>, tyname: Seq<char>)
    ensures
        ({
            let d = emit_model(TraitModel::FromXid(from), tyname);
            &&& d.self_type == tyname
            &&& d.contract == TypeModel::Generic("From"@, Box::new(TypeModel::Basic(from)))
            &&& d.members.len() == 1
            &&& d.members[0] == (MemberModel::Method(
                MethodModel {
                    name: "from"@,
                    receiver: None,
                    parameters: seq![
                        ParamModel {
                            name: "base"@,
                            ty: TypeModel::Basic(from),
                            usage: ParameterUsage::Owned,
                        },
                    ],
                    ret: Some(TypeModel::Basic("Self"@)),
                    statements: seq![StatementModel::RemapResourceFields(from, tyname)],
                },
            ))
        }),
{
}

/// Law: emission is deterministic — equal descriptors and equal type
/// names always give structurally equal declarations.
pub proof fn lemma_emit_deterministic(t1: TraitModel, t2: TraitModel, n1: Seq<char>, n2: Seq<char>)
    requires
        t1 == t2,
        n1 == n2,
    ensures
        emit_model(t1, n1) == emit_model(t2, n2),
{
}

/// Law: every declaration carries exactly one contract path and a
/// non-empty member list.
pub proof fn lemma_members_nonempty(t: TraitModel, tyname: Seq<char>)
    ensures
        emit_model(t, tyname).members.len() >= 1,
{
}

} // verus!
