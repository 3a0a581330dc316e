use implgen::decl::{
    ImplementationDeclaration, InputParameter, Member, Method, ParameterUsage, Statement, TypeRef,
};
use implgen::Trait;

#[test]
fn event_yields_opcode_constant() {
    let d = Trait::Event(200).emit("KeyPressEvent");
    let expected = ImplementationDeclaration {
        self_type: "KeyPressEvent".to_string(),
        contract: TypeRef::Basic("Event".to_string()),
        members: vec![Member::Constant {
            name: "OPCODE".to_string(),
            ty: TypeRef::Basic("u8".to_string()),
            value: 200,
        }],
    };
    assert_eq!(d, expected);
}

#[test]
fn error_yields_opcode_constant() {
    let d = Trait::Error(1).emit("RequestError");
    let expected = ImplementationDeclaration {
        self_type: "RequestError".to_string(),
        contract: TypeRef::Basic("Error".to_string()),
        members: vec![Member::Constant {
            name: "OPCODE".to_string(),
            ty: TypeRef::Basic("u8".to_string()),
            value: 1,
        }],
    };
    assert_eq!(d, expected);
}

#[test]
fn event_opcode_carried_verbatim() {
    // The opcode is recorded as given, even beyond eight bits; keeping
    // it in range is the upstream stage's responsibility.
    let d = Trait::Event(300).emit("BigEvent");
    match &d.members[0] {
        Member::Constant { value, .. } => assert_eq!(*value, 300),
        other => panic!("unexpected member: {:?}", other),
    }
}

#[test]
fn request_members_in_order() {
    let d = Trait::Request(3, TypeRef::Basic("GetWindowReply".to_string()))
        .emit("GetWindowRequest");
    let expected = ImplementationDeclaration {
        self_type: "GetWindowRequest".to_string(),
        contract: TypeRef::Basic("Request".to_string()),
        members: vec![
            Member::Constant {
                name: "OPCODE".to_string(),
                ty: TypeRef::Basic("u8".to_string()),
                value: 3,
            },
            Member::AssociatedType {
                name: "Reply".to_string(),
                value: TypeRef::Basic("GetWindowReply".to_string()),
            },
        ],
    };
    assert_eq!(d, expected);
}

#[test]
fn xid_yields_two_methods() {
    let d = Trait::Xid.emit("Window");
    let expected = ImplementationDeclaration {
        self_type: "Window".to_string(),
        contract: TypeRef::Basic("XidType".to_string()),
        members: vec![
            Member::Method(Method {
                name: "xid".to_string(),
                receiver: Some(ParameterUsage::Ref),
                parameters: vec![],
                ret: Some(TypeRef::Basic("XID".to_string())),
                statements: vec![Statement::ReadResourceId],
            }),
            Member::Method(Method {
                name: "from_xid".to_string(),
                receiver: None,
                parameters: vec![InputParameter {
                    name: "id".to_string(),
                    ty: TypeRef::Basic("XID".to_string()),
                    usage: ParameterUsage::Owned,
                }],
                ret: Some(TypeRef::Basic("Self".to_string())),
                statements: vec![Statement::ConstructFromResourceId],
            }),
        ],
    };
    assert_eq!(d, expected);
}

#[test]
fn enum_default_yields_default_method() {
    let d = Trait::EnumDefault("NorthWest".to_string()).emit("Gravity");
    let expected = ImplementationDeclaration {
        self_type: "Gravity".to_string(),
        contract: TypeRef::Basic("Default".to_string()),
        members: vec![Member::Method(Method {
            name: "default".to_string(),
            receiver: None,
            parameters: vec![],
            ret: Some(TypeRef::Basic("Gravity".to_string())),
            statements: vec![Statement::ReturnNamedVariant(
                "Gravity".to_string(),
                "NorthWest".to_string(),
            )],
        })],
    };
    assert_eq!(d, expected);
}

#[test]
fn enum_default_takes_any_variant_name() {
    // The variant is emitted verbatim; the generator never checks that
    // the type actually declares it, so no rejection occurs.
    let d = Trait::EnumDefault("NotAVariant".to_string()).emit("Window");
    match &d.members[0] {
        Member::Method(m) => match &m.statements[0] {
            Statement::ReturnNamedVariant(owner, variant) => {
                assert_eq!(owner.as_str(), "Window");
                assert_eq!(variant.as_str(), "NotAVariant");
            }
            other => panic!("unexpected statement: {:?}", other),
        },
        other => panic!("unexpected member: {:?}", other),
    }
}

#[test]
fn legacy_conversion_yields_from_method() {
    let d = Trait::FromXid("Window".to_string()).emit("Drawable");
    let expected = ImplementationDeclaration {
        self_type: "Drawable".to_string(),
        contract: TypeRef::Generic(
            "From".to_string(),
            Box::new(TypeRef::Basic("Window".to_string())),
        ),
        members: vec![Member::Method(Method {
            name: "from".to_string(),
            receiver: None,
            parameters: vec![InputParameter {
                name: "base".to_string(),
                ty: TypeRef::Basic("Window".to_string()),
                usage: ParameterUsage::Owned,
            }],
            ret: Some(TypeRef::Basic("Self".to_string())),
            statements: vec![Statement::RemapResourceFields(
                "Window".to_string(),
                "Drawable".to_string(),
            )],
        })],
    };
    assert_eq!(d, expected);
}

#[test]
fn identical_inputs_give_identical_declarations() {
    let a = Trait::Request(7, TypeRef::Basic("MapReply".to_string())).emit("MapRequest");
    let b = Trait::Request(7, TypeRef::Basic("MapReply".to_string())).emit("MapRequest");
    assert_eq!(a, b);
    let c = Trait::Xid.emit("Pixmap");
    let d = Trait::Xid.emit("Pixmap");
    assert_eq!(c, d);
}

#[test]
fn method_builder_starts_with_empty_body() {
    let m = Method::new(
        "xid".to_string(),
        Some(ParameterUsage::Ref),
        vec![],
        Some(TypeRef::Basic("XID".to_string())),
    );
    assert_eq!(m.name.as_str(), "xid");
    assert_eq!(m.receiver, Some(ParameterUsage::Ref));
    assert!(m.parameters.is_empty());
    assert_eq!(m.ret, Some(TypeRef::Basic("XID".to_string())));
    assert!(m.statements.is_empty());
}
