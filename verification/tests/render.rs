use implgen::decl::TypeRef;
use implgen::Trait;
use quote::ToTokens;

fn rendered(capability: Trait, tyname: &str) -> String {
    let items = capability.to_syn_item(tyname);
    assert_eq!(items.len(), 1);
    let mut out = String::new();
    for item in items {
        out.push_str(&item.to_token_stream().to_string());
    }
    out.chars().filter(|c| !c.is_whitespace()).collect()
}

#[test]
fn renders_event_impl() {
    assert_eq!(
        rendered(Trait::Event(200), "KeyPressEvent"),
        "implEventforKeyPressEvent{constOPCODE:u8=200;}"
    );
}

#[test]
fn renders_error_impl() {
    assert_eq!(
        rendered(Trait::Error(1), "RequestError"),
        "implErrorforRequestError{constOPCODE:u8=1;}"
    );
}

#[test]
fn renders_request_impl() {
    assert_eq!(
        rendered(
            Trait::Request(3, TypeRef::Basic("GetWindowReply".to_string())),
            "GetWindowRequest"
        ),
        "implRequestforGetWindowRequest{constOPCODE:u8=3;typeReply=GetWindowReply;}"
    );
}

#[test]
fn renders_xid_impl() {
    assert_eq!(
        rendered(Trait::Xid, "Window"),
        "implXidTypeforWindow{fnxid(&self)->XID{self.xid}fnfrom_xid(id:XID)->Self{Self{xid:id}}}"
    );
}

#[test]
fn renders_enum_default_impl() {
    assert_eq!(
        rendered(Trait::EnumDefault("NorthWest".to_string()), "Gravity"),
        "implDefaultforGravity{fndefault()->Gravity{Gravity::NorthWest}}"
    );
}

#[test]
fn renders_legacy_conversion_impl() {
    assert_eq!(
        rendered(Trait::FromXid("Window".to_string()), "Drawable"),
        "implFrom<Window>forDrawable{fnfrom(base:Window)->Self{Self::from_xid(base.xid())}}"
    );
}

#[test]
fn renders_generic_reply_type() {
    assert_eq!(
        rendered(
            Trait::Request(
                5,
                TypeRef::Generic(
                    "Reply".to_string(),
                    Box::new(TypeRef::Basic("Window".to_string()))
                )
            ),
            "QueryRequest"
        ),
        "implRequestforQueryRequest{constOPCODE:u8=5;typeReply=Reply<Window>;}"
    );
}
