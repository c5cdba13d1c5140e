use rn_bindgen::interface::{ComponentInterface, EnumDefinition};

#[test]
fn new_interface_has_namespace_and_no_enum() {
    let ci = ComponentInterface::new("breez_sdk".to_string());
    assert_eq!(ci.namespace(), "breez_sdk");
    assert!(ci.get_enum_definition("Network").is_none());
}

#[test]
fn enum_definition_read_after_write() {
    let mut ci = ComponentInterface::new("ns".to_string());
    ci.add_enum_definition("Network".to_string(), true);
    ci.add_enum_definition("InputType".to_string(), false);
    let network = ci.get_enum_definition("Network").unwrap();
    assert_eq!(network.name(), "Network");
    assert!(network.is_flat());
    assert!(!ci.get_enum_definition("InputType").unwrap().is_flat());
    assert!(ci.get_enum_definition("network").is_none());
    assert!(ci.get_enum_definition("").is_none());
}

#[test]
fn redefining_an_enum_replaces_it_and_keeps_others() {
    let mut ci = ComponentInterface::new("ns".to_string());
    ci.add_enum_definition("A".to_string(), true);
    ci.add_enum_definition("B".to_string(), true);
    ci.add_enum_definition("A".to_string(), false);
    assert!(!ci.get_enum_definition("A").unwrap().is_flat());
    assert!(ci.get_enum_definition("B").unwrap().is_flat());
    assert_eq!(ci.namespace(), "ns");
}

#[test]
fn enum_definition_accessors() {
    let d = EnumDefinition::new("PaymentType".to_string(), true);
    assert_eq!(d.name(), "PaymentType");
    assert!(d.is_flat());
}

use rn_bindgen::interface::TypeIdentifier;
use rn_bindgen::oracle::uniffi_type;
use uniffi_bindgen::interface::Type;

#[test]
fn uniffi_type_is_the_same_type() {
    assert_eq!(uniffi_type(&TypeIdentifier::UInt8), Type::UInt8);
    assert_eq!(uniffi_type(&TypeIdentifier::Record("R".to_string())), Type::Record("R".to_string()));
    let t = TypeIdentifier::Mapping(
        Box::new(TypeIdentifier::String),
        Box::new(TypeIdentifier::Optional(Box::new(TypeIdentifier::Enum("E".to_string())))),
    );
    let expected = Type::Map(
        Box::new(Type::String),
        Box::new(Type::Optional(Box::new(Type::Enum("E".to_string())))),
    );
    assert_eq!(uniffi_type(&t), expected);
    assert_eq!(
        uniffi_type(&TypeIdentifier::Custom { name: "Url".to_string(), builtin: Box::new(TypeIdentifier::String) }),
        Type::Custom { name: "Url".to_string(), builtin: Box::new(Type::String) }
    );
}

#[test]
fn resolved_and_scalar_types() {
    let unresolved = || TypeIdentifier::Unresolved { name: "X".to_string() };
    assert!(!unresolved().is_resolved());
    assert!(!TypeIdentifier::Sequence(Box::new(unresolved())).is_resolved());
    assert!(!TypeIdentifier::Mapping(Box::new(TypeIdentifier::String), Box::new(unresolved())).is_resolved());
    assert!(TypeIdentifier::Custom { name: "C".to_string(), builtin: Box::new(unresolved()) }.is_resolved());
    assert!(TypeIdentifier::Int64.is_scalar());
    assert!(!TypeIdentifier::Timestamp.is_scalar());
    assert!(!TypeIdentifier::Record("R".to_string()).is_scalar());
}

#[test]
fn defined_enums() {
    let mut ci = ComponentInterface::new("ns".to_string());
    ci.add_enum_definition("Network".to_string(), true);
    assert!(TypeIdentifier::Enum("Network".to_string()).is_defined_enum(&ci));
    assert!(!TypeIdentifier::Enum("Other".to_string()).is_defined_enum(&ci));
    assert!(!TypeIdentifier::Record("Network".to_string()).is_defined_enum(&ci));
}
