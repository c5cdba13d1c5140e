use rn_bindgen::gen_swift::filters::{
    supports_inline_optional_field, supports_map_type_name, supports_render_from_map,
    supports_render_to_map,
};
use rn_bindgen::gen_swift::filters::{
    inline_optional_field, list_arg, map_type_name, render_from_map, render_to_map, temporary,
    type_name_of, unquote, var_name,
};
use rn_bindgen::interface::{ComponentInterface, TypeIdentifier};

fn record(name: &str) -> TypeIdentifier {
    TypeIdentifier::Record(name.to_string())
}

fn enum_ty(name: &str) -> TypeIdentifier {
    TypeIdentifier::Enum(name.to_string())
}

fn optional(t: TypeIdentifier) -> TypeIdentifier {
    TypeIdentifier::Optional(Box::new(t))
}

fn sequence(t: TypeIdentifier) -> TypeIdentifier {
    TypeIdentifier::Sequence(Box::new(t))
}

fn interface() -> ComponentInterface {
    let mut ci = ComponentInterface::new("breez_sdk".to_string());
    ci.add_enum_definition("Network".to_string(), true);
    ci.add_enum_definition("InputType".to_string(), false);
    ci
}

#[test]
fn swift_type_names() {
    assert_eq!(type_name_of(&TypeIdentifier::UInt8).unwrap(), "UInt8");
    assert_eq!(type_name_of(&TypeIdentifier::Boolean).unwrap(), "Bool");
    assert_eq!(type_name_of(&TypeIdentifier::Float64).unwrap(), "Double");
    assert_eq!(type_name_of(&TypeIdentifier::Timestamp).unwrap(), "Date");
    assert_eq!(type_name_of(&record("ln_invoice")).unwrap(), "LnInvoice");
    assert_eq!(type_name_of(&optional(TypeIdentifier::String)).unwrap(), "String?");
    assert_eq!(type_name_of(&sequence(record("route_hint"))).unwrap(), "[RouteHint]");
    let map = TypeIdentifier::Mapping(Box::new(TypeIdentifier::String), Box::new(TypeIdentifier::UInt8));
    assert_eq!(type_name_of(&map).unwrap(), "[String: UInt8]");
}

#[test]
fn swift_render_to_map_scalars_and_prefix() {
    let ci = interface();
    assert_eq!(render_to_map(&TypeIdentifier::UInt64, &ci, "res", "amountMsat", false).unwrap(), "res.amountMsat");
    assert_eq!(render_to_map(&TypeIdentifier::UInt64, &ci, "", "amountMsat", false).unwrap(), "amountMsat");
    assert_eq!(render_to_map(&TypeIdentifier::Boolean, &ci, "res", "paid", true).unwrap(), "res.paid");
}

#[test]
fn swift_render_to_map_records() {
    let ci = interface();
    assert_eq!(render_to_map(&record("ln_invoice"), &ci, "res", "invoice", false).unwrap(), "dictionaryOf(lnInvoice: res.invoice)");
    assert_eq!(
        render_to_map(&record("ln_invoice"), &ci, "res", "invoice", true).unwrap(),
        "res.invoice == nil ? nil : { dictionaryOf(lnInvoice: res.invoice!) }"
    );
}

#[test]
fn swift_render_to_map_enums() {
    let ci = interface();
    assert_eq!(render_to_map(&enum_ty("Network"), &ci, "res", "network", false).unwrap(), "valueOf( network: res.network)");
    assert_eq!(render_to_map(&enum_ty("Network"), &ci, "res", "network", true).unwrap(), "valueOf( network:  res.network!)");
    assert_eq!(render_to_map(&enum_ty("InputType"), &ci, "res", "input", false).unwrap(), "dictionaryOf(inputType: res.input)");
    assert_eq!(render_to_map(&enum_ty("InputType"), &ci, "res", "input", true).unwrap(), "dictionaryOf(inputType: res.input!)");
}

#[test]
fn swift_render_to_map_optionals_and_sequences() {
    let ci = interface();
    assert_eq!(
        render_to_map(&optional(record("ln_invoice")), &ci, "res", "invoice", false).unwrap(),
        "res.invoice == nil ? nil : res.invoice == nil ? nil : { dictionaryOf(lnInvoice: res.invoice!) }"
    );
    assert_eq!(render_to_map(&optional(TypeIdentifier::UInt32), &ci, "", "fee", false).unwrap(), "fee == nil ? nil : fee");
    assert_eq!(render_to_map(&sequence(record("RouteHint")), &ci, "res", "hints", false).unwrap(), "arrayOf(routeHintList: res.hints)");
    assert_eq!(render_to_map(&sequence(record("RouteHint")), &ci, "res", "hints", true).unwrap(), "arrayOf(routeHintList: res.hints!)");
    assert_eq!(render_to_map(&sequence(enum_ty("Network")), &ci, "res", "nets", false).unwrap(), "arrayOf(networkList: res.nets)");
    assert_eq!(render_to_map(&sequence(TypeIdentifier::UInt8), &ci, "res", "bytes", true).unwrap(), "res.bytes");
}

#[test]
fn swift_map_type_names() {
    let ci = interface();
    assert_eq!(map_type_name(&record("ln_invoice"), &ci).unwrap(), "[String: Any?]");
    assert_eq!(map_type_name(&enum_ty("Network"), &ci).unwrap(), "String");
    assert_eq!(map_type_name(&enum_ty("InputType"), &ci).unwrap(), "[String: Any?]");
    assert_eq!(map_type_name(&optional(TypeIdentifier::UInt64), &ci).unwrap(), "UInt64");
    assert_eq!(map_type_name(&sequence(record("hint")), &ci).unwrap(), "[[String: Any?]]");
    assert_eq!(map_type_name(&sequence(sequence(TypeIdentifier::UInt8)), &ci).unwrap(), "[[UInt8]]");
    assert_eq!(map_type_name(&TypeIdentifier::String, &ci).unwrap(), "String");
}

#[test]
fn swift_inline_optional_field() {
    let ci = interface();
    assert!(inline_optional_field(&TypeIdentifier::UInt64, &ci).unwrap());
    assert!(!inline_optional_field(&record("X"), &ci).unwrap());
    assert!(!inline_optional_field(&enum_ty("Network"), &ci).unwrap());
    assert!(inline_optional_field(&sequence(TypeIdentifier::UInt8), &ci).unwrap());
    assert!(!inline_optional_field(&sequence(record("hint")), &ci).unwrap());
    assert!(inline_optional_field(&optional(TypeIdentifier::String), &ci).unwrap());
    assert!(!inline_optional_field(&optional(optional(record("X"))), &ci).unwrap());
}

#[test]
fn swift_inline_iff_same_name() {
    let ci = interface();
    for t in [TypeIdentifier::UInt64, record("ln_invoice"), enum_ty("Network"), sequence(TypeIdentifier::UInt8)] {
        let same = map_type_name(&t, &ci).unwrap() == type_name_of(&t).unwrap();
        assert_eq!(inline_optional_field(&t, &ci).unwrap(), same);
    }
}

#[test]
fn swift_render_from_map() {
    let ci = interface();
    assert_eq!(render_from_map(&TypeIdentifier::UInt32, &ci, "v").unwrap(), "v");
    assert_eq!(render_from_map(&TypeIdentifier::String, &ci, "v").unwrap(), "v");
    assert_eq!(render_from_map(&record("ln_invoice"), &ci, "v").unwrap(), "try asLnInvoice(data: v)");
    assert_eq!(render_from_map(&enum_ty("Network"), &ci, "v").unwrap(), "try asNetwork(type: v)");
    assert_eq!(render_from_map(&enum_ty("InputType"), &ci, "v").unwrap(), "try asInputType(data: v)");
    assert_eq!(render_from_map(&sequence(record("route_hint")), &ci, "v").unwrap(), "try asRouteHintList(arr: v)");
    assert_eq!(render_from_map(&sequence(TypeIdentifier::UInt8), &ci, "v").unwrap(), "v");
    assert_eq!(render_from_map(&TypeIdentifier::Timestamp, &ci, "v").unwrap(), "");
    assert_eq!(render_from_map(&TypeIdentifier::CallbackInterface("Listener".to_string()), &ci, "v").unwrap(), "");
    assert_eq!(render_from_map(&optional(record("ln_invoice")), &ci, "v").unwrap(), "try asLnInvoice(data: v)");
}

#[test]
fn swift_optionals_are_looked_through() {
    let ci = interface();
    let types = || [TypeIdentifier::UInt64, record("ln_invoice"), enum_ty("InputType"), sequence(record("hint"))];
    for (t, inner) in types().into_iter().zip(types()) {
        let o = optional(inner);
        assert_eq!(map_type_name(&o, &ci).unwrap(), map_type_name(&t, &ci).unwrap());
        assert_eq!(inline_optional_field(&o, &ci).unwrap(), inline_optional_field(&t, &ci).unwrap());
        assert_eq!(render_from_map(&o, &ci, "v").unwrap(), render_from_map(&t, &ci, "v").unwrap());
    }
}

#[test]
fn swift_names() {
    assert_eq!(var_name("route_hint").unwrap(), "`routeHint`");
    assert_eq!(unquote("`routeHint`").unwrap(), "routeHint");
    assert_eq!(list_arg("hint").unwrap(), "`hintList`");
    assert_eq!(temporary("hint").unwrap(), "hintTmp");
}

#[test]
fn swift_supported_types() {
    let ci = interface();
    let unresolved = || TypeIdentifier::Unresolved { name: "U".to_string() };
    assert!(supports_render_to_map(&optional(record("R")), &ci));
    assert!(!supports_render_to_map(&sequence(unresolved()), &ci));
    assert!(!supports_render_to_map(&TypeIdentifier::Duration, &ci));
    assert!(supports_map_type_name(&TypeIdentifier::Timestamp, &ci));
    assert!(!supports_map_type_name(&sequence(enum_ty("Unknown")), &ci));
    assert!(!supports_map_type_name(&unresolved(), &ci));
    assert!(supports_inline_optional_field(&optional(sequence(record("R"))), &ci));
    assert!(!supports_inline_optional_field(&optional(enum_ty("Unknown")), &ci));
    assert!(supports_render_from_map(&TypeIdentifier::Object("O".to_string()), &ci));
    assert!(!supports_render_from_map(&sequence(unresolved()), &ci));
}

#[test]
fn swift_dictionaries_never_inline_and_scalars_always_do() {
    let ci = interface();
    for name in ["ln_invoice", "String", "x"] {
        assert!(!inline_optional_field(&record(name), &ci).unwrap());
        assert!(!inline_optional_field(&optional(record(name)), &ci).unwrap());
    }
    assert!(!inline_optional_field(&enum_ty("InputType"), &ci).unwrap());
    for t in [TypeIdentifier::UInt8, TypeIdentifier::Int64, TypeIdentifier::Float32, TypeIdentifier::Boolean, TypeIdentifier::String] {
        assert!(inline_optional_field(&optional(t), &ci).unwrap());
    }
}

#[test]
fn swift_label_shapes() {
    assert_eq!(type_name_of(&TypeIdentifier::Int16).unwrap(), "Int16");
    assert_eq!(type_name_of(&TypeIdentifier::Duration).unwrap(), "TimeInterval");
    assert_eq!(type_name_of(&TypeIdentifier::Error("SendPaymentError".to_string())).unwrap(), "SendPaymentError");
    let ext = TypeIdentifier::External { name: "Url".to_string(), crate_name: "url".to_string() };
    assert_eq!(type_name_of(&ext).unwrap(), "Url");
}

#[test]
fn swift_sequence_map_type_is_bracketed() {
    let ci = interface();
    for t in [TypeIdentifier::UInt64, record("ln_invoice"), enum_ty("Network")] {
        let inner = map_type_name(&t, &ci).unwrap();
        assert_eq!(map_type_name(&sequence(t), &ci).unwrap(), format!("[{inner}]"));
    }
}
