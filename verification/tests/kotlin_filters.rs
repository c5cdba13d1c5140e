use rn_bindgen::gen_kotlin::filters::{supports_render_from_map, supports_render_to_map};
use rn_bindgen::gen_kotlin::filters::{
    render_from_map, render_to_array, render_to_map, type_name_of, unquote, var_name,
};
use rn_bindgen::interface::{ComponentInterface, TypeIdentifier};

fn record(name: &str) -> TypeIdentifier {
    TypeIdentifier::Record(name.to_string())
}

fn enum_ty(name: &str) -> TypeIdentifier {
    TypeIdentifier::Enum(name.to_string())
}

fn optional(t: TypeIdentifier) -> TypeIdentifier {
    TypeIdentifier::Optional(Box::new(t))
}

fn sequence(t: TypeIdentifier) -> TypeIdentifier {
    TypeIdentifier::Sequence(Box::new(t))
}

fn interface() -> ComponentInterface {
    let mut ci = ComponentInterface::new("breez_sdk".to_string());
    ci.add_enum_definition("Network".to_string(), true);
    ci.add_enum_definition("InputType".to_string(), false);
    ci
}

#[test]
fn kotlin_type_names_of_builtins() {
    assert_eq!(type_name_of(&TypeIdentifier::UInt8).unwrap(), "UByte");
    assert_eq!(type_name_of(&TypeIdentifier::Int32).unwrap(), "Int");
    assert_eq!(type_name_of(&TypeIdentifier::UInt64).unwrap(), "ULong");
    assert_eq!(type_name_of(&TypeIdentifier::Float64).unwrap(), "Double");
    assert_eq!(type_name_of(&TypeIdentifier::Boolean).unwrap(), "Boolean");
    assert_eq!(type_name_of(&TypeIdentifier::String).unwrap(), "String");
}

#[test]
fn kotlin_type_names_of_defined_and_compound_types() {
    assert_eq!(type_name_of(&record("ln_invoice")).unwrap(), "LnInvoice");
    assert_eq!(type_name_of(&optional(TypeIdentifier::UInt32)).unwrap(), "UInt?");
    assert_eq!(type_name_of(&sequence(record("route_hint"))).unwrap(), "List<RouteHint>");
    assert_eq!(type_name_of(&TypeIdentifier::Error("SendPaymentError".to_string())).unwrap(), "SendPaymentException");
}

#[test]
fn render_to_array_known_types() {
    assert_eq!(render_to_array("Boolean").unwrap(), "array.pushBoolean(value)");
    assert_eq!(render_to_array("Double").unwrap(), "array.pushDouble(value)");
    assert_eq!(render_to_array("Int").unwrap(), "array.pushInt(value)");
    assert_eq!(render_to_array("ReadableArray").unwrap(), "array.pushArray(value)");
    assert_eq!(render_to_array("ReadableMap").unwrap(), "array.pushMap(value)");
    assert_eq!(render_to_array("String").unwrap(), "array.pushString(value)");
    assert_eq!(render_to_array("UByte").unwrap(), "array.pushInt(value.toInt())");
    assert_eq!(render_to_array("UInt").unwrap(), "array.pushInt(value.toInt())");
    assert_eq!(render_to_array("UShort").unwrap(), "array.pushInt(value.toInt())");
    assert_eq!(render_to_array("ULong").unwrap(), "array.pushDouble(value.toDouble())");
}

#[test]
fn render_to_array_other_types_push_a_map() {
    assert_eq!(render_to_array("LnInvoice").unwrap(), "array.pushMap(readableMapOf(value))");
    assert_eq!(render_to_array("").unwrap(), "array.pushMap(readableMapOf(value))");
    assert_eq!(render_to_array("boolean").unwrap(), "array.pushMap(readableMapOf(value))");
}

#[test]
fn kotlin_render_to_map_scalars() {
    let ci = interface();
    assert_eq!(render_to_map(&TypeIdentifier::UInt64, &ci, "invoice", "amountMsat", false).unwrap(), "invoice.amountMsat");
    assert_eq!(render_to_map(&TypeIdentifier::String, &ci, "invoice", "bolt11", true).unwrap(), "invoice.bolt11");
}

#[test]
fn kotlin_render_to_map_records_and_sequences() {
    let ci = interface();
    assert_eq!(render_to_map(&record("RouteHint"), &ci, "o", "hint", false).unwrap(), "readableMapOf(o.hint)");
    assert_eq!(render_to_map(&record("RouteHint"), &ci, "o", "hint", true).unwrap(), "o.hint?.let { readableMapOf(it) }");
    assert_eq!(render_to_map(&sequence(TypeIdentifier::UInt8), &ci, "o", "bytes", false).unwrap(), "readableArrayOf(o.bytes)");
    assert_eq!(render_to_map(&sequence(TypeIdentifier::UInt8), &ci, "o", "bytes", true).unwrap(), "o.bytes?.let { readableArrayOf(it) }");
}

#[test]
fn kotlin_render_to_map_enums() {
    let ci = interface();
    assert_eq!(render_to_map(&enum_ty("Network"), &ci, "o", "network", false).unwrap(), "o.network.name.lowercase()");
    assert_eq!(render_to_map(&enum_ty("Network"), &ci, "o", "network", true).unwrap(), "o.network?.let { it.name.lowercase() }");
    assert_eq!(render_to_map(&enum_ty("InputType"), &ci, "o", "input", false).unwrap(), "readableMapOf(o.input)");
    assert_eq!(render_to_map(&enum_ty("InputType"), &ci, "o", "input", true).unwrap(), "o.input?.let { readableMapOf(it) }");
}

#[test]
fn kotlin_optional_fields_render_as_nullable() {
    let ci = interface();
    let inner = render_to_map(&record("RouteHint"), &ci, "o", "hint", true).unwrap();
    assert_eq!(render_to_map(&optional(record("RouteHint")), &ci, "o", "hint", false).unwrap(), inner);
    assert_eq!(render_to_map(&optional(optional(record("RouteHint"))), &ci, "o", "hint", false).unwrap(), inner);
    let from_inner = render_from_map(&TypeIdentifier::String, &ci, "label", true).unwrap();
    assert_eq!(render_from_map(&optional(TypeIdentifier::String), &ci, "label", false).unwrap(), from_inner);
}

#[test]
fn kotlin_render_from_map_numbers() {
    let ci = interface();
    assert_eq!(render_from_map(&TypeIdentifier::UInt8, &ci, "n", false).unwrap(), "data.getInt(\"n\").toUByte()");
    assert_eq!(render_from_map(&TypeIdentifier::Int8, &ci, "n", false).unwrap(), "data.getInt(\"n\").toByte()");
    assert_eq!(render_from_map(&TypeIdentifier::UInt16, &ci, "n", false).unwrap(), "data.getInt(\"n\").toUShort()");
    assert_eq!(render_from_map(&TypeIdentifier::Int16, &ci, "n", false).unwrap(), "data.getInt(\"n\").toShort()");
    assert_eq!(render_from_map(&TypeIdentifier::UInt32, &ci, "n", false).unwrap(), "data.getInt(\"n\").toUInt()");
    assert_eq!(render_from_map(&TypeIdentifier::Int32, &ci, "n", false).unwrap(), "data.getInt(\"n\")");
    assert_eq!(render_from_map(&TypeIdentifier::UInt64, &ci, "n", false).unwrap(), "data.getInt(\"n\").toULong()");
    assert_eq!(render_from_map(&TypeIdentifier::Int64, &ci, "n", false).unwrap(), "data.getInt(\"n\").toLong()");
    assert_eq!(render_from_map(&TypeIdentifier::Float32, &ci, "n", false).unwrap(), "data.getDouble(\"n\")");
    assert_eq!(render_from_map(&TypeIdentifier::Float64, &ci, "n", true).unwrap(), "data.getDouble(\"n\")");
}

#[test]
fn kotlin_render_from_map_mandatory_suffix() {
    let ci = interface();
    assert_eq!(render_from_map(&TypeIdentifier::Boolean, &ci, "paid", false).unwrap(), "data.getBoolean(\"paid\")");
    assert_eq!(render_from_map(&TypeIdentifier::String, &ci, "bolt11", false).unwrap(), "data.getString(\"bolt11\")!!");
    assert_eq!(render_from_map(&TypeIdentifier::String, &ci, "bolt11", true).unwrap(), "data.getString(\"bolt11\")");
}

#[test]
fn kotlin_render_from_map_defined_types() {
    let ci = interface();
    assert_eq!(render_from_map(&record("ln_invoice"), &ci, "invoice", false).unwrap(), "data.getMap(\"invoice\")?.let { asLnInvoice(it)}!!");
    assert_eq!(render_from_map(&enum_ty("Network"), &ci, "network", false).unwrap(), "data.getString(\"network\")?.let { asNetwork(it)}!!");
    assert_eq!(render_from_map(&enum_ty("InputType"), &ci, "input", true).unwrap(), "data.getMap(\"input\")?.let { asInputType(it)}");
    assert_eq!(render_from_map(&sequence(record("route_hint")), &ci, "hints", false).unwrap(), "data.getArray(\"hints\")?.let { asRouteHintList(it) }!!");
}

#[test]
fn kotlin_render_from_map_unread_types_are_empty() {
    let ci = interface();
    assert_eq!(render_from_map(&TypeIdentifier::Timestamp, &ci, "t", false).unwrap(), "");
    assert_eq!(render_from_map(&TypeIdentifier::Object("Sdk".to_string()), &ci, "t", false).unwrap(), "");
    let map = TypeIdentifier::Mapping(Box::new(TypeIdentifier::String), Box::new(TypeIdentifier::UInt8));
    assert_eq!(render_from_map(&map, &ci, "t", false).unwrap(), "");
}

#[test]
fn kotlin_var_name_quotes_lower_camel_case() {
    assert_eq!(var_name("amount_msat").unwrap(), "`amountMsat`");
    assert_eq!(var_name("LnInvoice").unwrap(), "`lnInvoice`");
    assert_eq!(var_name("").unwrap(), "``");
}

#[test]
fn kotlin_unquote_trims_backticks() {
    assert_eq!(unquote("`amountMsat`").unwrap(), "amountMsat");
    assert_eq!(unquote("``a`b``").unwrap(), "a`b");
    assert_eq!(unquote("````").unwrap(), "");
    assert_eq!(unquote("plain").unwrap(), "plain");
}

#[test]
fn kotlin_unquote_undoes_var_name() {
    for nm in ["amount_msat", "LnInvoice", "x", "", "payment-hash"] {
        let quoted = var_name(nm).unwrap();
        let unquoted = unquote(&quoted).unwrap();
        assert_eq!(format!("`{}`", unquoted), quoted);
        assert_eq!(unquote(&unquoted).unwrap(), unquoted);
    }
}

#[test]
fn kotlin_supported_types() {
    let ci = interface();
    assert!(supports_render_to_map(&TypeIdentifier::UInt8, &ci));
    assert!(supports_render_to_map(&optional(enum_ty("Network")), &ci));
    assert!(!supports_render_to_map(&enum_ty("Unknown"), &ci));
    assert!(!supports_render_to_map(&TypeIdentifier::Timestamp, &ci));
    assert!(!supports_render_to_map(&optional(TypeIdentifier::Object("O".to_string())), &ci));
    assert!(supports_render_from_map(&TypeIdentifier::Timestamp, &ci));
    assert!(!supports_render_from_map(&optional(enum_ty("Unknown")), &ci));
    assert!(!supports_render_from_map(&sequence(TypeIdentifier::Unresolved { name: "U".to_string() }), &ci));
}

#[test]
fn kotlin_mandatory_entries_add_non_null_assertion() {
    let ci = interface();
    for t in [TypeIdentifier::String, record("ln_invoice"), enum_ty("Network"), sequence(record("hint"))] {
        let mandatory = render_from_map(&t, &ci, "k", false).unwrap();
        let optional_read = render_from_map(&t, &ci, "k", true).unwrap();
        assert_eq!(mandatory, format!("{}!!", optional_read));
    }
    for t in [TypeIdentifier::UInt8, TypeIdentifier::Boolean, TypeIdentifier::Duration] {
        assert_eq!(render_from_map(&t, &ci, "k", false).unwrap(), render_from_map(&t, &ci, "k", true).unwrap());
    }
}

#[test]
fn kotlin_label_shapes() {
    assert_eq!(type_name_of(&TypeIdentifier::Int8).unwrap(), "Byte");
    assert_eq!(type_name_of(&TypeIdentifier::UInt16).unwrap(), "UShort");
    assert_eq!(type_name_of(&TypeIdentifier::Timestamp).unwrap(), "java.time.Instant");
    assert_eq!(type_name_of(&TypeIdentifier::Duration).unwrap(), "java.time.Duration");
    let map = TypeIdentifier::Mapping(Box::new(TypeIdentifier::String), Box::new(TypeIdentifier::Int32));
    assert_eq!(type_name_of(&map).unwrap(), "Map<String, Int>");
    let custom = TypeIdentifier::Custom { name: "Url".to_string(), builtin: Box::new(TypeIdentifier::String) };
    assert_eq!(type_name_of(&custom).unwrap(), "Url");
    let label = type_name_of(&TypeIdentifier::UInt16).unwrap();
    assert_eq!(render_to_array(&label).unwrap(), "array.pushInt(value.toInt())");
}

#[test]
fn kotlin_optional_reads_are_never_asserted() {
    let ci = interface();
    for t in [TypeIdentifier::String, record("ln_invoice"), enum_ty("Network"), sequence(record("hint")), TypeIdentifier::UInt8] {
        let r = render_from_map(&optional(t), &ci, "k", false).unwrap();
        assert!(!r.ends_with("!!"));
        assert!(r.ends_with(')') || r.ends_with('}'));
    }
}
