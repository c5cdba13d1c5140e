//! Type labels of the Kotlin and Swift code oracles of uniffi's binding generator.

use vstd::prelude::*;
use uniffi_bindgen::backend::CodeType;
use uniffi_bindgen::bindings::kotlin::gen_kotlin::KotlinCodeOracle;
use uniffi_bindgen::bindings::swift::gen_swift::SwiftCodeOracle;
use uniffi_bindgen::interface::Type as UniffiType;
use crate::interface::{is_resolved, TypeIdentifier, TypeView};
use crate::text::all_ascii_alnum;

verus! {

/// uniffi's own `Type`. Its variants and their fields, all public and all of types that
/// Verus knows (`String` and boxed `Type`s), are read by Verus from the definition
/// itself, so that verified code builds values of it and states what they are.
#[verifier::external_type_specification]
pub struct ExUniffiType(uniffi_bindgen::interface::Type);

/// The label that uniffi's Kotlin code oracle gives the type `t`: the name by which
/// generated Kotlin code refers to it.
pub uninterp spec fn kotlin_type_label(t: TypeView) -> Seq<char>;

/// The label that uniffi's Swift code oracle gives the type `t`: the name by which
/// generated Swift code refers to it.
pub uninterp spec fn swift_type_label(t: TypeView) -> Seq<char>;

/// What uniffi's Kotlin code oracle shows of the label `l` of the type `t`: the fixed
/// labels of the built-in types, the forms of optionals, lists and maps around the
/// labels of their components, the name of an external or custom type, and, for an
/// object, record, enum, error or callback interface (labelled from heck's upper camel
/// case of its name), only ASCII letters and digits.
pub open spec fn kotlin_label_shape(t: TypeView, l: Seq<char>) -> bool {
    match t {
        TypeView::UInt8 => l == "UByte"@,
        TypeView::Int8 => l == "Byte"@,
        TypeView::UInt16 => l == "UShort"@,
        TypeView::Int16 => l == "Short"@,
        TypeView::UInt32 => l == "UInt"@,
        TypeView::Int32 => l == "Int"@,
        TypeView::UInt64 => l == "ULong"@,
        TypeView::Int64 => l == "Long"@,
        TypeView::Float32 => l == "Float"@,
        TypeView::Float64 => l == "Double"@,
        TypeView::Boolean => l == "Boolean"@,
        TypeView::String => l == "String"@,
        TypeView::Timestamp => l == "java.time.Instant"@,
        TypeView::Duration => l == "java.time.Duration"@,
        TypeView::Optional(i) => l == kotlin_type_label(*i) + "?"@,
        TypeView::Sequence(i) => l == "List<"@ + kotlin_type_label(*i) + ">"@,
        TypeView::Mapping(k, v) => l == "Map<"@ + kotlin_type_label(*k) + ", "@
            + kotlin_type_label(*v) + ">"@,
        TypeView::External { name, .. } => l == name,
        TypeView::Custom { name, .. } => l == name,
        TypeView::Unresolved { .. } => true,
        _ => all_ascii_alnum(l),
    }
}

/// What uniffi's Swift code oracle shows of the label `l` of the type `t`, as
/// `kotlin_label_shape` does for Kotlin.
pub open spec fn swift_label_shape(t: TypeView, l: Seq<char>) -> bool {
    match t {
        TypeView::UInt8 => l == "UInt8"@,
        TypeView::Int8 => l == "Int8"@,
        TypeView::UInt16 => l == "UInt16"@,
        TypeView::Int16 => l == "Int16"@,
        TypeView::UInt32 => l == "UInt32"@,
        TypeView::Int32 => l == "Int32"@,
        TypeView::UInt64 => l == "UInt64"@,
        TypeView::Int64 => l == "Int64"@,
        TypeView::Float32 => l == "Float"@,
        TypeView::Float64 => l == "Double"@,
        TypeView::Boolean => l == "Bool"@,
        TypeView::String => l == "String"@,
        TypeView::Timestamp => l == "Date"@,
        TypeView::Duration => l == "TimeInterval"@,
        TypeView::Optional(i) => l == swift_type_label(*i) + "?"@,
        TypeView::Sequence(i) => l == "["@ + swift_type_label(*i) + "]"@,
        TypeView::Mapping(k, v) => l == "["@ + swift_type_label(*k) + ": "@ + swift_type_label(*v)
            + "]"@,
        TypeView::External { name, .. } => l == name,
        TypeView::Custom { name, .. } => l == name,
        TypeView::Unresolved { .. } => true,
        _ => all_ascii_alnum(l),
    }
}

/// The mathematical value of one of uniffi's own types.
pub open spec fn uniffi_view(u: UniffiType) -> TypeView
    decreases u,
{
    match u {
        UniffiType::UInt8 => TypeView::UInt8,
        UniffiType::Int8 => TypeView::Int8,
        UniffiType::UInt16 => TypeView::UInt16,
        UniffiType::Int16 => TypeView::Int16,
        UniffiType::UInt32 => TypeView::UInt32,
        UniffiType::Int32 => TypeView::Int32,
        UniffiType::UInt64 => TypeView::UInt64,
        UniffiType::Int64 => TypeView::Int64,
        UniffiType::Float32 => TypeView::Float32,
        UniffiType::Float64 => TypeView::Float64,
        UniffiType::Boolean => TypeView::Boolean,
        UniffiType::String => TypeView::String,
        UniffiType::Timestamp => TypeView::Timestamp,
        UniffiType::Duration => TypeView::Duration,
        UniffiType::Object(n) => TypeView::Object(n@),
        UniffiType::Record(n) => TypeView::Record(n@),
        UniffiType::Enum(n) => TypeView::Enum(n@),
        UniffiType::Error(n) => TypeView::Error(n@),
        UniffiType::CallbackInterface(n) => TypeView::CallbackInterface(n@),
        UniffiType::Optional(i) => TypeView::Optional(Box::new(uniffi_view(*i))),
        UniffiType::Sequence(i) => TypeView::Sequence(Box::new(uniffi_view(*i))),
        UniffiType::Map(k, v) => TypeView::Mapping(
            Box::new(uniffi_view(*k)),
            Box::new(uniffi_view(*v)),
        ),
        UniffiType::External { name, crate_name } => TypeView::External {
            name: name@,
            crate_name: crate_name@,
        },
        UniffiType::Custom { name, builtin } => TypeView::Custom {
            name: name@,
            builtin: Box::new(uniffi_view(*builtin)),
        },
        UniffiType::Unresolved { name } => TypeView::Unresolved { name: name@ },
    }
}

/// The same type as a value of uniffi's own `Type`, variant for variant and name for name.
pub fn uniffi_type(t: &TypeIdentifier) -> (u: UniffiType)
    ensures
        uniffi_view(u) == t@,
    decreases t,
{
    match t {
        TypeIdentifier::UInt8 => UniffiType::UInt8,
        TypeIdentifier::Int8 => UniffiType::Int8,
        TypeIdentifier::UInt16 => UniffiType::UInt16,
        TypeIdentifier::Int16 => UniffiType::Int16,
        TypeIdentifier::UInt32 => UniffiType::UInt32,
        TypeIdentifier::Int32 => UniffiType::Int32,
        TypeIdentifier::UInt64 => UniffiType::UInt64,
        TypeIdentifier::Int64 => UniffiType::Int64,
        TypeIdentifier::Float32 => UniffiType::Float32,
        TypeIdentifier::Float64 => UniffiType::Float64,
        TypeIdentifier::Boolean => UniffiType::Boolean,
        TypeIdentifier::String => UniffiType::String,
        TypeIdentifier::Timestamp => UniffiType::Timestamp,
        TypeIdentifier::Duration => UniffiType::Duration,
        TypeIdentifier::Object(n) => UniffiType::Object(n.clone()),
        TypeIdentifier::Record(n) => UniffiType::Record(n.clone()),
        TypeIdentifier::Enum(n) => UniffiType::Enum(n.clone()),
        TypeIdentifier::Error(n) => UniffiType::Error(n.clone()),
        TypeIdentifier::CallbackInterface(n) => UniffiType::CallbackInterface(n.clone()),
        TypeIdentifier::Optional(i) => UniffiType::Optional(Box::new(uniffi_type(i))),
        TypeIdentifier::Sequence(i) => UniffiType::Sequence(Box::new(uniffi_type(i))),
        TypeIdentifier::Mapping(k, v) => UniffiType::Map(
            Box::new(uniffi_type(k)),
            Box::new(uniffi_type(v)),
        ),
        TypeIdentifier::External { name, crate_name } => UniffiType::External {
            name: name.clone(),
            crate_name: crate_name.clone(),
        },
        TypeIdentifier::Custom { name, builtin } => UniffiType::Custom {
            name: name.clone(),
            builtin: Box::new(uniffi_type(builtin)),
        },
        TypeIdentifier::Unresolved { name } => UniffiType::Unresolved { name: name.clone() },
    }
}

/// `uniffi_bindgen::backend::CodeType::type_label` of one of uniffi's types, with
/// uniffi's `KotlinCodeOracle`.
///
/// Trusted: the result is `kotlin_type_label(uniffi_view(*u))`, with the shape that
/// `kotlin_label_shape` gives (the oracle's fixed built-in labels and compound forms; an
/// object, record, enum or callback interface labelled by heck's upper camel case of its
/// name, and an error by that with a trailing `Error` made `Exception`, so only ASCII
/// letters and digits while no crate of the build turns on heck's `unicode` feature).
/// The oracle panics on an `Unresolved` type reached through optional, sequence and map
/// components; those inputs are excluded.
#[verifier::external_body]
fn kotlin_type_label_of(u: &UniffiType) -> (r: String)
    requires
        is_resolved(uniffi_view(*u)),
    ensures
        r@ == kotlin_type_label(uniffi_view(*u)),
        kotlin_label_shape(uniffi_view(*u), r@),
{
    u.type_label(&KotlinCodeOracle)
}

/// `uniffi_bindgen::backend::CodeType::type_label` of one of uniffi's types, with
/// uniffi's `SwiftCodeOracle`.
///
/// Trusted: the result is `swift_type_label(uniffi_view(*u))`, with the shape that
/// `swift_label_shape` gives (the oracle's fixed built-in labels and compound forms; an
/// object, record, enum, error or callback interface labelled by heck's upper camel
/// case of its name, so only ASCII letters and digits while no crate of the build turns
/// on heck's `unicode` feature). The oracle panics on an `Unresolved` type reached
/// through optional, sequence and map components; those inputs are excluded.
#[verifier::external_body]
fn swift_type_label_of(u: &UniffiType) -> (r: String)
    requires
        is_resolved(uniffi_view(*u)),
    ensures
        r@ == swift_type_label(uniffi_view(*u)),
        swift_label_shape(uniffi_view(*u), r@),
{
    u.type_label(&SwiftCodeOracle)
}

/// The label that the Kotlin code oracle gives the type.
pub(crate) fn kotlin_label_of(t: &TypeIdentifier) -> (r: String)
    requires
        is_resolved(t@),
    ensures
        r@ == kotlin_type_label(t@),
        kotlin_label_shape(t@, r@),
{
    let u = uniffi_type(t);
    kotlin_type_label_of(&u)
}

/// The label that the Swift code oracle gives the type.
pub(crate) fn swift_label_of(t: &TypeIdentifier) -> (r: String)
    requires
        is_resolved(t@),
    ensures
        r@ == swift_type_label(t@),
        swift_label_shape(t@, r@),
{
    let u = uniffi_type(t);
    swift_type_label_of(&u)
}

} // verus!
