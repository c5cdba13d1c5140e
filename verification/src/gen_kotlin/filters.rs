//! Filters of the Kotlin mapper template: each renders the Kotlin expression that
//! moves a value of some type between a Kotlin object and a React Native map or array.

use vstd::prelude::*;
use crate::interface::{is_resolved, is_scalar, ComponentInterface, TypeIdentifier, TypeView};
use crate::oracle::{kotlin_label_of, kotlin_label_shape, kotlin_type_label};
use crate::text::{
    all_ascii_alnum, field_ref, joined, lower_camel_case, spec_var_name, suffixed, trim_backticks,
    trim_backticks_exec, var_name_exec, wrapped,
};

verus! {

/// The Kotlin label of a type.
pub open spec fn kotlin_label(t: TypeView) -> Seq<char> {
    kotlin_type_label(t)
}

/// The name of the type in Kotlin code.
pub fn type_name_of(codetype: &TypeIdentifier) -> (r: Result<String, askama::Error>)
    requires
        is_resolved(codetype@),
    ensures
        r matches Ok(s) && s@ == kotlin_label(codetype@),
        r matches Ok(s) && kotlin_label_shape(codetype@, s@),
{
    Ok(kotlin_label_of(codetype))
}

/// The statement that pushes `value`, of the Kotlin type named `type_nm`, onto `array`.
pub open spec fn spec_render_to_array(type_nm: Seq<char>) -> Seq<char> {
    if type_nm == "Boolean"@ {
        "array.pushBoolean(value)"@
    } else if type_nm == "Double"@ {
        "array.pushDouble(value)"@
    } else if type_nm == "Int"@ {
        "array.pushInt(value)"@
    } else if type_nm == "ReadableArray"@ {
        "array.pushArray(value)"@
    } else if type_nm == "ReadableMap"@ {
        "array.pushMap(value)"@
    } else if type_nm == "String"@ {
        "array.pushString(value)"@
    } else if type_nm == "UByte"@ {
        "array.pushInt(value.toInt())"@
    } else if type_nm == "UInt"@ {
        "array.pushInt(value.toInt())"@
    } else if type_nm == "UShort"@ {
        "array.pushInt(value.toInt())"@
    } else if type_nm == "ULong"@ {
        "array.pushDouble(value.toDouble())"@
    } else {
        "array.pushMap(readableMapOf(value))"@
    }
}

/// The statement that pushes `value`, of the Kotlin type named `type_nm`, onto `array`.
pub fn render_to_array(type_nm: &str) -> (r: Result<String, askama::Error>)
    ensures
        r matches Ok(s) && s@ == spec_render_to_array(type_nm@),
{
    let s = if crate::text::str_eq(type_nm, "Boolean") {
        String::from_str("array.pushBoolean(value)")
    } else if crate::text::str_eq(type_nm, "Double") {
        String::from_str("array.pushDouble(value)")
    } else if crate::text::str_eq(type_nm, "Int") {
        String::from_str("array.pushInt(value)")
    } else if crate::text::str_eq(type_nm, "ReadableArray") {
        String::from_str("array.pushArray(value)")
    } else if crate::text::str_eq(type_nm, "ReadableMap") {
        String::from_str("array.pushMap(value)")
    } else if crate::text::str_eq(type_nm, "String") {
        String::from_str("array.pushString(value)")
    } else if crate::text::str_eq(type_nm, "UByte") {
        String::from_str("array.pushInt(value.toInt())")
    } else if crate::text::str_eq(type_nm, "UInt") {
        String::from_str("array.pushInt(value.toInt())")
    } else if crate::text::str_eq(type_nm, "UShort") {
        String::from_str("array.pushInt(value.toInt())")
    } else if crate::text::str_eq(type_nm, "ULong") {
        String::from_str("array.pushDouble(value.toDouble())")
    } else {
        String::from_str("array.pushMap(readableMapOf(value))")
    };
    Ok(s)
}

/// The types whose fields `render_to_map` renders: numbers, booleans, strings,
/// records, enums that the interface defines, sequences, and optionals of these.
pub open spec fn to_map_supported(ci: &ComponentInterface, t: TypeView) -> bool
    decreases t,
{
    match t {
        TypeView::Record(_) => true,
        TypeView::Enum(n) => ci.enum_flat(n) is Some,
        TypeView::Optional(inner) => to_map_supported(ci, *inner),
        TypeView::Sequence(_) => true,
        _ => is_scalar(t),
    }
}

/// The expression that puts the field `field` of the object `obj`, of type `t`, into a
/// React Native map; `optional` when the field may be null.
pub open spec fn spec_render_to_map(
    ci: &ComponentInterface,
    t: TypeView,
    obj: Seq<char>,
    field: Seq<char>,
    optional: bool,
) -> Seq<char>
    decreases t,
{
    let f = obj + "."@ + field;
    match t {
        TypeView::Record(_) => if optional {
            f + "?.let { readableMapOf(it) }"@
        } else {
            "readableMapOf("@ + f + ")"@
        },
        TypeView::Enum(n) => if ci.enum_flat(n) == Some(true) {
            if optional {
                f + "?.let { it.name.lowercase() }"@
            } else {
                f + ".name.lowercase()"@
            }
        } else {
            if optional {
                f + "?.let { readableMapOf(it) }"@
            } else {
                "readableMapOf("@ + f + ")"@
            }
        },
        TypeView::Optional(inner) => spec_render_to_map(ci, *inner, obj, field, true),
        TypeView::Sequence(_) => if optional {
            f + "?.let { readableArrayOf(it) }"@
        } else {
            "readableArrayOf("@ + f + ")"@
        },
        _ => f,
    }
}

/// The expression that puts a field of an object into a React Native map.
pub fn render_to_map(
    t: &TypeIdentifier,
    ci: &ComponentInterface,
    obj_name: &str,
    field_name: &str,
    optional: bool,
) -> (r: Result<String, askama::Error>)
    requires
        to_map_supported(ci, t@),
    ensures
        r matches Ok(s) && s@ == spec_render_to_map(ci, t@, obj_name@, field_name@, optional),
    decreases t,
{
    let f = field_ref(obj_name, field_name);
    if t.is_scalar() {
        return Ok(f);
    }
    match t {
        TypeIdentifier::Record(_) => {
            if optional {
                Ok(suffixed(f, "?.let { readableMapOf(it) }"))
            } else {
                Ok(wrapped("readableMapOf(", f.as_str(), ")"))
            }
        },
        TypeIdentifier::Enum(inner) => {
            match ci.get_enum_definition(inner.as_str()) {
                Some(enum_def) => {
                    if enum_def.is_flat() {
                        if optional {
                            Ok(suffixed(f, "?.let { it.name.lowercase() }"))
                        } else {
                            Ok(suffixed(f, ".name.lowercase()"))
                        }
                    } else {
                        if optional {
                            Ok(suffixed(f, "?.let { readableMapOf(it) }"))
                        } else {
                            Ok(wrapped("readableMapOf(", f.as_str(), ")"))
                        }
                    }
                },
                None => vstd::pervasive::unreached(),
            }
        },
        TypeIdentifier::Optional(inner) => render_to_map(inner, ci, obj_name, field_name, true),
        TypeIdentifier::Sequence(_) => {
            if optional {
                Ok(suffixed(f, "?.let { readableArrayOf(it) }"))
            } else {
                Ok(wrapped("readableArrayOf(", f.as_str(), ")"))
            }
        },
        _ => vstd::pervasive::unreached(),
    }
}

/// The types whose fields `render_from_map` renders without panicking: every type but
/// an enum that the interface does not define or a sequence of an unresolved type,
/// also under optionals.
pub open spec fn from_map_supported(ci: &ComponentInterface, t: TypeView) -> bool
    decreases t,
{
    match t {
        TypeView::Enum(n) => ci.enum_flat(n) is Some,
        TypeView::Optional(inner) => from_map_supported(ci, *inner),
        TypeView::Sequence(inner) => is_resolved(*inner),
        _ => true,
    }
}

/// The expression that reads the entry `name`, of type `t`, from the React Native map
/// `data`; a mandatory one (not `optional`) is asserted non-null with `!!`. Types that
/// the template does not read give the empty text.
pub open spec fn spec_render_from_map(
    ci: &ComponentInterface,
    t: TypeView,
    name: Seq<char>,
    optional: bool,
) -> Seq<char>
    decreases t,
{
    let m = if optional {
        ""@
    } else {
        "!!"@
    };
    let int_getter = "data.getInt(\""@ + name + "\")"@;
    match t {
        TypeView::UInt8 => int_getter + ".toUByte()"@,
        TypeView::Int8 => int_getter + ".toByte()"@,
        TypeView::UInt16 => int_getter + ".toUShort()"@,
        TypeView::Int16 => int_getter + ".toShort()"@,
        TypeView::UInt32 => int_getter + ".toUInt()"@,
        TypeView::Int32 => int_getter,
        TypeView::UInt64 => int_getter + ".toULong()"@,
        TypeView::Int64 => int_getter + ".toLong()"@,
        TypeView::Float32 => "data.getDouble(\""@ + name + "\")"@,
        TypeView::Float64 => "data.getDouble(\""@ + name + "\")"@,
        TypeView::Boolean => "data.getBoolean(\""@ + name + "\")"@,
        TypeView::String => "data.getString(\""@ + name + "\")"@ + m,
        TypeView::Record(_) => "data.getMap(\""@ + name + "\")?.let { as"@ + kotlin_label(t)
            + "(it)}"@ + m,
        TypeView::Enum(n) => if ci.enum_flat(n) == Some(true) {
            "data.getString(\""@ + name + "\")?.let { as"@ + n + "(it)}"@ + m
        } else {
            "data.getMap(\""@ + name + "\")?.let { as"@ + n + "(it)}"@ + m
        },
        TypeView::Optional(inner) => spec_render_from_map(ci, *inner, name, true),
        TypeView::Sequence(inner) => "data.getArray(\""@ + name + "\")?.let { as"@
            + kotlin_label(*inner) + "List(it) }"@ + m,
        _ => ""@,
    }
}

/// The expression that reads an entry of a React Native map into a Kotlin value.
pub fn render_from_map(
    t: &TypeIdentifier,
    ci: &ComponentInterface,
    name: &str,
    optional: bool,
) -> (r: Result<String, askama::Error>)
    requires
        from_map_supported(ci, t@),
    ensures
        r matches Ok(s) && s@ == spec_render_from_map(ci, t@, name@, optional),
    decreases t,
{
    let mut mandatory_suffix = "";
    if !optional {
        mandatory_suffix = "!!";
    }
    let res = match t {
        TypeIdentifier::UInt8 => suffixed(wrapped("data.getInt(\"", name, "\")"), ".toUByte()"),
        TypeIdentifier::Int8 => suffixed(wrapped("data.getInt(\"", name, "\")"), ".toByte()"),
        TypeIdentifier::UInt16 => suffixed(wrapped("data.getInt(\"", name, "\")"), ".toUShort()"),
        TypeIdentifier::Int16 => suffixed(wrapped("data.getInt(\"", name, "\")"), ".toShort()"),
        TypeIdentifier::UInt32 => suffixed(wrapped("data.getInt(\"", name, "\")"), ".toUInt()"),
        TypeIdentifier::Int32 => wrapped("data.getInt(\"", name, "\")"),
        TypeIdentifier::UInt64 => suffixed(wrapped("data.getInt(\"", name, "\")"), ".toULong()"),
        TypeIdentifier::Int64 => suffixed(wrapped("data.getInt(\"", name, "\")"), ".toLong()"),
        TypeIdentifier::Float32 => wrapped("data.getDouble(\"", name, "\")"),
        TypeIdentifier::Float64 => wrapped("data.getDouble(\"", name, "\")"),
        TypeIdentifier::Boolean => wrapped("data.getBoolean(\"", name, "\")"),
        TypeIdentifier::String => suffixed(wrapped("data.getString(\"", name, "\")"), mandatory_suffix),
        TypeIdentifier::Record(_) => {
            let record_type_name = kotlin_label_of(t);
            joined(
                "data.getMap(\"",
                name,
                "\")?.let { as",
                record_type_name.as_str(),
                "(it)}",
                mandatory_suffix,
            )
        },
        TypeIdentifier::Enum(inner) => {
            match ci.get_enum_definition(inner.as_str()) {
                Some(enum_def) => {
                    if enum_def.is_flat() {
                        joined(
                            "data.getString(\"",
                            name,
                            "\")?.let { as",
                            inner.as_str(),
                            "(it)}",
                            mandatory_suffix,
                        )
                    } else {
                        joined(
                            "data.getMap(\"",
                            name,
                            "\")?.let { as",
                            inner.as_str(),
                            "(it)}",
                            mandatory_suffix,
                        )
                    }
                },
                None => vstd::pervasive::unreached(),
            }
        },
        TypeIdentifier::Optional(inner) => {
            match render_from_map(inner, ci, name, true) {
                Ok(inner_res) => inner_res,
                Err(e) => { return Err(e); },
            }
        },
        TypeIdentifier::Sequence(inner) => {
            let element_type_name = kotlin_label_of(inner);
            joined(
                "data.getArray(\"",
                name,
                "\")?.let { as",
                element_type_name.as_str(),
                "List(it) }",
                mandatory_suffix,
            )
        },
        _ => String::from_str(""),
    };
    Ok(res)
}

/// The idiomatic Kotlin rendering of a variable name: its lower camel case, between
/// backticks (the lower camel case holds only ASCII letters and digits).
pub fn var_name(nm: &str) -> (r: Result<String, askama::Error>)
    ensures
        r matches Ok(s) && s@ == spec_var_name(nm@),
        all_ascii_alnum(lower_camel_case(nm@)),
{
    Ok(var_name_exec(nm))
}

/// The text without its leading and trailing backticks.
pub fn unquote(nm: &str) -> (r: Result<String, askama::Error>)
    ensures
        r matches Ok(s) && s@ == trim_backticks(nm@),
{
    Ok(trim_backticks_exec(nm))
}

/// Law: an optional field renders into a map as its inner type does when that may be
/// null, and from a map as its inner type does when that is not asserted non-null:
/// how deeply a type is wrapped in optionals does not matter beyond the first.
pub proof fn lemma_optional_fields(
    ci: &ComponentInterface,
    t: TypeView,
    obj: Seq<char>,
    field: Seq<char>,
    name: Seq<char>,
    optional: bool,
)
    ensures
        spec_render_to_map(ci, TypeView::Optional(Box::new(t)), obj, field, optional)
            == spec_render_to_map(ci, t, obj, field, true),
        spec_render_to_map(
            ci,
            TypeView::Optional(Box::new(TypeView::Optional(Box::new(t)))),
            obj,
            field,
            optional,
        ) == spec_render_to_map(ci, TypeView::Optional(Box::new(t)), obj, field, optional),
        spec_render_from_map(ci, TypeView::Optional(Box::new(t)), name, optional)
            == spec_render_from_map(ci, t, name, true),
        to_map_supported(ci, TypeView::Optional(Box::new(t))) == to_map_supported(ci, t),
        from_map_supported(ci, TypeView::Optional(Box::new(t))) == from_map_supported(ci, t),
{
    assert(spec_render_to_map(ci, TypeView::Optional(Box::new(t)), obj, field, true)
        == spec_render_to_map(ci, t, obj, field, true));
}

/// Whether `render_to_map` renders the type (its `requires`).
pub fn supports_render_to_map(t: &TypeIdentifier, ci: &ComponentInterface) -> (r: bool)
    ensures
        r == to_map_supported(ci, t@),
    decreases t,
{
    match t {
        TypeIdentifier::Record(_) => true,
        TypeIdentifier::Enum(_) => t.is_defined_enum(ci),
        TypeIdentifier::Optional(inner) => supports_render_to_map(inner, ci),
        TypeIdentifier::Sequence(_) => true,
        _ => t.is_scalar(),
    }
}

/// Whether `render_from_map` renders the type (its `requires`).
pub fn supports_render_from_map(t: &TypeIdentifier, ci: &ComponentInterface) -> (r: bool)
    ensures
        r == from_map_supported(ci, t@),
    decreases t,
{
    match t {
        TypeIdentifier::Enum(_) => t.is_defined_enum(ci),
        TypeIdentifier::Optional(inner) => supports_render_from_map(inner, ci),
        TypeIdentifier::Sequence(inner) => inner.is_resolved(),
        _ => true,
    }
}

/// Law: a mandatory entry reads as the same entry read as optional, followed by the
/// non-null assertion `!!` for strings, records, enums and sequences; other types read
/// the same either way.
pub proof fn lemma_mandatory_suffix(ci: &ComponentInterface, t: TypeView, name: Seq<char>)
    requires
        !(t is Optional),
    ensures
        (t is String || t is Record || t is Enum || t is Sequence) ==> spec_render_from_map(
            ci,
            t,
            name,
            false,
        ) == spec_render_from_map(ci, t, name, true) + "!!"@,
        !(t is String || t is Record || t is Enum || t is Sequence) ==> spec_render_from_map(
            ci,
            t,
            name,
            false,
        ) == spec_render_from_map(ci, t, name, true),
{
    reveal_strlit("");
    let x = spec_render_from_map(ci, t, name, true);
    if t is String || t is Record || t is Enum || t is Sequence {
        let y = spec_render_from_map(ci, t, name, false);
        assert(x.len() >= 0);
        assert(exists|p: Seq<char>| x == p + ""@ && y == p + "!!"@);
        let p = choose|p: Seq<char>| x == p + ""@ && y == p + "!!"@;
        assert(p + ""@ =~= p);
    }
}

/// Law: an entry read as optional is never asserted non-null: its reading is empty or
/// ends with a closing parenthesis or brace, never with `!!`. An optional type is read
/// as optional, so its reading never ends with `!!`.
pub proof fn lemma_optional_read_not_asserted(ci: &ComponentInterface, t: TypeView, name: Seq<char>)
    ensures
        ({
            let r = spec_render_from_map(ci, t, name, true);
            r.len() == 0 || r.last() == ')' || r.last() == '}'
        }),
        ({
            let r = spec_render_from_map(ci, TypeView::Optional(Box::new(t)), name, false);
            r.len() == 0 || r.last() == ')' || r.last() == '}'
        }),
    decreases t,
{
    reveal_strlit("");
    reveal_strlit("\")");
    reveal_strlit(".toUByte()");
    reveal_strlit(".toByte()");
    reveal_strlit(".toUShort()");
    reveal_strlit(".toShort()");
    reveal_strlit(".toUInt()");
    reveal_strlit(".toULong()");
    reveal_strlit(".toLong()");
    reveal_strlit("(it)}");
    reveal_strlit("List(it) }");
    let r = spec_render_from_map(ci, t, name, true);
    match t {
        TypeView::Optional(inner) => {
            lemma_optional_read_not_asserted(ci, *inner, name);
        },
        _ => {
            if r.len() > 0 {
                let e = ""@;
                assert(e.len() == 0);
                assert forall|p: Seq<char>| #[trigger] (p + e) == p by {
                    assert(p + e =~= p);
                }
            }
        },
    }
}

/// Law: only the ten Kotlin labels `Boolean`, `Double`, `Int`, `ReadableArray`,
/// `ReadableMap`, `String`, `UByte`, `UInt`, `UShort` and `ULong`, matched exactly, have
/// a statement of their own; every other type name, however it begins or ends, pushes
/// the value as a map.
pub proof fn lemma_render_to_array_other_names(type_nm: Seq<char>)
    requires
        type_nm != "Boolean"@,
        type_nm != "Double"@,
        type_nm != "Int"@,
        type_nm != "ReadableArray"@,
        type_nm != "ReadableMap"@,
        type_nm != "String"@,
        type_nm != "UByte"@,
        type_nm != "UInt"@,
        type_nm != "UShort"@,
        type_nm != "ULong"@,
    ensures
        spec_render_to_array(type_nm) == "array.pushMap(readableMapOf(value))"@,
{
}

/// Law: the ten Kotlin labels with a statement of their own push as follows: the small
/// unsigned ones (`UByte`, `UShort`, `UInt`) as an `Int` after `toInt()`, `ULong` as a
/// `Double` after `toDouble()`, and the rest with the push method of their own kind.
pub proof fn lemma_render_to_array_known_names()
    ensures
        spec_render_to_array("Boolean"@) == "array.pushBoolean(value)"@,
        spec_render_to_array("Double"@) == "array.pushDouble(value)"@,
        spec_render_to_array("Int"@) == "array.pushInt(value)"@,
        spec_render_to_array("ReadableArray"@) == "array.pushArray(value)"@,
        spec_render_to_array("ReadableMap"@) == "array.pushMap(value)"@,
        spec_render_to_array("String"@) == "array.pushString(value)"@,
        spec_render_to_array("UByte"@) == "array.pushInt(value.toInt())"@,
        spec_render_to_array("UInt"@) == "array.pushInt(value.toInt())"@,
        spec_render_to_array("UShort"@) == "array.pushInt(value.toInt())"@,
        spec_render_to_array("ULong"@) == "array.pushDouble(value.toDouble())"@,
{
    reveal_strlit("Boolean");
    reveal_strlit("Double");
    reveal_strlit("Int");
    reveal_strlit("ReadableArray");
    reveal_strlit("ReadableMap");
    reveal_strlit("String");
    reveal_strlit("UByte");
    reveal_strlit("UInt");
    reveal_strlit("UShort");
    reveal_strlit("ULong");
    assert("Double"@ != "Boolean"@) by {
        assert("Double"@.len() != "Boolean"@.len());
    }
    assert("Int"@ != "Boolean"@) by {
        assert("Int"@.len() != "Boolean"@.len());
    }
    assert("Int"@ != "Double"@) by {
        assert("Int"@.len() != "Double"@.len());
    }
    assert("ReadableArray"@ != "Boolean"@) by {
        assert("ReadableArray"@.len() != "Boolean"@.len());
    }
    assert("ReadableArray"@ != "Double"@) by {
        assert("ReadableArray"@.len() != "Double"@.len());
    }
    assert("ReadableArray"@ != "Int"@) by {
        assert("ReadableArray"@.len() != "Int"@.len());
    }
    assert("ReadableMap"@ != "Boolean"@) by {
        assert("ReadableMap"@.len() != "Boolean"@.len());
    }
    assert("ReadableMap"@ != "Double"@) by {
        assert("ReadableMap"@.len() != "Double"@.len());
    }
    assert("ReadableMap"@ != "Int"@) by {
        assert("ReadableMap"@.len() != "Int"@.len());
    }
    assert("ReadableMap"@ != "ReadableArray"@) by {
        assert("ReadableMap"@.len() != "ReadableArray"@.len());
    }
    assert("String"@ != "Boolean"@) by {
        assert("String"@.len() != "Boolean"@.len());
    }
    assert("String"@ != "Double"@) by {
        assert("String"@[0] != "Double"@[0]);
    }
    assert("String"@ != "Int"@) by {
        assert("String"@.len() != "Int"@.len());
    }
    assert("String"@ != "ReadableArray"@) by {
        assert("String"@.len() != "ReadableArray"@.len());
    }
    assert("String"@ != "ReadableMap"@) by {
        assert("String"@.len() != "ReadableMap"@.len());
    }
    assert("UByte"@ != "Boolean"@) by {
        assert("UByte"@.len() != "Boolean"@.len());
    }
    assert("UByte"@ != "Double"@) by {
        assert("UByte"@.len() != "Double"@.len());
    }
    assert("UByte"@ != "Int"@) by {
        assert("UByte"@.len() != "Int"@.len());
    }
    assert("UByte"@ != "ReadableArray"@) by {
        assert("UByte"@.len() != "ReadableArray"@.len());
    }
    assert("UByte"@ != "ReadableMap"@) by {
        assert("UByte"@.len() != "ReadableMap"@.len());
    }
    assert("UByte"@ != "String"@) by {
        assert("UByte"@.len() != "String"@.len());
    }
    assert("UInt"@ != "Boolean"@) by {
        assert("UInt"@.len() != "Boolean"@.len());
    }
    assert("UInt"@ != "Double"@) by {
        assert("UInt"@.len() != "Double"@.len());
    }
    assert("UInt"@ != "Int"@) by {
        assert("UInt"@.len() != "Int"@.len());
    }
    assert("UInt"@ != "ReadableArray"@) by {
        assert("UInt"@.len() != "ReadableArray"@.len());
    }
    assert("UInt"@ != "ReadableMap"@) by {
        assert("UInt"@.len() != "ReadableMap"@.len());
    }
    assert("UInt"@ != "String"@) by {
        assert("UInt"@.len() != "String"@.len());
    }
    assert("UInt"@ != "UByte"@) by {
        assert("UInt"@.len() != "UByte"@.len());
    }
    assert("UShort"@ != "Boolean"@) by {
        assert("UShort"@.len() != "Boolean"@.len());
    }
    assert("UShort"@ != "Double"@) by {
        assert("UShort"@[0] != "Double"@[0]);
    }
    assert("UShort"@ != "Int"@) by {
        assert("UShort"@.len() != "Int"@.len());
    }
    assert("UShort"@ != "ReadableArray"@) by {
        assert("UShort"@.len() != "ReadableArray"@.len());
    }
    assert("UShort"@ != "ReadableMap"@) by {
        assert("UShort"@.len() != "ReadableMap"@.len());
    }
    assert("UShort"@ != "String"@) by {
        assert("UShort"@[0] != "String"@[0]);
    }
    assert("UShort"@ != "UByte"@) by {
        assert("UShort"@.len() != "UByte"@.len());
    }
    assert("UShort"@ != "UInt"@) by {
        assert("UShort"@.len() != "UInt"@.len());
    }
    assert("ULong"@ != "Boolean"@) by {
        assert("ULong"@.len() != "Boolean"@.len());
    }
    assert("ULong"@ != "Double"@) by {
        assert("ULong"@.len() != "Double"@.len());
    }
    assert("ULong"@ != "Int"@) by {
        assert("ULong"@.len() != "Int"@.len());
    }
    assert("ULong"@ != "ReadableArray"@) by {
        assert("ULong"@.len() != "ReadableArray"@.len());
    }
    assert("ULong"@ != "ReadableMap"@) by {
        assert("ULong"@.len() != "ReadableMap"@.len());
    }
    assert("ULong"@ != "String"@) by {
        assert("ULong"@.len() != "String"@.len());
    }
    assert("ULong"@ != "UByte"@) by {
        assert("ULong"@[1] != "UByte"@[1]);
    }
    assert("ULong"@ != "UInt"@) by {
        assert("ULong"@.len() != "UInt"@.len());
    }
    assert("ULong"@ != "UShort"@) by {
        assert("ULong"@.len() != "UShort"@.len());
    }
}

/// Law: a field of a sequence type renders into a map as a React Native array of the
/// field (through `?.let` when it may be null), whatever the element type.
pub proof fn lemma_sequence_to_map(
    ci: &ComponentInterface,
    element: TypeView,
    other_element: TypeView,
    obj: Seq<char>,
    field: Seq<char>,
)
    ensures
        spec_render_to_map(ci, TypeView::Sequence(Box::new(element)), obj, field, false)
            == "readableArrayOf("@ + (obj + "."@ + field) + ")"@,
        spec_render_to_map(ci, TypeView::Sequence(Box::new(element)), obj, field, true) == obj
            + "."@ + field + "?.let { readableArrayOf(it) }"@,
        spec_render_to_map(ci, TypeView::Sequence(Box::new(element)), obj, field, false)
            == spec_render_to_map(ci, TypeView::Sequence(Box::new(other_element)), obj, field, false),
        spec_render_to_map(ci, TypeView::Sequence(Box::new(element)), obj, field, true)
            == spec_render_to_map(ci, TypeView::Sequence(Box::new(other_element)), obj, field, true),
{
}

/// Law: every number, boolean and string field renders into a map as the field itself,
/// optional or not; a record and an enum with fields render alike, as a map of the
/// field.
pub proof fn lemma_to_map_scalars_and_records(
    ci: &ComponentInterface,
    t: TypeView,
    record: Seq<char>,
    enum_name: Seq<char>,
    obj: Seq<char>,
    field: Seq<char>,
    optional: bool,
)
    requires
        ci.enum_flat(enum_name) == Some(false),
    ensures
        is_scalar(t) ==> spec_render_to_map(ci, t, obj, field, optional) == obj + "."@ + field,
        spec_render_to_map(ci, TypeView::Record(record), obj, field, optional)
            == spec_render_to_map(ci, TypeView::Enum(enum_name), obj, field, optional),
        spec_render_to_map(ci, TypeView::Record(record), obj, field, false) == "readableMapOf("@
            + (obj + "."@ + field) + ")"@,
{
}

/// Law: a sequence entry is always converted through the list converter of its element
/// type, named by the element's Kotlin label (`as<Label>List`), for numbers, booleans and
/// strings too; a mandatory entry is then asserted non-null.
pub proof fn lemma_sequence_from_map(
    ci: &ComponentInterface,
    element: TypeView,
    name: Seq<char>,
)
    ensures
        spec_render_from_map(ci, TypeView::Sequence(Box::new(element)), name, false)
            == "data.getArray(\""@ + name + "\")?.let { as"@ + kotlin_type_label(element)
            + "List(it) }"@ + "!!"@,
        spec_render_from_map(ci, TypeView::Sequence(Box::new(element)), name, true)
            == "data.getArray(\""@ + name + "\")?.let { as"@ + kotlin_type_label(element)
            + "List(it) }"@ + ""@,
{
}

/// Law: an enum entry is converted by the enum's own name (`as<Name>`), read as a string
/// when the enum is flat and as a map otherwise; a record entry is converted by its
/// Kotlin label, read as a map.
pub proof fn lemma_enum_and_record_from_map(
    ci: &ComponentInterface,
    enum_name: Seq<char>,
    record: Seq<char>,
    name: Seq<char>,
)
    ensures
        ci.enum_flat(enum_name) == Some(true) ==> spec_render_from_map(
            ci,
            TypeView::Enum(enum_name),
            name,
            false,
        ) == "data.getString(\""@ + name + "\")?.let { as"@ + enum_name + "(it)}"@ + "!!"@,
        ci.enum_flat(enum_name) == Some(false) ==> spec_render_from_map(
            ci,
            TypeView::Enum(enum_name),
            name,
            false,
        ) == "data.getMap(\""@ + name + "\")?.let { as"@ + enum_name + "(it)}"@ + "!!"@,
        spec_render_from_map(ci, TypeView::Record(record), name, false) == "data.getMap(\""@
            + name + "\")?.let { as"@ + kotlin_type_label(TypeView::Record(record)) + "(it)}"@
            + "!!"@,
{
}

/// Law: an enum field renders into a map by its case name in lower case when the enum
/// is flat, and as a map of the field otherwise, like a record; an optional one goes
/// through `?.let`.
pub proof fn lemma_enum_to_map(
    ci: &ComponentInterface,
    enum_name: Seq<char>,
    obj: Seq<char>,
    field: Seq<char>,
)
    ensures
        ci.enum_flat(enum_name) == Some(true) ==> {
            &&& spec_render_to_map(ci, TypeView::Enum(enum_name), obj, field, false) == obj + "."@
                + field + ".name.lowercase()"@
            &&& spec_render_to_map(ci, TypeView::Enum(enum_name), obj, field, true) == obj + "."@
                + field + "?.let { it.name.lowercase() }"@
        },
        ci.enum_flat(enum_name) == Some(false) ==> spec_render_to_map(
            ci,
            TypeView::Enum(enum_name),
            obj,
            field,
            true,
        ) == obj + "."@ + field + "?.let { readableMapOf(it) }"@,
{
}

/// Law: numbers are read with `getInt` (converted to the unsigned or wider Kotlin type
/// by `toUByte`, `toByte`, `toUShort`, `toShort`, `toUInt`, `toULong`, `toLong`; a 32-bit
/// signed one as it is) or `getDouble`, booleans with `getBoolean`, and strings with
/// `getString`, asserted non-null when mandatory; timestamps, durations, objects,
/// errors, callback interfaces, maps, external, custom and unresolved types are not read
/// (the empty text).
pub proof fn lemma_scalars_from_map(ci: &ComponentInterface, t: TypeView, name: Seq<char>, optional: bool)
    ensures
        ({
            let get_int = "data.getInt(\""@ + name + "\")"@;
            let r = spec_render_from_map(ci, t, name, optional);
            &&& t is UInt8 ==> r == get_int + ".toUByte()"@
            &&& t is Int8 ==> r == get_int + ".toByte()"@
            &&& t is UInt16 ==> r == get_int + ".toUShort()"@
            &&& t is Int16 ==> r == get_int + ".toShort()"@
            &&& t is UInt32 ==> r == get_int + ".toUInt()"@
            &&& t is Int32 ==> r == get_int
            &&& t is UInt64 ==> r == get_int + ".toULong()"@
            &&& t is Int64 ==> r == get_int + ".toLong()"@
            &&& (t is Float32 || t is Float64) ==> r == "data.getDouble(\""@ + name + "\")"@
            &&& t is Boolean ==> r == "data.getBoolean(\""@ + name + "\")"@
            &&& t is String ==> r == "data.getString(\""@ + name + "\")"@ + (if optional {
                ""@
            } else {
                "!!"@
            })
            &&& (t is Timestamp || t is Duration || t is Object || t is Error
                || t is CallbackInterface || t is Mapping || t is External || t is Custom
                || t is Unresolved) ==> r == ""@
        }),
{
}

} // verus!
