//! Filters of the Swift wrapper template: each renders the Swift expression or type
//! that moves a value of some type between a Swift object and a React Native dictionary.

use vstd::prelude::*;
use crate::interface::{is_resolved, is_scalar, ComponentInterface, TypeIdentifier, TypeView};
use crate::oracle::{swift_label_of, swift_label_shape, swift_type_label};
use crate::text::{
    all_ascii_alnum, is_ascii_alnum, lemma_unquote_var_name, lower_camel_case, spec_var_name,
    suffixed, trim_backticks, trim_backticks_exec, var_name_exec, wrapped,
};

verus! {

/// The Swift label of a type.
pub open spec fn swift_label(t: TypeView) -> Seq<char> {
    swift_type_label(t)
}

/// The name of the type in Swift code.
pub fn type_name_of(codetype: &TypeIdentifier) -> (r: Result<String, askama::Error>)
    requires
        is_resolved(codetype@),
    ensures
        r matches Ok(s) && s@ == swift_label(codetype@),
        r matches Ok(s) && swift_label_shape(codetype@, s@),
{
    Ok(swift_label_of(codetype))
}

/// The idiomatic Swift rendering of a variable name: its lower camel case, between
/// backticks (the lower camel case holds only ASCII letters and digits).
pub fn var_name(nm: &str) -> (r: Result<String, askama::Error>)
    ensures
        r matches Ok(s) && s@ == spec_var_name(nm@),
        all_ascii_alnum(lower_camel_case(nm@)),
{
    Ok(var_name_exec(nm))
}

/// The text without its leading and trailing backticks.
pub fn unquote(nm: &str) -> (r: Result<String, askama::Error>)
    ensures
        r matches Ok(s) && s@ == trim_backticks(nm@),
{
    Ok(trim_backticks_exec(nm))
}

/// The name of the list argument for `nm`, between backticks.
pub fn list_arg(nm: &str) -> (r: Result<String, askama::Error>)
    ensures
        r matches Ok(s) && s@ == "`"@ + nm@ + "List`"@,
{
    Ok(wrapped("`", nm, "List`"))
}

/// The name of the temporary variable for `nm`.
pub fn temporary(nm: &str) -> (r: Result<String, askama::Error>)
    ensures
        r matches Ok(s) && s@ == nm@ + "Tmp"@,
{
    Ok(suffixed(String::from_str(nm), "Tmp"))
}

/// The variable name by which the template refers to a value of the type labelled
/// `label`: the label in lower camel case.
pub open spec fn label_var(label: Seq<char>) -> Seq<char> {
    lower_camel_case(label)
}

/// `unquote(var_name(label))`, as the filters compute it.
fn label_var_exec(label: &str) -> (r: String)
    ensures
        r@ == label_var(label@),
{
    let quoted = match var_name(label) {
        Ok(q) => q,
        Err(_) => vstd::pervasive::unreached(),
    };
    let r = match unquote(quoted.as_str()) {
        Ok(v) => v,
        Err(_) => vstd::pervasive::unreached(),
    };
    proof {
        lemma_unquote_var_name(label@);
    }
    r
}

/// The shapes of type that `render_to_map` renders: numbers, booleans, strings,
/// records, enums that the interface defines, sequences, and optionals of these.
pub open spec fn to_map_shape(ci: &ComponentInterface, t: TypeView) -> bool
    decreases t,
{
    match t {
        TypeView::Record(_) => true,
        TypeView::Enum(n) => ci.enum_flat(n) is Some,
        TypeView::Optional(inner) => to_map_shape(ci, *inner),
        TypeView::Sequence(_) => true,
        _ => is_scalar(t),
    }
}

/// The types whose fields `render_to_map` renders without panicking: those of a
/// supported shape that the Swift oracle can label.
pub open spec fn to_map_supported(ci: &ComponentInterface, t: TypeView) -> bool {
    to_map_shape(ci, t) && is_resolved(t)
}

/// `obj.` before the field, or nothing when the object's name is empty.
pub open spec fn obj_prefix(obj: Seq<char>) -> Seq<char> {
    if obj.len() == 0 {
        ""@
    } else {
        obj + "."@
    }
}

/// The expression that puts the field `field` of the object `obj`, of type `t`, into a
/// dictionary; `optional` when the field may be nil.
pub open spec fn spec_render_to_map(
    ci: &ComponentInterface,
    t: TypeView,
    obj: Seq<char>,
    field: Seq<char>,
    optional: bool,
) -> Seq<char>
    decreases t,
{
    let pf = obj_prefix(obj) + field;
    let v = label_var(swift_label(t));
    match t {
        TypeView::Record(_) => if optional {
            pf + " == nil ? nil : { dictionaryOf("@ + v + ": "@ + pf + "!) }"@
        } else {
            "dictionaryOf("@ + v + ": "@ + pf + ")"@
        },
        TypeView::Enum(n) => if ci.enum_flat(n) == Some(true) {
            if optional {
                "valueOf( "@ + v + ":  "@ + pf + "!)"@
            } else {
                "valueOf( "@ + v + ": "@ + pf + ")"@
            }
        } else {
            if optional {
                "dictionaryOf("@ + v + ": "@ + pf + "!)"@
            } else {
                "dictionaryOf("@ + v + ": "@ + pf + ")"@
            }
        },
        TypeView::Optional(inner) => pf + " == nil ? nil : "@ + spec_render_to_map(
            ci,
            *inner,
            obj,
            field,
            true,
        ),
        TypeView::Sequence(inner) => {
            let vi = label_var(swift_label(*inner));
            let opt = if optional {
                "!"@
            } else {
                ""@
            };
            if *inner is Record || *inner is Enum {
                "arrayOf("@ + vi + "List: "@ + pf + opt + ")"@
            } else {
                pf
            }
        },
        _ => pf,
    }
}

/// `before`, `v`, `middle`, `pf`, `after`.
fn around(before: &str, v: &str, middle: &str, pf: &str, after: &str) -> (r: String)
    ensures
        r@ == before@ + v@ + middle@ + pf@ + after@,
{
    let mut s = String::from_str(before);
    s.append(v);
    s.append(middle);
    s.append(pf);
    s.append(after);
    s
}

/// The expression that puts a field of an object into a dictionary.
pub fn render_to_map(
    t: &TypeIdentifier,
    ci: &ComponentInterface,
    obj_name: &str,
    field_name: &str,
    optional: bool,
) -> (r: Result<String, askama::Error>)
    requires
        to_map_supported(ci, t@),
    ensures
        r matches Ok(s) && s@ == spec_render_to_map(ci, t@, obj_name@, field_name@, optional),
    decreases t,
{
    let type_nm = swift_label_of(t);
    let var_nm = label_var_exec(type_nm.as_str());
    let mut obj_prefix = String::from_str("");
    if !obj_name.is_empty() {
        obj_prefix = suffixed(String::from_str(obj_name), ".");
    }
    let mut optional_suffix = "";
    if optional {
        optional_suffix = "!";
    }
    let pf = suffixed(obj_prefix, field_name);
    if t.is_scalar() {
        return Ok(pf);
    }
    match t {
        TypeIdentifier::Record(_) => {
            if optional {
                let mut s = suffixed(pf.clone(), " == nil ? nil : { dictionaryOf(");
                s.append(var_nm.as_str());
                s.append(": ");
                s.append(pf.as_str());
                s.append("!) }");
                Ok(s)
            } else {
                Ok(around("dictionaryOf(", var_nm.as_str(), ": ", pf.as_str(), ")"))
            }
        },
        TypeIdentifier::Enum(inner) => {
            match ci.get_enum_definition(inner.as_str()) {
                Some(enum_def) => {
                    if enum_def.is_flat() {
                        if optional {
                            Ok(around("valueOf( ", var_nm.as_str(), ":  ", pf.as_str(), "!)"))
                        } else {
                            Ok(around("valueOf( ", var_nm.as_str(), ": ", pf.as_str(), ")"))
                        }
                    } else {
                        if optional {
                            Ok(around("dictionaryOf(", var_nm.as_str(), ": ", pf.as_str(), "!)"))
                        } else {
                            Ok(around("dictionaryOf(", var_nm.as_str(), ": ", pf.as_str(), ")"))
                        }
                    }
                },
                None => vstd::pervasive::unreached(),
            }
        },
        TypeIdentifier::Optional(inner) => {
            let inner_render = match render_to_map(inner, ci, obj_name, field_name, true) {
                Ok(s) => s,
                Err(e) => {
                    return Err(e);
                },
            };
            let mut s = suffixed(pf, " == nil ? nil : ");
            s.append(inner_render.as_str());
            Ok(s)
        },
        TypeIdentifier::Sequence(inner) => {
            let inner_type_nm = swift_label_of(inner);
            let inner_var_nm = label_var_exec(inner_type_nm.as_str());
            match &**inner {
                TypeIdentifier::Record(_) | TypeIdentifier::Enum(_) => {
                    Ok(around("arrayOf(", inner_var_nm.as_str(), "List: ", pf.as_str(), optional_suffix).concat(")"))
                },
                _ => Ok(pf),
            }
        },
        _ => vstd::pervasive::unreached(),
    }
}

/// The types that `map_type_name` names without panicking: records, enums that the
/// interface defines, optionals and sequences of such types, and every other type that
/// the Swift oracle can label.
pub open spec fn map_type_supported(ci: &ComponentInterface, t: TypeView) -> bool
    decreases t,
{
    match t {
        TypeView::Record(_) => true,
        TypeView::Enum(n) => ci.enum_flat(n) is Some,
        TypeView::Optional(inner) => map_type_supported(ci, *inner),
        TypeView::Sequence(inner) => map_type_supported(ci, *inner),
        _ => is_resolved(t),
    }
}

/// The Swift type of the dictionary value that holds a value of type `t`: a
/// dictionary for records and enums with fields, a string for flat enums, an array
/// for sequences, and the type's own label otherwise. Optionals are looked through.
pub open spec fn spec_map_type_name(ci: &ComponentInterface, t: TypeView) -> Seq<char>
    decreases t,
{
    match t {
        TypeView::Record(_) => "[String: Any?]"@,
        TypeView::Enum(n) => if ci.enum_flat(n) == Some(true) {
            "String"@
        } else {
            "[String: Any?]"@
        },
        TypeView::Optional(inner) => spec_map_type_name(ci, *inner),
        TypeView::Sequence(inner) => "["@ + spec_map_type_name(ci, *inner) + "]"@,
        _ => swift_label(t),
    }
}

/// The Swift type of the dictionary value that holds a value of the type.
pub fn map_type_name(t: &TypeIdentifier, ci: &ComponentInterface) -> (r: Result<
    String,
    askama::Error,
>)
    requires
        map_type_supported(ci, t@),
    ensures
        r matches Ok(s) && s@ == spec_map_type_name(ci, t@),
    decreases t,
{
    match t {
        TypeIdentifier::Record(_) => Ok(String::from_str("[String: Any?]")),
        TypeIdentifier::Enum(inner) => {
            match ci.get_enum_definition(inner.as_str()) {
                Some(enum_def) => {
                    if enum_def.is_flat() {
                        Ok(String::from_str("String"))
                    } else {
                        Ok(String::from_str("[String: Any?]"))
                    }
                },
                None => vstd::pervasive::unreached(),
            }
        },
        TypeIdentifier::Optional(inner) => map_type_name(inner, ci),
        TypeIdentifier::Sequence(inner) => {
            match map_type_name(inner, ci) {
                Ok(inner_name) => Ok(wrapped("[", inner_name.as_str(), "]")),
                Err(e) => Err(e),
            }
        },
        _ => type_name_of(t),
    }
}

/// The types for which `inline_optional_field` answers without panicking.
pub open spec fn inline_supported(ci: &ComponentInterface, t: TypeView) -> bool
    decreases t,
{
    match t {
        TypeView::Optional(inner) => inline_supported(ci, *inner),
        _ => map_type_supported(ci, t) && is_resolved(t),
    }
}

/// Whether a field of type `t` is held in the dictionary as it is: the type (looked
/// through optionals) has the dictionary type that is its own Swift label.
pub open spec fn spec_inline_optional_field(ci: &ComponentInterface, t: TypeView) -> bool
    decreases t,
{
    match t {
        TypeView::Optional(inner) => spec_inline_optional_field(ci, *inner),
        _ => spec_map_type_name(ci, t) == swift_label(t),
    }
}

/// The type under all its optional wrappers.
pub open spec fn base_type(t: TypeView) -> TypeView
    decreases t,
{
    match t {
        TypeView::Optional(inner) => base_type(*inner),
        _ => t,
    }
}

/// Whether the type is held in a dictionary as a dictionary: a record, or an enum
/// with fields.
pub open spec fn held_as_dictionary(ci: &ComponentInterface, t: TypeView) -> bool {
    t is Record || (t is Enum && ci.enum_flat(t->Enum_0) == Some(false))
}

/// Whether a field of the type is held in the dictionary as it is. Numbers, booleans
/// and strings always are; records and enums with fields never are (their labels hold
/// only ASCII letters and digits, their dictionary type does not).
pub fn inline_optional_field(t: &TypeIdentifier, ci: &ComponentInterface) -> (r: Result<
    bool,
    askama::Error,
>)
    requires
        inline_supported(ci, t@),
    ensures
        r matches Ok(b) && b == spec_inline_optional_field(ci, t@),
        is_scalar(base_type(t@)) ==> r == Ok::<bool, askama::Error>(true),
        held_as_dictionary(ci, base_type(t@)) ==> r == Ok::<bool, askama::Error>(false),
    decreases t,
{
    match t {
        TypeIdentifier::Optional(inner) => inline_optional_field(inner, ci),
        _ => {
            let mapped_name = match map_type_name(t, ci) {
                Ok(m) => m,
                Err(e) => {
                    return Err(e);
                },
            };
            let type_nm = swift_label_of(t);
            let same = crate::text::str_eq(mapped_name.as_str(), type_nm.as_str());
            proof {
                if held_as_dictionary(ci, t@) {
                    reveal_strlit("[String: Any?]");
                    assert(mapped_name@ == "[String: Any?]"@);
                    assert(mapped_name@[0] == '[');
                    if same {
                        assert(type_nm@.len() > 0);
                        assert(is_ascii_alnum(type_nm@[0]));
                    }
                }
            }
            Ok(same)
        },
    }
}

/// The types whose values `render_from_map` renders without panicking: every type but
/// an enum that the interface does not define or a sequence of an unresolved type,
/// also under optionals.
pub open spec fn from_map_supported(ci: &ComponentInterface, t: TypeView) -> bool
    decreases t,
{
    match t {
        TypeView::Enum(n) => ci.enum_flat(n) is Some,
        TypeView::Optional(inner) => from_map_supported(ci, *inner),
        TypeView::Sequence(inner) => is_resolved(*inner),
        _ => true,
    }
}

/// The expression that turns the dictionary value `m` back into a value of type `t`.
/// Types that the template does not read give the empty text.
pub open spec fn spec_render_from_map(ci: &ComponentInterface, t: TypeView, m: Seq<char>) -> Seq<
    char,
>
    decreases t,
{
    match t {
        TypeView::Record(_) => "try as"@ + swift_label(t) + "(data: "@ + m + ")"@,
        TypeView::Enum(n) => if ci.enum_flat(n) == Some(true) {
            "try as"@ + n + "(type: "@ + m + ")"@
        } else {
            "try as"@ + n + "(data: "@ + m + ")"@
        },
        TypeView::Optional(inner) => spec_render_from_map(ci, *inner, m),
        TypeView::Sequence(inner) => if *inner is Record {
            "try as"@ + swift_label(*inner) + "List(arr: "@ + m + ")"@
        } else {
            m
        },
        _ => if is_scalar(t) {
            m
        } else {
            ""@
        },
    }
}

/// The expression that turns a dictionary value back into a Swift value.
pub fn render_from_map(
    t: &TypeIdentifier,
    ci: &ComponentInterface,
    map_var_name: &str,
) -> (r: Result<String, askama::Error>)
    requires
        from_map_supported(ci, t@),
    ensures
        r matches Ok(s) && s@ == spec_render_from_map(ci, t@, map_var_name@),
    decreases t,
{
    if t.is_scalar() {
        return Ok(String::from_str(map_var_name));
    }
    let res = match t {
        TypeIdentifier::Record(_) => {
            let record_type_name = swift_label_of(t);
            around("try as", record_type_name.as_str(), "(data: ", map_var_name, ")")
        },
        TypeIdentifier::Enum(inner) => {
            match ci.get_enum_definition(inner.as_str()) {
                Some(enum_def) => {
                    if enum_def.is_flat() {
                        around("try as", inner.as_str(), "(type: ", map_var_name, ")")
                    } else {
                        around("try as", inner.as_str(), "(data: ", map_var_name, ")")
                    }
                },
                None => vstd::pervasive::unreached(),
            }
        },
        TypeIdentifier::Optional(inner) => {
            match render_from_map(inner, ci, map_var_name) {
                Ok(inner_res) => inner_res,
                Err(e) => {
                    return Err(e);
                },
            }
        },
        TypeIdentifier::Sequence(inner) => {
            let element_type_name = swift_label_of(inner);
            match &**inner {
                TypeIdentifier::Record(_) => around(
                    "try as",
                    element_type_name.as_str(),
                    "List(arr: ",
                    map_var_name,
                    ")",
                ),
                _ => String::from_str(map_var_name),
            }
        },
        _ => String::from_str(""),
    };
    Ok(res)
}

/// Law: optionals are looked through, and a sequence holds its elements' dictionary
/// type in brackets. An optional type has the dictionary type, the
/// inlining and the reading of its inner type, and its field renders as a nil check
/// around the rendering of the inner type as a field that may be nil.
pub proof fn lemma_optional_fields(
    ci: &ComponentInterface,
    t: TypeView,
    obj: Seq<char>,
    field: Seq<char>,
    m: Seq<char>,
    optional: bool,
)
    ensures
        spec_map_type_name(ci, TypeView::Optional(Box::new(t))) == spec_map_type_name(ci, t),
        spec_map_type_name(ci, TypeView::Sequence(Box::new(t))) == "["@ + spec_map_type_name(
            ci,
            t,
        ) + "]"@,
        spec_inline_optional_field(ci, TypeView::Optional(Box::new(t)))
            == spec_inline_optional_field(ci, t),
        spec_render_from_map(ci, TypeView::Optional(Box::new(t)), m) == spec_render_from_map(
            ci,
            t,
            m,
        ),
        spec_render_to_map(ci, TypeView::Optional(Box::new(t)), obj, field, optional)
            == obj_prefix(obj) + field + " == nil ? nil : "@ + spec_render_to_map(
            ci,
            t,
            obj,
            field,
            true,
        ),
        map_type_supported(ci, TypeView::Optional(Box::new(t))) == map_type_supported(ci, t),
        inline_supported(ci, TypeView::Optional(Box::new(t))) == inline_supported(ci, t),
        from_map_supported(ci, TypeView::Optional(Box::new(t))) == from_map_supported(ci, t),
{
}

/// Law: a field that is not optional is inlined exactly when its dictionary type is its
/// own Swift label, and numbers, booleans and strings always are.
pub proof fn lemma_inline_iff_same_name(ci: &ComponentInterface, t: TypeView)
    requires
        !(t is Optional),
    ensures
        spec_inline_optional_field(ci, t) == (spec_map_type_name(ci, t) == swift_label(t)),
        is_scalar(t) ==> spec_inline_optional_field(ci, t),
{
}

fn supports_to_map_shape(t: &TypeIdentifier, ci: &ComponentInterface) -> (r: bool)
    ensures
        r == to_map_shape(ci, t@),
    decreases t,
{
    match t {
        TypeIdentifier::Record(_) => true,
        TypeIdentifier::Enum(_) => t.is_defined_enum(ci),
        TypeIdentifier::Optional(inner) => supports_to_map_shape(inner, ci),
        TypeIdentifier::Sequence(_) => true,
        _ => t.is_scalar(),
    }
}

/// Whether `render_to_map` renders the type (its `requires`).
pub fn supports_render_to_map(t: &TypeIdentifier, ci: &ComponentInterface) -> (r: bool)
    ensures
        r == to_map_supported(ci, t@),
{
    supports_to_map_shape(t, ci) && t.is_resolved()
}

/// Whether `map_type_name` names the type (its `requires`).
pub fn supports_map_type_name(t: &TypeIdentifier, ci: &ComponentInterface) -> (r: bool)
    ensures
        r == map_type_supported(ci, t@),
    decreases t,
{
    match t {
        TypeIdentifier::Record(_) => true,
        TypeIdentifier::Enum(_) => t.is_defined_enum(ci),
        TypeIdentifier::Optional(inner) => supports_map_type_name(inner, ci),
        TypeIdentifier::Sequence(inner) => supports_map_type_name(inner, ci),
        _ => t.is_resolved(),
    }
}

/// Whether `inline_optional_field` answers for the type (its `requires`).
pub fn supports_inline_optional_field(t: &TypeIdentifier, ci: &ComponentInterface) -> (r: bool)
    ensures
        r == inline_supported(ci, t@),
    decreases t,
{
    match t {
        TypeIdentifier::Optional(inner) => supports_inline_optional_field(inner, ci),
        _ => supports_map_type_name(t, ci) && t.is_resolved(),
    }
}

/// Whether `render_from_map` renders the type (its `requires`).
pub fn supports_render_from_map(t: &TypeIdentifier, ci: &ComponentInterface) -> (r: bool)
    ensures
        r == from_map_supported(ci, t@),
    decreases t,
{
    match t {
        TypeIdentifier::Enum(_) => t.is_defined_enum(ci),
        TypeIdentifier::Optional(inner) => supports_render_from_map(inner, ci),
        TypeIdentifier::Sequence(inner) => inner.is_resolved(),
        _ => true,
    }
}

/// The field as the Swift code refers to it: `obj.field`, or the bare field when the
/// object's name is empty.
pub open spec fn field_path(obj: Seq<char>, field: Seq<char>) -> Seq<char> {
    if obj.len() == 0 {
        field
    } else {
        obj + "."@ + field
    }
}

proof fn lemma_obj_prefix(obj: Seq<char>, field: Seq<char>)
    ensures
        obj_prefix(obj) + field == field_path(obj, field),
{
    reveal_strlit("");
    if obj.len() == 0 {
        assert(""@ + field =~= field);
    }
}

/// Law: a sequence of records and a sequence of enums render alike: as `arrayOf` of the
/// element's variable name (the lower camel case of its Swift label) with `List`, over
/// the field, which is force-unwrapped with `!` exactly when it may be nil. Elements of
/// the same variable name give the same rendering, record or enum.
pub proof fn lemma_sequence_of_records_or_enums_to_map(
    ci: &ComponentInterface,
    element: TypeView,
    other_element: TypeView,
    obj: Seq<char>,
    field: Seq<char>,
)
    requires
        element is Record || element is Enum,
    ensures
        spec_render_to_map(ci, TypeView::Sequence(Box::new(element)), obj, field, true)
            == "arrayOf("@ + lower_camel_case(swift_type_label(element)) + "List: "@
            + field_path(obj, field) + "!"@ + ")"@,
        spec_render_to_map(ci, TypeView::Sequence(Box::new(element)), obj, field, false)
            == "arrayOf("@ + lower_camel_case(swift_type_label(element)) + "List: "@
            + field_path(obj, field) + ""@ + ")"@,
        (other_element is Record || other_element is Enum) && lower_camel_case(
            swift_type_label(other_element),
        ) == lower_camel_case(swift_type_label(element)) ==> {
            &&& spec_render_to_map(ci, TypeView::Sequence(Box::new(element)), obj, field, true)
                == spec_render_to_map(
                ci,
                TypeView::Sequence(Box::new(other_element)),
                obj,
                field,
                true,
            )
            &&& spec_render_to_map(ci, TypeView::Sequence(Box::new(element)), obj, field, false)
                == spec_render_to_map(
                ci,
                TypeView::Sequence(Box::new(other_element)),
                obj,
                field,
                false,
            )
        },
{
    lemma_obj_prefix(obj, field);
}

/// Law: a sequence of anything but records and enums, and a number, boolean or string,
/// render into a dictionary as the field itself, optional or not.
pub proof fn lemma_plain_fields_to_map(
    ci: &ComponentInterface,
    t: TypeView,
    obj: Seq<char>,
    field: Seq<char>,
    optional: bool,
)
    requires
        is_scalar(t) || (t is Sequence && !(*t->Sequence_0 is Record) && !(
        *t->Sequence_0 is Enum)),
    ensures
        spec_render_to_map(ci, t, obj, field, optional) == field_path(obj, field),
{
    lemma_obj_prefix(obj, field);
}

/// Law: a dictionary value is read back as it is for a number, boolean or string and
/// for a sequence of anything but records; only a sequence of records is converted,
/// with the list converter named by the record's Swift label.
pub proof fn lemma_plain_values_from_map(
    ci: &ComponentInterface,
    t: TypeView,
    element: TypeView,
    m: Seq<char>,
)
    ensures
        is_scalar(t) ==> spec_render_from_map(ci, t, m) == m,
        !(element is Record) ==> spec_render_from_map(
            ci,
            TypeView::Sequence(Box::new(element)),
            m,
        ) == m,
        element is Record ==> spec_render_from_map(ci, TypeView::Sequence(Box::new(element)), m)
            == "try as"@ + swift_type_label(element) + "List(arr: "@ + m + ")"@,
{
}

/// Law: a record field renders as `dictionaryOf` of the record's variable name (the lower
/// camel case of its label) over the field, behind a nil check and force-unwrapped when
/// it may be nil; a flat enum field as `valueOf(` likewise (with two spaces before the
/// force-unwrapped field); an enum field with cases that hold fields as `dictionaryOf`.
pub proof fn lemma_records_and_enums_to_map(
    ci: &ComponentInterface,
    t: TypeView,
    obj: Seq<char>,
    field: Seq<char>,
)
    requires
        t is Record || t is Enum,
    ensures
        ({
            let pf = field_path(obj, field);
            let v = lower_camel_case(swift_type_label(t));
            let flat = t is Enum && ci.enum_flat(t->Enum_0) == Some(true);
            &&& t is Record ==> spec_render_to_map(ci, t, obj, field, false) == "dictionaryOf("@
                + v + ": "@ + pf + ")"@
            &&& t is Record ==> spec_render_to_map(ci, t, obj, field, true) == pf
                + " == nil ? nil : { dictionaryOf("@ + v + ": "@ + pf + "!) }"@
            &&& flat ==> spec_render_to_map(ci, t, obj, field, false) == "valueOf( "@ + v + ": "@
                + pf + ")"@
            &&& flat ==> spec_render_to_map(ci, t, obj, field, true) == "valueOf( "@ + v
                + ":  "@ + pf + "!)"@
            &&& (t is Enum && !flat) ==> spec_render_to_map(ci, t, obj, field, false)
                == "dictionaryOf("@ + v + ": "@ + pf + ")"@
            &&& (t is Enum && !flat) ==> spec_render_to_map(ci, t, obj, field, true)
                == "dictionaryOf("@ + v + ": "@ + pf + "!)"@
        }),
{
    lemma_obj_prefix(obj, field);
}

/// Law: records and enums whose cases hold fields are held in a dictionary as
/// `[String: Any?]`, a flat enum as `String`, and every other type that is neither an
/// optional nor a sequence as its own Swift label.
pub proof fn lemma_map_type_names(ci: &ComponentInterface, t: TypeView)
    ensures
        held_as_dictionary(ci, t) ==> spec_map_type_name(ci, t) == "[String: Any?]"@,
        (t is Enum && ci.enum_flat(t->Enum_0) == Some(true)) ==> spec_map_type_name(ci, t)
            == "String"@,
        !(t is Record || t is Enum || t is Optional || t is Sequence) ==> spec_map_type_name(
            ci,
            t,
        ) == swift_type_label(t),
{
}

/// Law: a record value is converted by the record's Swift label (`try as<Label>(data:`),
/// an enum value by the enum's own name, from a string (`type:`) when the enum is flat
/// and from a dictionary (`data:`) otherwise; timestamps, durations, objects, errors,
/// callback interfaces, maps, external, custom and unresolved types are not read.
pub proof fn lemma_records_and_enums_from_map(ci: &ComponentInterface, t: TypeView, m: Seq<char>)
    ensures
        t is Record ==> spec_render_from_map(ci, t, m) == "try as"@ + swift_type_label(t)
            + "(data: "@ + m + ")"@,
        (t is Enum && ci.enum_flat(t->Enum_0) == Some(true)) ==> spec_render_from_map(ci, t, m)
            == "try as"@ + t->Enum_0 + "(type: "@ + m + ")"@,
        (t is Enum && ci.enum_flat(t->Enum_0) != Some(true)) ==> spec_render_from_map(ci, t, m)
            == "try as"@ + t->Enum_0 + "(data: "@ + m + ")"@,
        (t is Timestamp || t is Duration || t is Object || t is Error || t is CallbackInterface
            || t is Mapping || t is External || t is Custom || t is Unresolved)
            ==> spec_render_from_map(ci, t, m) == ""@,
{
}

} // verus!
