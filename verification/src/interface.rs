//! The parts of a uniffi component interface that the filters read: the types
//! that cross the interface and, for each enum, whether it is flat.

use vstd::prelude::*;

verus! {

/// A type that can cross the interface, by name for those the interface defines.
#[derive(Debug, PartialEq, Eq)]
pub enum TypeIdentifier {
    UInt8,
    Int8,
    UInt16,
    Int16,
    UInt32,
    Int32,
    UInt64,
    Int64,
    Float32,
    Float64,
    Boolean,
    String,
    Timestamp,
    Duration,
    Object(String),
    Record(String),
    Enum(String),
    Error(String),
    CallbackInterface(String),
    Optional(Box<TypeIdentifier>),
    Sequence(Box<TypeIdentifier>),
    Mapping(Box<TypeIdentifier>, Box<TypeIdentifier>),
    External { name: String, crate_name: String },
    Custom { name: String, builtin: Box<TypeIdentifier> },
    Unresolved { name: String },
}

/// The mathematical value of a `TypeIdentifier`: the same tree, with each name as its characters.
pub enum TypeView {
    UInt8,
    Int8,
    UInt16,
    Int16,
    UInt32,
    Int32,
    UInt64,
    Int64,
    Float32,
    Float64,
    Boolean,
    String,
    Timestamp,
    Duration,
    Object(Seq<char>),
    Record(Seq<char>),
    Enum(Seq<char>),
    Error(Seq<char>),
    CallbackInterface(Seq<char>),
    Optional(Box<TypeView>),
    Sequence(Box<TypeView>),
    Mapping(Box<TypeView>, Box<TypeView>),
    External { name: Seq<char>, crate_name: Seq<char> },
    Custom { name: Seq<char>, builtin: Box<TypeView> },
    Unresolved { name: Seq<char> },
}

pub open spec fn type_view(t: TypeIdentifier) -> TypeView
    decreases t,
{
    match t {
        TypeIdentifier::UInt8 => TypeView::UInt8,
        TypeIdentifier::Int8 => TypeView::Int8,
        TypeIdentifier::UInt16 => TypeView::UInt16,
        TypeIdentifier::Int16 => TypeView::Int16,
        TypeIdentifier::UInt32 => TypeView::UInt32,
        TypeIdentifier::Int32 => TypeView::Int32,
        TypeIdentifier::UInt64 => TypeView::UInt64,
        TypeIdentifier::Int64 => TypeView::Int64,
        TypeIdentifier::Float32 => TypeView::Float32,
        TypeIdentifier::Float64 => TypeView::Float64,
        TypeIdentifier::Boolean => TypeView::Boolean,
        TypeIdentifier::String => TypeView::String,
        TypeIdentifier::Timestamp => TypeView::Timestamp,
        TypeIdentifier::Duration => TypeView::Duration,
        TypeIdentifier::Object(n) => TypeView::Object(n@),
        TypeIdentifier::Record(n) => TypeView::Record(n@),
        TypeIdentifier::Enum(n) => TypeView::Enum(n@),
        TypeIdentifier::Error(n) => TypeView::Error(n@),
        TypeIdentifier::CallbackInterface(n) => TypeView::CallbackInterface(n@),
        TypeIdentifier::Optional(inner) => TypeView::Optional(Box::new(type_view(*inner))),
        TypeIdentifier::Sequence(inner) => TypeView::Sequence(Box::new(type_view(*inner))),
        TypeIdentifier::Mapping(k, v) => TypeView::Mapping(Box::new(type_view(*k)), Box::new(type_view(*v))),
        TypeIdentifier::External { name, crate_name } => TypeView::External {
            name: name@,
            crate_name: crate_name@,
        },
        TypeIdentifier::Custom { name, builtin } => TypeView::Custom {
            name: name@,
            builtin: Box::new(type_view(*builtin)),
        },
        TypeIdentifier::Unresolved { name } => TypeView::Unresolved { name: name@ },
    }
}

impl TypeIdentifier {
    /// Whether the type is a number, a boolean or a string.
    pub fn is_scalar(&self) -> (r: bool)
        ensures
            r == is_scalar(self@),
    {
        match self {
            TypeIdentifier::UInt8 => true,
            TypeIdentifier::Int8 => true,
            TypeIdentifier::UInt16 => true,
            TypeIdentifier::Int16 => true,
            TypeIdentifier::UInt32 => true,
            TypeIdentifier::Int32 => true,
            TypeIdentifier::UInt64 => true,
            TypeIdentifier::Int64 => true,
            TypeIdentifier::Float32 => true,
            TypeIdentifier::Float64 => true,
            TypeIdentifier::Boolean => true,
            TypeIdentifier::String => true,
            _ => false,
        }
    }
}

impl TypeIdentifier {
    /// Whether no `Unresolved` type is reachable through optionals, sequences and maps.
    pub fn is_resolved(&self) -> (r: bool)
        ensures
            r == is_resolved(self@),
        decreases self,
    {
        match self {
            TypeIdentifier::Unresolved { .. } => false,
            TypeIdentifier::Optional(inner) => inner.is_resolved(),
            TypeIdentifier::Sequence(inner) => inner.is_resolved(),
            TypeIdentifier::Mapping(k, v) => k.is_resolved() && v.is_resolved(),
            _ => true,
        }
    }

    /// Whether the type is an enum that the interface defines.
    pub fn is_defined_enum(&self, ci: &ComponentInterface) -> (r: bool)
        ensures
            r == (self@ is Enum && ci.enum_flat(self@->Enum_0) is Some),
    {
        match self {
            TypeIdentifier::Enum(n) => ci.get_enum_definition(n.as_str()).is_some(),
            _ => false,
        }
    }
}

impl View for TypeIdentifier {
    type V = TypeView;

    open spec fn view(&self) -> TypeView {
        type_view(*self)
    }
}

/// Whether the type is a built-in one: a number, a boolean, a string, a timestamp or a
/// duration.
pub open spec fn is_builtin(t: TypeView) -> bool {
    match t {
        TypeView::UInt8 | TypeView::Int8 | TypeView::UInt16 | TypeView::Int16
        | TypeView::UInt32 | TypeView::Int32 | TypeView::UInt64 | TypeView::Int64
        | TypeView::Float32 | TypeView::Float64 | TypeView::Boolean | TypeView::String
        | TypeView::Timestamp | TypeView::Duration => true,
        _ => false,
    }
}

/// Whether the type is a number, a boolean or a string: a value that maps read and
/// write as it is.
pub open spec fn is_scalar(t: TypeView) -> bool {
    is_builtin(t) && !(t is Timestamp) && !(t is Duration)
}

/// Whether no `Unresolved` type is reachable from `t` through its optional,
/// sequence and map components: the types to which a code oracle gives a label.
pub open spec fn is_resolved(t: TypeView) -> bool
    decreases t,
{
    match t {
        TypeView::Unresolved { .. } => false,
        TypeView::Optional(inner) => is_resolved(*inner),
        TypeView::Sequence(inner) => is_resolved(*inner),
        TypeView::Mapping(k, v) => is_resolved(*k) && is_resolved(*v),
        _ => true,
    }
}

/// An enum that the interface defines, with whether all its variants are without fields.
#[derive(Debug, Clone)]
pub struct EnumDefinition {
    pub name: String,
    pub flat: bool,
}

impl EnumDefinition {
    pub fn new(name: String, flat: bool) -> (r: Self)
        ensures
            r.name@ == name@,
            r.flat == flat,
    {
        EnumDefinition { name, flat }
    }

    pub fn name(&self) -> (r: &str)
        ensures
            r@ == self.name@,
    {
        self.name.as_str()
    }

    pub fn is_flat(&self) -> (r: bool)
        ensures
            r == self.flat,
    {
        self.flat
    }
}

/// The flatness of the first definition in `defs` named `name`, if any.
pub open spec fn lookup_flat(defs: Seq<EnumDefinition>, name: Seq<char>) -> Option<bool>
    decreases defs.len(),
{
    if defs.len() == 0 {
        None
    } else {
        let prefix = lookup_flat(defs.drop_last(), name);
        if prefix is Some {
            prefix
        } else if defs.last().name@ == name {
            Some(defs.last().flat)
        } else {
            None
        }
    }
}

/// `lookup_flat` is `None` exactly when no definition has the name, and otherwise
/// gives the flatness of the first one that has it.
pub proof fn lemma_lookup_flat(defs: Seq<EnumDefinition>, name: Seq<char>)
    ensures
        lookup_flat(defs, name) is None <==> (forall|i: int|
            0 <= i < defs.len() ==> #[trigger] defs[i].name@ != name),
        forall|i: int|
            0 <= i < defs.len() && #[trigger] defs[i].name@ == name && (forall|j: int|
                0 <= j < i ==> defs[j].name@ != name) ==> lookup_flat(defs, name) == Some(
                defs[i].flat,
            ),
        lookup_flat(defs, name) is Some ==> exists|i: int|
            0 <= i < defs.len() && #[trigger] defs[i].name@ == name && defs[i].flat
                == lookup_flat(defs, name)->0 && (forall|j: int|
                0 <= j < i ==> defs[j].name@ != name),
    decreases defs.len(),
{
    if defs.len() > 0 {
        let p = defs.drop_last();
        lemma_lookup_flat(p, name);
        assert forall|i: int| 0 <= i < p.len() implies #[trigger] p[i] == defs[i] by {}
        if forall|i: int| 0 <= i < defs.len() ==> #[trigger] defs[i].name@ != name {
            assert forall|i: int| 0 <= i < p.len() implies #[trigger] p[i].name@ != name by {
                assert(p[i] == defs[i]);
            }
            assert(defs[defs.len() - 1].name@ != name);
        }
        if lookup_flat(defs, name) is None {
            assert forall|i: int| 0 <= i < defs.len() implies #[trigger] defs[i].name@ != name by {
                if i < p.len() {
                    assert(p[i] == defs[i]);
                }
            }
        }
        if lookup_flat(p, name) is None {
            assert(forall|i: int| 0 <= i < p.len() ==> p[i].name@ != name);
        }
        assert forall|i: int|
            0 <= i < defs.len() && #[trigger] defs[i].name@ == name && (forall|j: int|
                0 <= j < i ==> defs[j].name@ != name) implies lookup_flat(defs, name) == Some(
            defs[i].flat,
        ) by {
            if i < defs.len() - 1 {
                assert(p[i] == defs[i]);
                assert(forall|j: int| 0 <= j < i ==> p[j] == defs[j]);
            } else {
                assert forall|j: int| 0 <= j < p.len() implies #[trigger] p[j].name@ != name by {
                    assert(p[j] == defs[j]);
                }
            }
        }
        if lookup_flat(defs, name) is Some {
            if lookup_flat(p, name) is Some {
                let i = choose|i: int|
                    0 <= i < p.len() && #[trigger] p[i].name@ == name && p[i].flat == lookup_flat(
                        p,
                        name,
                    )->0 && (forall|j: int| 0 <= j < i ==> p[j].name@ != name);
                assert(defs[i] == p[i]);
                assert(forall|j: int| 0 <= j < i ==> p[j] == defs[j]);
            } else {
                let i = defs.len() - 1;
                assert(defs[i].name@ == name);
                assert forall|j: int| 0 <= j < i implies defs[j].name@ != name by {
                    assert(p[j] == defs[j]);
                }
            }
        }
    }
}

/// The interface: its namespace and its enum definitions.
pub struct ComponentInterface {
    namespace: String,
    enums: Vec<EnumDefinition>,
}

impl ComponentInterface {
    /// The interface's namespace.
    pub closed spec fn namespace_view(&self) -> Seq<char> {
        self.namespace@
    }

    /// Whether the enum of that name is flat, or `None` if the interface defines no
    /// enum of that name.
    pub closed spec fn enum_flat(&self, name: Seq<char>) -> Option<bool> {
        lookup_flat(self.enums@, name)
    }

    /// An interface with this namespace and no enum.
    pub fn new(namespace: String) -> (r: Self)
        ensures
            r.namespace_view() == namespace@,
            forall|n: Seq<char>| #[trigger] r.enum_flat(n) is None,
    {
        ComponentInterface { namespace, enums: Vec::new() }
    }

    pub fn namespace(&self) -> (r: &str)
        ensures
            r@ == self.namespace_view(),
    {
        self.namespace.as_str()
    }

    /// Defines an enum, replacing an earlier definition of the same name.
    pub fn add_enum_definition(&mut self, name: String, flat: bool)
        ensures
            final(self).namespace_view() == old(self).namespace_view(),
            final(self).enum_flat(name@) == Some(flat),
            forall|n: Seq<char>|
                n != name@ ==> #[trigger] final(self).enum_flat(n) == old(self).enum_flat(n),
    {
        let ghost old_defs = self.enums@;
        let ghost nm = name@;
        let mut i: usize = 0;
        while i < self.enums.len()
            invariant
                self.enums@ == old_defs,
                name@ == nm,
                i <= old_defs.len(),
                forall|j: int| 0 <= j < i ==> old_defs[j].name@ != nm,
            ensures
                i <= old_defs.len(),
                forall|j: int| 0 <= j < i ==> old_defs[j].name@ != nm,
                i < old_defs.len() ==> old_defs[i as int].name@ == nm,
            decreases old_defs.len() - i,
        {
            let same = str_eq_string(&self.enums[i].name, &name);
            if same {
                break;
            }
            i = i + 1;
        }
        proof {
            lemma_lookup_flat(old_defs, nm);
        }
        if i < self.enums.len() {
            self.enums.set(i, EnumDefinition { name, flat });
            proof {
                let d = self.enums@;
                let ii = i as int;
                lemma_lookup_flat(d, nm);
                assert(d[ii].name@ == nm);
                assert(forall|j: int| 0 <= j < d.len() && j != ii ==> d[j] == old_defs[j]);
                assert forall|n: Seq<char>| n != nm implies #[trigger] lookup_flat(d, n)
                    == lookup_flat(old_defs, n) by {
                    lemma_lookup_flat(d, n);
                    lemma_lookup_flat(old_defs, n);
                    if lookup_flat(old_defs, n) is Some {
                        let k = choose|k: int|
                            0 <= k < old_defs.len() && #[trigger] old_defs[k].name@ == n
                                && old_defs[k].flat == lookup_flat(old_defs, n)->0 && (forall|
                                j: int,
                            | 0 <= j < k ==> old_defs[j].name@ != n);
                        assert(k != ii);
                        assert(d[k] == old_defs[k]);
                        assert forall|j: int| 0 <= j < k implies d[j].name@ != n by {
                            if j != ii {
                                assert(d[j] == old_defs[j]);
                            }
                        }
                    } else {
                        assert forall|j: int| 0 <= j < d.len() implies #[trigger] d[j].name@ != n by {
                            if j != ii {
                                assert(d[j] == old_defs[j]);
                                assert(old_defs[j].name@ != n);
                            }
                        }
                    }
                }
            }
        } else {
            self.enums.push(EnumDefinition { name, flat });
            proof {
                let d = self.enums@;
                lemma_lookup_flat(d, nm);
                assert(d[old_defs.len() as int].name@ == nm);
                assert forall|j: int| 0 <= j < old_defs.len() implies d[j] == old_defs[j] by {}
                assert forall|n: Seq<char>| n != nm implies #[trigger] lookup_flat(d, n)
                    == lookup_flat(old_defs, n) by {
                    assert(d.drop_last() =~= old_defs);
                }
            }
        }
    }

    /// The definition of the enum of that name, if the interface defines one.
    pub fn get_enum_definition(&self, name: &str) -> (r: Option<&EnumDefinition>)
        ensures
            match r {
                Some(d) => d.name@ == name@ && self.enum_flat(name@) == Some(d.flat),
                None => self.enum_flat(name@) is None,
            },
    {
        let mut i: usize = 0;
        while i < self.enums.len()
            invariant
                i <= self.enums@.len(),
                forall|j: int| 0 <= j < i ==> self.enums@[j].name@ != name@,
            decreases self.enums@.len() - i,
        {
            if crate::text::str_eq(self.enums[i].name.as_str(), name) {
                proof {
                    lemma_lookup_flat(self.enums@, name@);
                }
                return Some(&self.enums[i]);
            }
            i = i + 1;
        }
        proof {
            lemma_lookup_flat(self.enums@, name@);
        }
        None
    }
}

fn str_eq_string(a: &String, b: &String) -> (r: bool)
    ensures
        r == (a@ == b@),
{
    crate::text::str_eq(a.as_str(), b.as_str())
}

} // verus!
