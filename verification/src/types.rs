use vstd::prelude::*;

verus! {

/// The closed set of primitive kinds built into the IDL. Every kind has a
/// fixed width independent of any target host.
#[derive(Clone, Copy, Debug, PartialEq, Eq, Structural)]
pub enum AtomType {
    Bool,
    U8,
    U16,
    U32,
    U64,
    I8,
    I16,
    I32,
    I64,
    F32,
    F64,
}

/// Opaque handle assigned to every declared type; unique and stable for one
/// generation session, and the key under which the registry files a type.
#[derive(Clone, Copy, Debug, PartialEq, Eq, Structural)]
pub struct Ident {
    pub key: u64,
}

/// A declaration payload together with its identity and declared name.
/// Declared names are unique within their scope; the resolver upstream
/// guarantees it before a module reaches a backend.
pub struct Named<T> {
    pub id: Ident,
    pub name: String,
    pub entity: T,
}

/// A reference to a type: either a primitive, mapped immediately through the
/// atomic type table, or a user declaration, looked up in the registry.
/// A `Defined` reference is only legal once its target has been processed;
/// the driver's dependency ordering is what makes that hold.
#[derive(Clone, Copy, Debug, PartialEq, Eq, Structural)]
pub enum DataTypeRef {
    Atom(AtomType),
    Defined(Ident),
}

/// One named member of a struct declaration. Member order is semantically
/// significant: it determines memory layout and must be emitted verbatim.
pub struct StructMember {
    pub name: String,
    pub type_: DataTypeRef,
}

/// A user-declared data type.
pub enum DataType {
    /// A transparent alias for another type.
    Alias { to: DataTypeRef },
    /// A record with layout-significant member order.
    Struct { members: Vec<StructMember> },
    /// A closed set of variants whose declared order fixes discriminants.
    Enum { variants: Vec<String> },
}

/// A declared function signature. Emitting these is an optional backend
/// capability; backends without it refuse the declaration as a whole.
pub struct FuncDecl {
    pub params: Vec<StructMember>,
    pub result: Option<DataTypeRef>,
}

/// One compilation unit: every declaration of a session, in the dependency
/// order the driver will present them. Read-only to a generator.
pub struct Module {
    pub data_types: Vec<Named<DataType>>,
    pub func_decls: Vec<Named<FuncDecl>>,
}

/// Target word size / architecture selection, offered to backends that pick
/// integer widths (enum discriminants, pointer-sized fields) from it.
#[derive(Clone, Copy, Debug, PartialEq, Eq, Structural)]
pub enum Target {
    X86,
    X86_64,
    Generic,
}

/// Per-backend options. The host targeted here recognizes none beyond the
/// word-size selection carried by `Target`.
#[derive(Clone, Copy, Debug)]
pub struct BackendConfig {
}

} // verus!
