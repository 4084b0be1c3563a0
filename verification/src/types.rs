//! Type references. While a unit is being parsed every user-written type is a
//! placeholder (`Unsolved` with the identifier text and the scope it was
//! written in, or `UnsolvedNoHint` for a plain variable reference); checking
//! replaces every placeholder with a primitive or with `Solved` carrying the
//! full name of the data type it denotes.

use vstd::prelude::*;
use vstd::string::StringExecFns;
use crate::name::{GName, Name, g_child};

verus! {

/// Mathematical model of a [`Type`].
pub ghost enum GType {
    Int32,
    Float32,
    Str,
    Void,
    UnsolvedNoHint,
    Unsolved(GName),
    Solved(GName),
}

/// A type reference: a primitive, a placeholder, or a resolved data type.
/// `Unsolved` keeps the identifier text as written together with the scope
/// that wrote it; `Solved` holds the full name of a concrete data type.
#[derive(Debug, Eq, Hash)]
pub enum Type {
    Int32,
    Float32,
    Str,
    Void,
    UnsolvedNoHint,
    Unsolved(Name),
    Solved(Name),
}

impl View for Type {
    type V = GType;

    open spec fn view(&self) -> GType {
        match self {
            Type::Int32 => GType::Int32,
            Type::Float32 => GType::Float32,
            Type::Str => GType::Str,
            Type::Void => GType::Void,
            Type::UnsolvedNoHint => GType::UnsolvedNoHint,
            Type::Unsolved(n) => GType::Unsolved(n@),
            Type::Solved(n) => GType::Solved(n@),
        }
    }
}

impl Clone for Type {
    fn clone(&self) -> (r: Type)
        ensures
            r == self,
    {
        match self {
            Type::Int32 => Type::Int32,
            Type::Float32 => Type::Float32,
            Type::Str => Type::Str,
            Type::Void => Type::Void,
            Type::UnsolvedNoHint => Type::UnsolvedNoHint,
            Type::Unsolved(n) => Type::Unsolved(n.clone()),
            Type::Solved(n) => Type::Solved(n.clone()),
        }
    }
}

impl PartialEq for Type {
    fn eq(&self, other: &Type) -> (r: bool)
    {
        match (self, other) {
            (Type::Int32, Type::Int32) => true,
            (Type::Float32, Type::Float32) => true,
            (Type::Str, Type::Str) => true,
            (Type::Void, Type::Void) => true,
            (Type::UnsolvedNoHint, Type::UnsolvedNoHint) => true,
            (Type::Unsolved(a), Type::Unsolved(b)) => a.eq(b),
            (Type::Solved(a), Type::Solved(b)) => a.eq(b),
            _ => false,
        }
    }
}

impl vstd::std_specs::cmp::PartialEqSpecImpl for Type {
    open spec fn obeys_eq_spec() -> bool {
        true
    }

    open spec fn eq_spec(&self, other: &Type) -> bool {
        self@ == other@
    }
}

/// Model of [`Type::from`]: the fixed primitive spellings map to primitives,
/// anything else becomes a placeholder under the scope that wrote it.
pub open spec fn g_type_from(namespace: GName, id: Seq<char>) -> GType {
    if id == "i32"@ || id == "int32"@ {
        GType::Int32
    } else if id == "f32"@ || id == "float32"@ {
        GType::Float32
    } else if id == "string"@ {
        GType::Str
    } else if id == "none"@ {
        GType::Void
    } else {
        GType::Unsolved(g_child(namespace, id))
    }
}

impl Type {
    /// Reads a written type identifier: the primitive spellings (`int32` and
    /// its short form `i32`, `float32`/`f32`, `string`, `none`) give the
    /// primitives, any other identifier a placeholder to be resolved later.
    pub fn from(namespace: &Name, id: String) -> (r: Type)
        ensures
            r@ == g_type_from(namespace@, id@),
    {
        if id.eq(&"i32".to_owned()) || id.eq(&"int32".to_owned()) {
            Type::Int32
        } else if id.eq(&"f32".to_owned()) || id.eq(&"float32".to_owned()) {
            Type::Float32
        } else if id.eq(&"string".to_owned()) {
            Type::Str
        } else if id.eq(&"none".to_owned()) {
            Type::Void
        } else {
            Type::Unsolved(Name::new(namespace, id))
        }
    }
}

/// The scope all built-in primitive types are named under.
pub open spec fn g_global() -> GName {
    g_child(crate::name::g_root(), "global"@)
}

/// Operations every named type value offers: its own segment, and its full
/// qualified name.
pub trait SysDCType {
    fn get_name(&self) -> String;

    fn get_full_name(&self) -> String;
}

/// One of the built-in primitive types, named under the global scope.
#[derive(Debug, PartialEq)]
pub struct SysDCDefaultType {
    pub name: Name,
}

impl SysDCDefaultType {
    fn new(name: &str) -> (r: SysDCDefaultType)
        ensures
            r.name@ == g_child(g_global(), name@),
    {
        proof {
            reveal_strlit("global");
        }
        let root = Name::new_root();
        let global = Name::new(&root, "global".to_owned());
        SysDCDefaultType { name: Name::new(&global, name.to_owned()) }
    }

    /// The four built-in primitive types, in their fixed order.
    pub fn get_all() -> (r: Vec<SysDCDefaultType>)
        ensures
            r@.len() == 4,
            r@[0].name@ == g_child(g_global(), "int32"@),
            r@[1].name@ == g_child(g_global(), "float32"@),
            r@[2].name@ == g_child(g_global(), "string"@),
            r@[3].name@ == g_child(g_global(), "none"@),
    {
        let mut all: Vec<SysDCDefaultType> = Vec::new();
        all.push(SysDCDefaultType::new("int32"));
        all.push(SysDCDefaultType::new("float32"));
        all.push(SysDCDefaultType::new("string"));
        all.push(SysDCDefaultType::new("none"));
        all
    }
}

impl SysDCType for SysDCDefaultType {
    fn get_name(&self) -> String {
        self.name.get_name()
    }

    fn get_full_name(&self) -> String {
        self.name.get_full_name()
    }
}

} // verus!
