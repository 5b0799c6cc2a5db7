//! The derive's input, held as plain values: the item's name, its variants
//! or fields, each field's name, type and attribute names.

use vstd::prelude::*;

verus! {

/// One generic argument in a path segment's angle brackets.
#[derive(Clone, Debug, PartialEq, Eq)]
pub enum GenericArg {
    /// A type argument, as source text.
    Type(String),
    /// A lifetime, constant, binding or constraint.
    Other,
}

/// The last segment of a path type, such as `Option<T>` in
/// `std::option::Option<T>`.
#[derive(Clone, Debug, PartialEq, Eq)]
pub struct PathEnd {
    /// The segment's identifier.
    pub ident: String,
    /// The generic arguments in angle brackets; `None` where the segment
    /// has no angle-bracketed arguments.
    pub angle_args: Option<Vec<GenericArg>>,
}

/// A field's type: its source text and, for a path type, its last segment.
#[derive(Clone, Debug, PartialEq, Eq)]
pub struct TypeDef {
    /// The type as source text.
    pub text: String,
    /// The last segment, where the type is a path type.
    pub path_end: Option<PathEnd>,
}

/// A named field: its name, its type and the names of its attributes (an
/// attribute whose path is not a single identifier is held by its text,
/// which names no attribute of the derive).
#[derive(Clone, Debug, PartialEq, Eq)]
pub struct FieldDef {
    pub name: String,
    pub ty: TypeDef,
    pub attrs: Vec<String>,
}

/// The fields of a struct or variant.
#[derive(Clone, Debug, PartialEq, Eq)]
pub enum FieldsDef {
    Named(Vec<FieldDef>),
    Unnamed,
    Unit,
}

/// An enum variant: its name and fields.
#[derive(Clone, Debug, PartialEq, Eq)]
pub struct VariantDef {
    pub name: String,
    pub fields: FieldsDef,
}

/// The item the derive is applied to.
#[derive(Clone, Debug, PartialEq, Eq)]
pub enum ItemDef {
    Enum { name: String, variants: Vec<VariantDef> },
    Struct { name: String, fields: FieldsDef },
    Union { name: String },
}

/// Whether the field carries an attribute of the given name.
pub open spec fn has_attr(f: FieldDef, name: Seq<char>) -> bool {
    exists|i: int| 0 <= i < f.attrs@.len() && (#[trigger] f.attrs@[i])@ == name
}

/// The inner type of an `Option<T>` field type, by its last path segment.
pub open spec fn option_inner(t: TypeDef) -> Option<Seq<char>> {
    match t.path_end {
        Some(pe) => if pe.ident@ == "Option"@ && pe.angle_args is Some && pe.angle_args->0@.len() == 1
            && pe.angle_args->0@[0] is Type {
            Some(pe.angle_args->0@[0]->Type_0@)
        } else {
            None
        },
        None => None,
    }
}

/// Whether the field carries an attribute of the given name.
pub fn field_has_attr(f: &FieldDef, name: &str) -> (res: bool)
    ensures
        res == has_attr(*f, name@),
{
    let mut i: usize = 0;
    while i < f.attrs.len()
        invariant
            i <= f.attrs@.len(),
            forall|k: int| 0 <= k < i ==> (#[trigger] f.attrs@[k])@ != name@,
        decreases f.attrs@.len() - i,
    {
        if crate::text::str_eq(f.attrs[i].as_str(), name) {
            return true;
        }
        i = i + 1;
    }
    false
}

/// The inner type's text of an `Option<T>` type, if the type is one.
pub fn type_option_inner(t: &TypeDef) -> (res: Option<String>)
    ensures
        match res {
            Some(s) => option_inner(*t) == Some(s@),
            None => option_inner(*t) is None,
        },
{
    match &t.path_end {
        Some(pe) => {
            if crate::text::str_eq(pe.ident.as_str(), "Option") {
                match &pe.angle_args {
                    Some(args) => {
                        if args.len() == 1 {
                            match &args[0] {
                                GenericArg::Type(inner) => Some(inner.clone()),
                                GenericArg::Other => None,
                            }
                        } else {
                            None
                        }
                    },
                    None => None,
                }
            } else {
                None
            }
        },
        None => None,
    }
}

} // verus!
