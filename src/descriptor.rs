//! The canonical shape of a type definition: fields, variants and the
//! declared types that they carry.
use vstd::prelude::*;
use vstd::string::*;
use crate::numeric::{NumericKind, kind_from_type_name, spec_kind_of_name};
use crate::text::same_text;

verus! {

/// A declared type, as far as binding generation reads it.
#[derive(Debug)]
pub enum TypeExpr {
    /// A path such as `u8`, `Vec<i32>` or `prost::alloc::vec::Vec<f32>`.
    Path(Vec<PathSegment>),
    /// Any other type form (reference, tuple, array, ...).
    Other,
}

/// One segment of a path, with its angle-bracketed arguments.
#[derive(Debug)]
pub struct PathSegment {
    pub ident: String,
    pub args: Vec<GenericArg>,
}

/// A generic argument of a path segment.
#[derive(Debug)]
pub enum GenericArg {
    Type(TypeExpr),
    /// A lifetime, a constant or an associated-type binding.
    Other,
}

/// The fields of a struct or of an enum variant.
#[derive(Debug)]
pub enum Fields {
    /// Named fields, in declaration order.
    Named(Vec<FieldDef>),
    /// Unnamed (tuple) fields, in declaration order.
    Unnamed(Vec<TypeExpr>),
    /// No fields at all.
    Unit,
}

/// A named field and its declared type.
#[derive(Debug)]
pub struct FieldDef {
    pub name: String,
    pub ty: TypeExpr,
}

/// One variant of an enum.
#[derive(Debug)]
pub struct VariantDef {
    pub name: String,
    pub fields: Fields,
}

/// The shape of a type definition.
#[derive(Debug)]
pub enum Data {
    Struct(Fields),
    Enum(Vec<VariantDef>),
    /// An untagged union, for which no binding strategy exists.
    Union,
}

/// A type definition: its name and its shape.
#[derive(Debug)]
pub struct TypeDef {
    pub name: String,
    pub data: Data,
}

/// How a field's buffer is laid out, for a field that gets buffer
/// operations.
#[derive(Debug, Clone, Copy, PartialEq, Eq, Structural)]
pub enum BufferElement {
    /// A sequence of elements of one numeric kind.
    Flat(NumericKind),
    /// A sequence of byte rows, exchanged as a rectangular buffer.
    Rows,
}

/// Whether a path names `Vec`: either the bare `Vec`, or a path of at least
/// three segments ending in `alloc::vec::Vec`.
pub open spec fn spec_is_vec_path(segs: Seq<PathSegment>) -> bool {
    let n = segs.len();
    &&& n >= 1
    &&& segs[n - 1].ident@ == seq!['V', 'e', 'c']
    &&& (n == 1 || (n >= 3 && segs[n - 2].ident@ == seq!['v', 'e', 'c']
        && segs[n - 3].ident@ == seq!['a', 'l', 'l', 'o', 'c']))
}

/// The element type of `ty` where `ty` is a `Vec` whose first generic
/// argument is a type.
pub open spec fn spec_vec_inner(ty: TypeExpr) -> Option<TypeExpr> {
    match ty {
        TypeExpr::Path(segs) => {
            if spec_is_vec_path(segs@) && segs@.last().args@.len() > 0 {
                match segs@.last().args@[0] {
                    GenericArg::Type(inner) => Some(inner),
                    GenericArg::Other => None,
                }
            } else {
                None
            }
        },
        TypeExpr::Other => None,
    }
}

/// The numeric kind that the last segment of a path names, if any.
pub open spec fn spec_numeric_kind(ty: TypeExpr) -> Option<NumericKind> {
    match ty {
        TypeExpr::Path(segs) => {
            if segs@.len() > 0 {
                spec_kind_of_name(segs@.last().ident@)
            } else {
                None
            }
        },
        TypeExpr::Other => None,
    }
}

/// The buffer layout of a field of type `ty`, or `None` where the field
/// gets plain accessors only.
pub open spec fn spec_buffer_element(ty: TypeExpr) -> Option<BufferElement> {
    match spec_vec_inner(ty) {
        None => None,
        Some(inner) => {
            if spec_vec_inner(inner) is Some && spec_numeric_kind(spec_vec_inner(inner)->0)
                == Some(NumericKind::U8) {
                Some(BufferElement::Rows)
            } else {
                match spec_numeric_kind(inner) {
                    Some(k) => Some(BufferElement::Flat(k)),
                    None => None,
                }
            }
        },
    }
}

/// The element type of a `Vec` type (bare, or reached through
/// `alloc::vec`), or `None` for any other type.
pub fn extract_vec_inner_type(ty: &TypeExpr) -> (r: Option<&TypeExpr>)
    ensures
        match r {
            Some(inner) => spec_vec_inner(*ty) == Some(*inner),
            None => spec_vec_inner(*ty) is None,
        },
{
    match ty {
        TypeExpr::Path(segs) => {
            let n = segs.len();
            if n == 0 {
                return None;
            }
            let last = &segs[n - 1];
            proof {
                reveal_strlit("Vec");
                reveal_strlit("vec");
                reveal_strlit("alloc");
                assert("Vec"@ =~= seq!['V', 'e', 'c']);
                assert("vec"@ =~= seq!['v', 'e', 'c']);
                assert("alloc"@ =~= seq!['a', 'l', 'l', 'o', 'c']);
                assert(segs@.last() == segs@[n - 1]);
            }
            if !same_text(last.ident.as_str(), "Vec") {
                return None;
            }
            let path_ok = n == 1 || (n >= 3 && same_text(segs[n - 2].ident.as_str(), "vec")
                && same_text(segs[n - 3].ident.as_str(), "alloc"));
            if !path_ok || last.args.len() == 0 {
                return None;
            }
            match &last.args[0] {
                GenericArg::Type(inner) => Some(inner),
                GenericArg::Other => None,
            }
        },
        TypeExpr::Other => None,
    }
}

/// The numeric kind named by the last segment of `ty`'s path, if any.
pub fn numeric_kind_of(ty: &TypeExpr) -> (r: Option<NumericKind>)
    ensures
        r == spec_numeric_kind(*ty),
{
    match ty {
        TypeExpr::Path(segs) => {
            if segs.len() == 0 {
                None
            } else {
                kind_from_type_name(segs[segs.len() - 1].ident.as_str())
            }
        },
        TypeExpr::Other => None,
    }
}

/// Whether `ty` is one of the eleven supported numeric element types.
pub fn is_supported_numeric_type(ty: &TypeExpr) -> (r: bool)
    ensures
        r == (spec_numeric_kind(*ty) is Some),
{
    numeric_kind_of(ty).is_some()
}

/// The buffer layout that a field of type `ty` is exchanged in, or `None`
/// where the field gets plain accessors only.
pub fn buffer_element_of(ty: &TypeExpr) -> (r: Option<BufferElement>)
    ensures
        r == spec_buffer_element(*ty),
{
    match extract_vec_inner_type(ty) {
        None => None,
        Some(inner) => {
            let nested_byte = match extract_vec_inner_type(inner) {
                Some(nested) => match numeric_kind_of(nested) {
                    Some(NumericKind::U8) => true,
                    _ => false,
                },
                None => false,
            };
            if nested_byte {
                Some(BufferElement::Rows)
            } else {
                match numeric_kind_of(inner) {
                    Some(k) => Some(BufferElement::Flat(k)),
                    None => None,
                }
            }
        },
    }
}

} // verus!
