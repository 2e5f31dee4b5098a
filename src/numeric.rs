//! The table of fixed-width numeric element kinds that qualify for
//! zero-copy buffer treatment.
use vstd::prelude::*;
use crate::text::same_text;

verus! {

/// One of the eleven fixed-width element kinds of a numeric buffer.
#[derive(Debug, Clone, Copy, PartialEq, Eq, Structural)]
pub enum NumericKind {
    Bool,
    I8,
    I16,
    I32,
    I64,
    U8,
    U16,
    U32,
    U64,
    F32,
    F64,
}

/// The layout of one buffer element, as the host array library describes it.
#[derive(Debug, Clone, Copy, PartialEq, Eq, Structural)]
pub struct ElementDescriptor {
    /// Width of one element, in bytes.
    pub width: u8,
    /// Whether the element is a signed integer.
    pub signed: bool,
    /// Whether the element is an IEEE floating-point number.
    pub float: bool,
    /// Whether the element is a boolean.
    pub boolean: bool,
}

/// The primitive type name that denotes `k` in a declaration.
pub open spec fn spec_type_name(k: NumericKind) -> Seq<char> {
    match k {
        NumericKind::Bool => seq!['b', 'o', 'o', 'l'],
        NumericKind::I8 => seq!['i', '8'],
        NumericKind::I16 => seq!['i', '1', '6'],
        NumericKind::I32 => seq!['i', '3', '2'],
        NumericKind::I64 => seq!['i', '6', '4'],
        NumericKind::U8 => seq!['u', '8'],
        NumericKind::U16 => seq!['u', '1', '6'],
        NumericKind::U32 => seq!['u', '3', '2'],
        NumericKind::U64 => seq!['u', '6', '4'],
        NumericKind::F32 => seq!['f', '3', '2'],
        NumericKind::F64 => seq!['f', '6', '4'],
    }
}

/// The name of the container type that holds elements of `k`.
pub open spec fn spec_container_name(k: NumericKind) -> Seq<char> {
    match k {
        NumericKind::Bool => seq!['L', 'i', 's', 't', 'B', 'o', 'o', 'l'],
        NumericKind::I8 => seq!['L', 'i', 's', 't', 'I', '8'],
        NumericKind::I16 => seq!['L', 'i', 's', 't', 'I', '1', '6'],
        NumericKind::I32 => seq!['L', 'i', 's', 't', 'I', '3', '2'],
        NumericKind::I64 => seq!['L', 'i', 's', 't', 'I', '6', '4'],
        NumericKind::U8 => seq!['L', 'i', 's', 't', 'U', '8'],
        NumericKind::U16 => seq!['L', 'i', 's', 't', 'U', '1', '6'],
        NumericKind::U32 => seq!['L', 'i', 's', 't', 'U', '3', '2'],
        NumericKind::U64 => seq!['L', 'i', 's', 't', 'U', '6', '4'],
        NumericKind::F32 => seq!['L', 'i', 's', 't', 'F', '3', '2'],
        NumericKind::F64 => seq!['L', 'i', 's', 't', 'F', '6', '4'],
    }
}

/// The element layout of `k`.
pub open spec fn spec_descriptor(k: NumericKind) -> ElementDescriptor {
    match k {
        NumericKind::Bool => ElementDescriptor { width: 1, signed: false, float: false, boolean: true },
        NumericKind::I8 => ElementDescriptor { width: 1, signed: true, float: false, boolean: false },
        NumericKind::I16 => ElementDescriptor { width: 2, signed: true, float: false, boolean: false },
        NumericKind::I32 => ElementDescriptor { width: 4, signed: true, float: false, boolean: false },
        NumericKind::I64 => ElementDescriptor { width: 8, signed: true, float: false, boolean: false },
        NumericKind::U8 => ElementDescriptor { width: 1, signed: false, float: false, boolean: false },
        NumericKind::U16 => ElementDescriptor { width: 2, signed: false, float: false, boolean: false },
        NumericKind::U32 => ElementDescriptor { width: 4, signed: false, float: false, boolean: false },
        NumericKind::U64 => ElementDescriptor { width: 8, signed: false, float: false, boolean: false },
        NumericKind::F32 => ElementDescriptor { width: 4, signed: true, float: true, boolean: false },
        NumericKind::F64 => ElementDescriptor { width: 8, signed: true, float: true, boolean: false },
    }
}

/// The kind whose primitive type name is `name`, if any.
pub open spec fn spec_kind_of_name(name: Seq<char>) -> Option<NumericKind> {
    if exists|k: NumericKind| spec_type_name(k) == name {
        Some(choose|k: NumericKind| spec_type_name(k) == name)
    } else {
        None
    }
}

/// Every kind has one descriptor and one container name, and no two kinds
/// share either, nor a type name.
pub proof fn lemma_table_injective(a: NumericKind, b: NumericKind)
    ensures
        spec_descriptor(a) == spec_descriptor(b) ==> a == b,
        spec_container_name(a) == spec_container_name(b) ==> a == b,
        spec_type_name(a) == spec_type_name(b) ==> a == b,
{
    if a != b {
        assert(spec_descriptor(a) != spec_descriptor(b));
        let (ca, cb) = (spec_container_name(a), spec_container_name(b));
        assert(ca.len() != cb.len() || ca[4] != cb[4] || ca[5] != cb[5]);
        let (ta, tb) = (spec_type_name(a), spec_type_name(b));
        assert(ta.len() != tb.len() || ta[0] != tb[0] || ta[1] != tb[1]);
    }
}

/// The kind whose primitive type name is `name`, or `None` where `name`
/// is not one of the eleven.
pub fn kind_from_type_name(name: &str) -> (r: Option<NumericKind>)
    ensures
        r == spec_kind_of_name(name@),
{
    let table: [(&str, NumericKind); 11] = [
        ("bool", NumericKind::Bool),
        ("i8", NumericKind::I8),
        ("i16", NumericKind::I16),
        ("i32", NumericKind::I32),
        ("i64", NumericKind::I64),
        ("u8", NumericKind::U8),
        ("u16", NumericKind::U16),
        ("u32", NumericKind::U32),
        ("u64", NumericKind::U64),
        ("f32", NumericKind::F32),
        ("f64", NumericKind::F64),
    ];
    proof {
        reveal_strlit("bool");
        reveal_strlit("i8");
        reveal_strlit("i16");
        reveal_strlit("i32");
        reveal_strlit("i64");
        reveal_strlit("u8");
        reveal_strlit("u16");
        reveal_strlit("u32");
        reveal_strlit("u64");
        reveal_strlit("f32");
        reveal_strlit("f64");
    }
    assert(forall|j: int| 0 <= j < 11 ==> #[trigger] table@[j].0@ == spec_type_name(table@[j].1));
    let mut i: usize = 0;
    while i < 11
        invariant
            0 <= i <= 11,
            forall|j: int| 0 <= j < 11 ==> #[trigger] table@[j].0@ == spec_type_name(table@[j].1),
            forall|j: int| 0 <= j < i ==> #[trigger] table@[j].0@ != name@,
        decreases 11 - i,
    {
        if same_text(table[i].0, name) {
            let k = table[i].1;
            proof {
                assert(table@[i as int].0@ == spec_type_name(k));
                assert(spec_type_name(k) == name@);
                let c = choose|c: NumericKind| spec_type_name(c) == name@;
                lemma_table_injective(c, k);
            }
            return Some(k);
        }
        i = i + 1;
    }
    proof {
        assert forall|k: NumericKind| #[trigger] spec_type_name(k) != name@ by {
            match k {
                NumericKind::Bool => assert(table@[0].0@ != name@),
                NumericKind::I8 => assert(table@[1].0@ != name@),
                NumericKind::I16 => assert(table@[2].0@ != name@),
                NumericKind::I32 => assert(table@[3].0@ != name@),
                NumericKind::I64 => assert(table@[4].0@ != name@),
                NumericKind::U8 => assert(table@[5].0@ != name@),
                NumericKind::U16 => assert(table@[6].0@ != name@),
                NumericKind::U32 => assert(table@[7].0@ != name@),
                NumericKind::U64 => assert(table@[8].0@ != name@),
                NumericKind::F32 => assert(table@[9].0@ != name@),
                NumericKind::F64 => assert(table@[10].0@ != name@),
            }
        }
    }
    None
}

/// The primitive type name that denotes `k`.
pub fn primitive_name(k: NumericKind) -> (r: &'static str)
    ensures
        r@ == spec_type_name(k),
{
    match k {
        NumericKind::Bool => {
            proof { reveal_strlit("bool"); }
            "bool"
        },
        NumericKind::I8 => {
            proof { reveal_strlit("i8"); }
            "i8"
        },
        NumericKind::I16 => {
            proof { reveal_strlit("i16"); }
            "i16"
        },
        NumericKind::I32 => {
            proof { reveal_strlit("i32"); }
            "i32"
        },
        NumericKind::I64 => {
            proof { reveal_strlit("i64"); }
            "i64"
        },
        NumericKind::U8 => {
            proof { reveal_strlit("u8"); }
            "u8"
        },
        NumericKind::U16 => {
            proof { reveal_strlit("u16"); }
            "u16"
        },
        NumericKind::U32 => {
            proof { reveal_strlit("u32"); }
            "u32"
        },
        NumericKind::U64 => {
            proof { reveal_strlit("u64"); }
            "u64"
        },
        NumericKind::F32 => {
            proof { reveal_strlit("f32"); }
            "f32"
        },
        NumericKind::F64 => {
            proof { reveal_strlit("f64"); }
            "f64"
        },
    }
}

/// The name of the container type for elements of `k`.
pub fn container_name(k: NumericKind) -> (r: &'static str)
    ensures
        r@ == spec_container_name(k),
{
    match k {
        NumericKind::Bool => {
            proof { reveal_strlit("ListBool"); }
            "ListBool"
        },
        NumericKind::I8 => {
            proof { reveal_strlit("ListI8"); }
            "ListI8"
        },
        NumericKind::I16 => {
            proof { reveal_strlit("ListI16"); }
            "ListI16"
        },
        NumericKind::I32 => {
            proof { reveal_strlit("ListI32"); }
            "ListI32"
        },
        NumericKind::I64 => {
            proof { reveal_strlit("ListI64"); }
            "ListI64"
        },
        NumericKind::U8 => {
            proof { reveal_strlit("ListU8"); }
            "ListU8"
        },
        NumericKind::U16 => {
            proof { reveal_strlit("ListU16"); }
            "ListU16"
        },
        NumericKind::U32 => {
            proof { reveal_strlit("ListU32"); }
            "ListU32"
        },
        NumericKind::U64 => {
            proof { reveal_strlit("ListU64"); }
            "ListU64"
        },
        NumericKind::F32 => {
            proof { reveal_strlit("ListF32"); }
            "ListF32"
        },
        NumericKind::F64 => {
            proof { reveal_strlit("ListF64"); }
            "ListF64"
        },
    }
}

/// The element layout of `k`, which the host array type is built from.
pub fn element_descriptor(k: NumericKind) -> (r: ElementDescriptor)
    ensures
        r == spec_descriptor(k),
{
    match k {
        NumericKind::Bool => ElementDescriptor { width: 1, signed: false, float: false, boolean: true },
        NumericKind::I8 => ElementDescriptor { width: 1, signed: true, float: false, boolean: false },
        NumericKind::I16 => ElementDescriptor { width: 2, signed: true, float: false, boolean: false },
        NumericKind::I32 => ElementDescriptor { width: 4, signed: true, float: false, boolean: false },
        NumericKind::I64 => ElementDescriptor { width: 8, signed: true, float: false, boolean: false },
        NumericKind::U8 => ElementDescriptor { width: 1, signed: false, float: false, boolean: false },
        NumericKind::U16 => ElementDescriptor { width: 2, signed: false, float: false, boolean: false },
        NumericKind::U32 => ElementDescriptor { width: 4, signed: false, float: false, boolean: false },
        NumericKind::U64 => ElementDescriptor { width: 8, signed: false, float: false, boolean: false },
        NumericKind::F32 => ElementDescriptor { width: 4, signed: true, float: true, boolean: false },
        NumericKind::F64 => ElementDescriptor { width: 8, signed: true, float: true, boolean: false },
    }
}

} // verus!
