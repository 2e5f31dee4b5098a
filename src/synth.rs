//! Binding synthesis: which constructor, accessors, variant factories and
//! buffer operations a type definition gets in the host language.
//!
//! The result is a plan that refers to fields and variants by their index in
//! the definition; rendering it as code is left to the caller.
use vstd::prelude::*;
use vstd::string::*;
use crate::descriptor::{
    BufferElement, Data, FieldDef, Fields, TypeDef, VariantDef, buffer_element_of,
    spec_buffer_element,
};
use crate::error::Error;
use crate::naming::{snake_of, to_snake_case};
use crate::numeric::NumericKind;

verus! {

/// The parameters of a variant factory.
#[derive(Debug, Clone, Copy, PartialEq, Eq, Structural)]
pub enum FactoryShape {
    /// No argument: the variant carries nothing.
    NoArg,
    /// One argument, moved into the variant's single payload.
    OneArg,
}

/// A factory method that builds one variant.
#[derive(Debug)]
pub struct Factory {
    /// Index of the variant in the enum's declaration.
    pub variant: usize,
    pub method_name: String,
    pub shape: FactoryShape,
}

/// The binding surface of a struct.
#[derive(Debug)]
pub struct StructBindings {
    /// The constructor's parameters: indices of the named fields, in
    /// declaration order.
    pub constructor: Vec<usize>,
    /// Fields that get a plain getter and setter: those without buffer
    /// operations.
    pub plain_accessors: Vec<usize>,
}

/// The binding surface of one type definition.
#[derive(Debug)]
pub enum Bindings {
    Struct(StructBindings),
    /// An enum whose variants all carry nothing: one no-argument factory
    /// per variant.
    SimpleEnum(Vec<Factory>),
    /// An enum with at least one variant that carries data.
    OneofEnum(Vec<Factory>),
}

/// The zero-copy exchange method of one buffer field.
#[derive(Debug)]
pub struct ZeroCopyReplace {
    /// Index of the field in the struct's declaration.
    pub field: usize,
    pub element: BufferElement,
    pub method_name: String,
}

/// The get / set / take / replace accessors of one numeric sequence field,
/// which exchange the field's contents as a container.
#[derive(Debug)]
pub struct BufferQuartet {
    /// Index of the field in the struct's declaration.
    pub field: usize,
    pub kind: NumericKind,
    pub get_name: String,
    pub set_name: String,
    pub take_name: String,
    pub replace_name: String,
}

/// A factory as plain values: variant index, method name, shape.
pub open spec fn factory_view(f: Factory) -> (int, Seq<char>, FactoryShape) {
    (f.variant as int, f.method_name@, f.shape)
}

pub open spec fn factories_view(fs: Seq<Factory>) -> Seq<(int, Seq<char>, FactoryShape)> {
    fs.map_values(|f: Factory| factory_view(f))
}

/// Whether some variant carries data.
pub open spec fn spec_has_payload(vs: Seq<VariantDef>) -> bool {
    exists|i: int| 0 <= i < vs.len() && !(#[trigger] vs[i].fields is Unit)
}

/// The factories of an enum whose variants all carry nothing.
pub open spec fn spec_simple_factories(vs: Seq<VariantDef>) -> Seq<(int, Seq<char>, FactoryShape)> {
    Seq::new(vs.len(), |i: int| (i, snake_of(vs[i].name@), FactoryShape::NoArg))
}

/// The factory shape of a variant of an enum that carries data; named-field
/// variants and tuple variants of other than one field get none.
pub open spec fn spec_oneof_shape(f: Fields) -> Option<FactoryShape> {
    match f {
        Fields::Unit => Some(FactoryShape::NoArg),
        Fields::Unnamed(ts) => if ts@.len() == 1 {
            Some(FactoryShape::OneArg)
        } else {
            None
        },
        Fields::Named(_) => None,
    }
}

/// The factories for the first `n` variants of an enum that carries data.
pub open spec fn spec_oneof_factories(vs: Seq<VariantDef>, n: int) -> Seq<(int, Seq<char>, FactoryShape)>
    decreases n,
{
    if n <= 0 {
        Seq::empty()
    } else {
        let prev = spec_oneof_factories(vs, n - 1);
        match spec_oneof_shape(vs[n - 1].fields) {
            Some(sh) => prev.push((n - 1, snake_of(vs[n - 1].name@), sh)),
            None => prev,
        }
    }
}

/// The factories that an enum with variants `vs` gets.
pub open spec fn spec_enum_bindings(vs: Seq<VariantDef>, b: Bindings) -> bool {
    if spec_has_payload(vs) {
        b matches Bindings::OneofEnum(fs) && factories_view(fs@) == spec_oneof_factories(
            vs,
            vs.len() as int,
        )
    } else {
        b matches Bindings::SimpleEnum(fs) && factories_view(fs@) == spec_simple_factories(vs)
    }
}

/// Indices of the first `n` fields that get no buffer operations.
pub open spec fn spec_plain_fields(fs: Seq<FieldDef>, n: int) -> Seq<usize>
    decreases n,
{
    if n <= 0 {
        Seq::empty()
    } else {
        let prev = spec_plain_fields(fs, n - 1);
        if spec_buffer_element(fs[n - 1].ty) is None {
            prev.push((n - 1) as usize)
        } else {
            prev
        }
    }
}

/// The named fields of `f`, or none for a tuple or unit struct.
pub open spec fn spec_named(f: Fields) -> Seq<FieldDef> {
    match f {
        Fields::Named(fs) => fs@,
        _ => Seq::empty(),
    }
}

/// The bindings of a struct with fields `f`.
pub open spec fn spec_struct_bindings(f: Fields, b: StructBindings) -> bool {
    let fs = spec_named(f);
    &&& b.constructor@ == Seq::new(fs.len(), |i: int| i as usize)
    &&& b.plain_accessors@ == spec_plain_fields(fs, fs.len() as int)
}

/// A zero-copy method as plain values: field index, layout, method name.
pub open spec fn zero_copy_view(z: ZeroCopyReplace) -> (int, BufferElement, Seq<char>) {
    (z.field as int, z.element, z.method_name@)
}

/// The zero-copy methods for the first `n` fields.
pub open spec fn spec_zero_copy(fs: Seq<FieldDef>, n: int) -> Seq<(int, BufferElement, Seq<char>)>
    decreases n,
{
    if n <= 0 {
        Seq::empty()
    } else {
        let prev = spec_zero_copy(fs, n - 1);
        match spec_buffer_element(fs[n - 1].ty) {
            Some(e) => prev.push((n - 1, e, seq!['r', 'e', 'p', 'l', 'a', 'c', 'e', '_'] + fs[n - 1].name@)),
            None => prev,
        }
    }
}

/// An accessor quartet as plain values: field index, kind, and the get,
/// set, take and replace method names.
pub open spec fn quartet_view(q: BufferQuartet) -> (int, NumericKind, Seq<char>, Seq<char>, Seq<char>, Seq<char>) {
    (q.field as int, q.kind, q.get_name@, q.set_name@, q.take_name@, q.replace_name@)
}

/// The accessor quartets for the first `n` fields: one for each field that
/// holds a flat numeric sequence.
pub open spec fn spec_quartets(fs: Seq<FieldDef>, n: int) -> Seq<(int, NumericKind, Seq<char>, Seq<char>, Seq<char>, Seq<char>)>
    decreases n,
{
    if n <= 0 {
        Seq::empty()
    } else {
        let prev = spec_quartets(fs, n - 1);
        let name = fs[n - 1].name@;
        match spec_buffer_element(fs[n - 1].ty) {
            Some(BufferElement::Flat(k)) => prev.push((
                n - 1,
                k,
                seq!['G', 'e', 't', '_'] + name,
                seq!['S', 'e', 't', '_'] + name,
                seq!['T', 'a', 'k', 'e', '_'] + name,
                seq!['R', 'e', 'p', 'l', 'a', 'c', 'e', '_'] + name,
            )),
            _ => prev,
        }
    }
}

/// `prefix` followed by `name`.
fn prefixed(prefix: &str, name: &String) -> (r: String)
    ensures
        r@ == prefix@ + name@,
{
    let mut r = String::from_str(prefix);
    r.append(name.as_str());
    r
}

/// One no-argument factory per variant, named by the variant's snake_case
/// form, in declaration order.
pub fn generate_simple_enum_impl(variants: &Vec<VariantDef>) -> (r: Vec<Factory>)
    ensures
        factories_view(r@) == spec_simple_factories(variants@),
{
    let mut r: Vec<Factory> = Vec::new();
    let mut i: usize = 0;
    while i < variants.len()
        invariant
            i <= variants@.len(),
            factories_view(r@) == spec_simple_factories(variants@).subrange(0, i as int),
        decreases variants@.len() - i,
    {
        let method_name = to_snake_case(variants[i].name.as_str());
        let f = Factory { variant: i, method_name, shape: FactoryShape::NoArg };
        let ghost before = r@;
        r.push(f);
        proof {
            assert(r@ == before.push(f));
            assert(factories_view(r@) =~= factories_view(before).push(factory_view(f)));
            assert(spec_simple_factories(variants@).subrange(0, i + 1) =~= spec_simple_factories(
                variants@,
            ).subrange(0, i as int).push(factory_view(f)));
        }
        i = i + 1;
    }
    assert(spec_simple_factories(variants@).subrange(0, i as int) =~= spec_simple_factories(variants@));
    r
}

/// One factory per variant that carries nothing (no argument) or a single
/// unnamed payload (one argument), in declaration order; other variants get
/// none.
pub fn generate_oneof_enum_impl(variants: &Vec<VariantDef>) -> (r: Vec<Factory>)
    ensures
        factories_view(r@) == spec_oneof_factories(variants@, variants@.len() as int),
{
    let mut r: Vec<Factory> = Vec::new();
    let mut i: usize = 0;
    while i < variants.len()
        invariant
            i <= variants@.len(),
            factories_view(r@) == spec_oneof_factories(variants@, i as int),
        decreases variants@.len() - i,
    {
        let v = &variants[i];
        let shape = match &v.fields {
            Fields::Unit => Some(FactoryShape::NoArg),
            Fields::Unnamed(ts) => if ts.len() == 1 {
                Some(FactoryShape::OneArg)
            } else {
                None
            },
            Fields::Named(_) => None,
        };
        assert(shape == spec_oneof_shape(variants@[i as int].fields));
        match shape {
            Some(sh) => {
                let method_name = to_snake_case(v.name.as_str());
                let f = Factory { variant: i, method_name, shape: sh };
                let ghost before = r@;
                r.push(f);
                assert(factories_view(r@) =~= factories_view(before).push(factory_view(f)));
            },
            None => {},
        }
        i = i + 1;
    }
    r
}

/// Whether some variant carries data.
fn has_payload(variants: &Vec<VariantDef>) -> (r: bool)
    ensures
        r == spec_has_payload(variants@),
{
    let mut i: usize = 0;
    while i < variants.len()
        invariant
            i <= variants@.len(),
            forall|j: int| 0 <= j < i ==> (#[trigger] variants@[j].fields is Unit),
        decreases variants@.len() - i,
    {
        match &variants[i].fields {
            Fields::Unit => {},
            _ => {
                return true;
            },
        }
        i = i + 1;
    }
    false
}

/// Factories for an enum: the simple form where no variant carries data,
/// the one-of form otherwise.
pub fn generate_enum_impl(variants: &Vec<VariantDef>) -> (r: Bindings)
    ensures
        spec_enum_bindings(variants@, r),
{
    if has_payload(variants) {
        Bindings::OneofEnum(generate_oneof_enum_impl(variants))
    } else {
        Bindings::SimpleEnum(generate_simple_enum_impl(variants))
    }
}

/// The constructor takes every named field, in declaration order; every
/// field without buffer operations gets a plain getter and setter.
pub fn generate_struct_impl(fields: &Fields) -> (r: StructBindings)
    ensures
        spec_struct_bindings(*fields, r),
{
    let mut constructor: Vec<usize> = Vec::new();
    let mut plain_accessors: Vec<usize> = Vec::new();
    match fields {
        Fields::Named(fs) => {
            let mut i: usize = 0;
            while i < fs.len()
                invariant
                    i <= fs@.len(),
                    constructor@ == Seq::new(i as nat, |j: int| j as usize),
                    plain_accessors@ == spec_plain_fields(fs@, i as int),
                decreases fs@.len() - i,
            {
                constructor.push(i);
                if buffer_element_of(&fs[i].ty).is_none() {
                    plain_accessors.push(i);
                }
                assert(constructor@ =~= Seq::new((i + 1) as nat, |j: int| j as usize));
                i = i + 1;
            }
        },
        _ => {
            assert(constructor@ =~= Seq::new(0, |j: int| j as usize));
        },
    }
    StructBindings { constructor, plain_accessors }
}

/// One zero-copy exchange method, `replace_<field>`, for each field that
/// holds a numeric sequence or byte rows, in declaration order.
pub fn generate_zero_copy_impl(fields: &Fields) -> (r: Vec<ZeroCopyReplace>)
    ensures
        r@.map_values(|z: ZeroCopyReplace| zero_copy_view(z)) == spec_zero_copy(
            spec_named(*fields),
            spec_named(*fields).len() as int,
        ),
{
    let mut r: Vec<ZeroCopyReplace> = Vec::new();
    match fields {
        Fields::Named(fs) => {
            let mut i: usize = 0;
            while i < fs.len()
                invariant
                    i <= fs@.len(),
                    r@.map_values(|z: ZeroCopyReplace| zero_copy_view(z)) == spec_zero_copy(fs@, i as int),
                decreases fs@.len() - i,
            {
                let f = &fs[i];
                match buffer_element_of(&f.ty) {
                    Some(element) => {
                        proof {
                            reveal_strlit("replace_");
                            assert("replace_"@ =~= seq!['r', 'e', 'p', 'l', 'a', 'c', 'e', '_']);
                        }
                        let method_name = prefixed("replace_", &f.name);
                        let z = ZeroCopyReplace { field: i, element, method_name };
                        let ghost before = r@;
                        r.push(z);
                        assert(r@.map_values(|z: ZeroCopyReplace| zero_copy_view(z)) =~= before.map_values(
                            |z: ZeroCopyReplace| zero_copy_view(z),
                        ).push(zero_copy_view(z)));
                    },
                    None => {},
                }
                i = i + 1;
            }
        },
        _ => {
            assert(r@.map_values(|z: ZeroCopyReplace| zero_copy_view(z)) =~= Seq::empty());
        },
    }
    r
}

/// One accessor quartet, `Get_<field>`, `Set_<field>`, `Take_<field>` and
/// `Replace_<field>`, for each field that holds a flat numeric sequence, in
/// declaration order.
pub fn generate_vec_accessors_impl(fields: &Fields) -> (r: Vec<BufferQuartet>)
    ensures
        r@.map_values(|q: BufferQuartet| quartet_view(q)) == spec_quartets(
            spec_named(*fields),
            spec_named(*fields).len() as int,
        ),
{
    let mut r: Vec<BufferQuartet> = Vec::new();
    match fields {
        Fields::Named(fs) => {
            let mut i: usize = 0;
            while i < fs.len()
                invariant
                    i <= fs@.len(),
                    r@.map_values(|q: BufferQuartet| quartet_view(q)) == spec_quartets(fs@, i as int),
                decreases fs@.len() - i,
            {
                let f = &fs[i];
                match buffer_element_of(&f.ty) {
                    Some(BufferElement::Flat(kind)) => {
                        proof {
                            reveal_strlit("Get_");
                            reveal_strlit("Set_");
                            reveal_strlit("Take_");
                            reveal_strlit("Replace_");
                            assert("Get_"@ =~= seq!['G', 'e', 't', '_']);
                            assert("Set_"@ =~= seq!['S', 'e', 't', '_']);
                            assert("Take_"@ =~= seq!['T', 'a', 'k', 'e', '_']);
                            assert("Replace_"@ =~= seq!['R', 'e', 'p', 'l', 'a', 'c', 'e', '_']);
                        }
                        let q = BufferQuartet {
                            field: i,
                            kind,
                            get_name: prefixed("Get_", &f.name),
                            set_name: prefixed("Set_", &f.name),
                            take_name: prefixed("Take_", &f.name),
                            replace_name: prefixed("Replace_", &f.name),
                        };
                        let ghost before = r@;
                        r.push(q);
                        assert(r@.map_values(|q: BufferQuartet| quartet_view(q)) =~= before.map_values(
                            |q: BufferQuartet| quartet_view(q),
                        ).push(quartet_view(q)));
                    },
                    _ => {},
                }
                i = i + 1;
            }
        },
        _ => {
            assert(r@.map_values(|q: BufferQuartet| quartet_view(q)) =~= Seq::empty());
        },
    }
    r
}

/// The bindings that `def` gets, or a descriptor-invalid failure where its
/// shape has no binding strategy (a union).
pub open spec fn spec_bindings_for(def: TypeDef, r: Result<Bindings, Error>) -> bool {
    match def.data {
        Data::Struct(f) => r matches Ok(Bindings::Struct(b)) && spec_struct_bindings(f, b),
        Data::Enum(vs) => r matches Ok(b) && spec_enum_bindings(vs@, b),
        Data::Union => r matches Err(Error::DescriptorInvalid(_)),
    }
}

/// The constructor and accessors of a struct, or the variant factories of an
/// enum; a union is rejected.
pub fn triton_pyclass_derive(def: &TypeDef) -> (r: Result<Bindings, Error>)
    ensures
        spec_bindings_for(*def, r),
{
    match &def.data {
        Data::Struct(fields) => Ok(Bindings::Struct(generate_struct_impl(fields))),
        Data::Enum(variants) => Ok(generate_enum_impl(variants)),
        Data::Union => Err(Error::DescriptorInvalid(prefixed("union types are not supported: ", &def.name))),
    }
}

/// The zero-copy exchange methods of a struct; other shapes get none.
pub fn impl_py_zero_copy(def: &TypeDef) -> (r: Vec<ZeroCopyReplace>)
    ensures
        r@.map_values(|z: ZeroCopyReplace| zero_copy_view(z)) == match def.data {
            Data::Struct(f) => spec_zero_copy(spec_named(f), spec_named(f).len() as int),
            _ => Seq::empty(),
        },
{
    match &def.data {
        Data::Struct(fields) => generate_zero_copy_impl(fields),
        _ => {
            let r: Vec<ZeroCopyReplace> = Vec::new();
            assert(r@.map_values(|z: ZeroCopyReplace| zero_copy_view(z)) =~= Seq::empty());
            r
        },
    }
}

/// The accessor quartets of a struct; other shapes get none.
pub fn impl_py_vec_accessors(def: &TypeDef) -> (r: Vec<BufferQuartet>)
    ensures
        r@.map_values(|q: BufferQuartet| quartet_view(q)) == match def.data {
            Data::Struct(f) => spec_quartets(spec_named(f), spec_named(f).len() as int),
            _ => Seq::empty(),
        },
{
    match &def.data {
        Data::Struct(fields) => generate_vec_accessors_impl(fields),
        _ => {
            let r: Vec<BufferQuartet> = Vec::new();
            assert(r@.map_values(|q: BufferQuartet| quartet_view(q)) =~= Seq::empty());
            r
        },
    }
}

} // verus!
