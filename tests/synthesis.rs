use triton_client::descriptor::{
    BufferElement, Data, FieldDef, Fields, GenericArg, PathSegment, TypeDef, TypeExpr, VariantDef,
};
use triton_client::error::Error;
use triton_client::numeric::NumericKind;
use triton_client::synth::{
    generate_enum_impl, impl_py_vec_accessors, impl_py_zero_copy, triton_pyclass_derive, Bindings,
    Factory, FactoryShape,
};

fn ty(name: &str, args: Vec<TypeExpr>) -> TypeExpr {
    TypeExpr::Path(vec![PathSegment {
        ident: name.to_string(),
        args: args.into_iter().map(GenericArg::Type).collect(),
    }])
}

fn field(name: &str, t: TypeExpr) -> FieldDef {
    FieldDef { name: name.to_string(), ty: t }
}

fn variant(name: &str, fields: Fields) -> VariantDef {
    VariantDef { name: name.to_string(), fields }
}

fn tensor_contents() -> TypeDef {
    TypeDef {
        name: "TensorContents".to_string(),
        data: Data::Struct(Fields::Named(vec![
            field("name", ty("String", vec![])),
            field("values", ty("Vec", vec![ty("f32", vec![])])),
            field("bytes_contents", ty("Vec", vec![ty("Vec", vec![ty("u8", vec![])])])),
            field("shape", ty("Vec", vec![ty("i64", vec![])])),
            field("tags", ty("Vec", vec![ty("String", vec![])])),
        ])),
    }
}

fn summary(fs: &[Factory]) -> Vec<(usize, String, FactoryShape)> {
    fs.iter().map(|f| (f.variant, f.method_name.clone(), f.shape)).collect()
}

#[test]
fn struct_constructor_and_plain_accessors() {
    match triton_pyclass_derive(&tensor_contents()) {
        Ok(Bindings::Struct(b)) => {
            assert_eq!(b.constructor, vec![0, 1, 2, 3, 4]);
            assert_eq!(b.plain_accessors, vec![0, 4]);
        }
        other => panic!("unexpected {:?}", other),
    }
}

#[test]
fn tuple_struct_gets_empty_constructor() {
    let def = TypeDef {
        name: "Wrapper".to_string(),
        data: Data::Struct(Fields::Unnamed(vec![ty("u8", vec![])])),
    };
    match triton_pyclass_derive(&def) {
        Ok(Bindings::Struct(b)) => {
            assert!(b.constructor.is_empty());
            assert!(b.plain_accessors.is_empty());
        }
        other => panic!("unexpected {:?}", other),
    }
}

#[test]
fn union_is_rejected() {
    let def = TypeDef { name: "Raw".to_string(), data: Data::Union };
    assert!(matches!(triton_pyclass_derive(&def), Err(Error::DescriptorInvalid(_))));
}

#[test]
fn simple_enum_factories() {
    let def = TypeDef {
        name: "DataType".to_string(),
        data: Data::Enum(vec![
            variant("TypeInvalid", Fields::Unit),
            variant("TypeInt32", Fields::Unit),
            variant("TypeFp32", Fields::Unit),
        ]),
    };
    match triton_pyclass_derive(&def) {
        Ok(Bindings::SimpleEnum(fs)) => assert_eq!(
            summary(&fs),
            vec![
                (0, "type_invalid".to_string(), FactoryShape::NoArg),
                (1, "type_int32".to_string(), FactoryShape::NoArg),
                (2, "type_fp32".to_string(), FactoryShape::NoArg),
            ]
        ),
        other => panic!("unexpected {:?}", other),
    }
}

#[test]
fn mixed_enum_skips_named_variant() {
    let variants = vec![
        variant("Empty", Fields::Unit),
        variant("Count", Fields::Unnamed(vec![ty("i64", vec![])])),
        variant(
            "Pair",
            Fields::Named(vec![field("x", ty("i64", vec![])), field("y", ty("i64", vec![]))]),
        ),
    ];
    match generate_enum_impl(&variants) {
        Bindings::OneofEnum(fs) => assert_eq!(
            summary(&fs),
            vec![
                (0, "empty".to_string(), FactoryShape::NoArg),
                (1, "count".to_string(), FactoryShape::OneArg),
            ]
        ),
        other => panic!("unexpected {:?}", other),
    }
}

#[test]
fn mixed_enum_skips_multi_field_tuple_variant() {
    let variants = vec![
        variant("Two", Fields::Unnamed(vec![ty("i64", vec![]), ty("i64", vec![])])),
        variant("BoolParam", Fields::Unnamed(vec![ty("bool", vec![])])),
    ];
    match generate_enum_impl(&variants) {
        Bindings::OneofEnum(fs) => {
            assert_eq!(summary(&fs), vec![(1, "bool_param".to_string(), FactoryShape::OneArg)])
        }
        other => panic!("unexpected {:?}", other),
    }
}

#[test]
fn empty_enum_is_simple() {
    let def = TypeDef { name: "Nothing".to_string(), data: Data::Enum(vec![]) };
    match triton_pyclass_derive(&def) {
        Ok(Bindings::SimpleEnum(fs)) => assert!(fs.is_empty()),
        other => panic!("unexpected {:?}", other),
    }
}

#[test]
fn zero_copy_methods_for_buffer_fields() {
    let zs = impl_py_zero_copy(&tensor_contents());
    let got: Vec<(usize, BufferElement, String)> =
        zs.iter().map(|z| (z.field, z.element, z.method_name.clone())).collect();
    assert_eq!(
        got,
        vec![
            (1, BufferElement::Flat(NumericKind::F32), "replace_values".to_string()),
            (2, BufferElement::Rows, "replace_bytes_contents".to_string()),
            (3, BufferElement::Flat(NumericKind::I64), "replace_shape".to_string()),
        ]
    );
}

#[test]
fn accessor_quartets_for_flat_numeric_fields() {
    let qs = impl_py_vec_accessors(&tensor_contents());
    assert_eq!(qs.len(), 2);
    assert_eq!((qs[0].field, qs[0].kind), (1, NumericKind::F32));
    assert_eq!(qs[0].get_name, "Get_values");
    assert_eq!(qs[0].set_name, "Set_values");
    assert_eq!(qs[0].take_name, "Take_values");
    assert_eq!(qs[0].replace_name, "Replace_values");
    assert_eq!((qs[1].field, qs[1].kind), (3, NumericKind::I64));
    assert_eq!(qs[1].get_name, "Get_shape");
}

#[test]
fn enums_get_no_buffer_operations() {
    let def = TypeDef {
        name: "Choice".to_string(),
        data: Data::Enum(vec![variant("A", Fields::Unnamed(vec![ty("Vec", vec![ty("u8", vec![])])]))]),
    };
    assert!(impl_py_zero_copy(&def).is_empty());
    assert!(impl_py_vec_accessors(&def).is_empty());
}
