use maf_core::maf_typed::TypeScriptCodegen;
use maf_core::schemas::typed::{
    find_some_variant, float_numeric_type, integer_numeric_type, is_supported_shape, AppSchema,
    FieldShape, NumericType, PrimitiveType, RecordType, ShapeModel, StoreSerialized, StructKind,
    TupleType, TypeKind, VariantShape,
};

fn opaque(identifier: &str, type_params: Vec<ShapeModel>) -> ShapeModel {
    ShapeModel::Opaque { identifier: identifier.to_string(), type_params }
}

fn string_shape() -> ShapeModel {
    opaque("String", vec![])
}

fn field(name: &str, shape: ShapeModel) -> FieldShape {
    FieldShape { name: name.to_string(), shape }
}

fn option_enum(inner: ShapeModel) -> ShapeModel {
    ShapeModel::Enum {
        identifier: "Option".to_string(),
        variants: vec![
            VariantShape { name: "None".to_string(), fields: vec![] },
            VariantShape { name: "Some".to_string(), fields: vec![inner] },
        ],
    }
}

fn person_shape() -> ShapeModel {
    ShapeModel::Struct {
        kind: StructKind::Struct,
        fields: vec![
            field("name", string_shape()),
            field("age", ShapeModel::Integer { signed: false, size: Some(4) }),
        ],
    }
}

fn person_kind() -> TypeKind {
    TypeKind::Record(Box::new(RecordType {
        fields: vec![
            ("name".to_string(), TypeKind::Primitive(PrimitiveType::String)),
            (
                "age".to_string(),
                TypeKind::Primitive(PrimitiveType::Numeric(NumericType::U32)),
            ),
        ],
    }))
}

#[test]
fn serialize_primitive_types() {
    assert_eq!(
        TypeKind::from_shape(&ShapeModel::Integer { signed: false, size: Some(1) }),
        TypeKind::Primitive(PrimitiveType::Numeric(NumericType::U8))
    );
    assert_eq!(
        TypeKind::from_shape(&ShapeModel::Integer { signed: true, size: Some(4) }),
        TypeKind::Primitive(PrimitiveType::Numeric(NumericType::I32))
    );
    assert_eq!(
        TypeKind::from_shape(&ShapeModel::Float { size: Some(8) }),
        TypeKind::Primitive(PrimitiveType::Numeric(NumericType::F64))
    );
    assert_eq!(
        TypeKind::from_shape(&ShapeModel::Boolean),
        TypeKind::Primitive(PrimitiveType::Bool)
    );
    assert_eq!(
        TypeKind::from_shape(&ShapeModel::Char),
        TypeKind::Primitive(PrimitiveType::Char)
    );
    assert_eq!(
        TypeKind::from_shape(&ShapeModel::Str),
        TypeKind::Primitive(PrimitiveType::String)
    );
    assert_eq!(
        TypeKind::from_shape(&string_shape()),
        TypeKind::Primitive(PrimitiveType::String)
    );
}

#[test]
fn serialize_record_types() {
    assert_eq!(TypeKind::from_shape(&person_shape()), person_kind());

    let student = ShapeModel::Struct {
        kind: StructKind::Struct,
        fields: vec![field("person", person_shape()), field("student_id", string_shape())],
    };
    assert_eq!(
        TypeKind::from_shape(&student),
        TypeKind::Record(Box::new(RecordType {
            fields: vec![
                ("person".to_string(), person_kind()),
                (
                    "student_id".to_string(),
                    TypeKind::Primitive(PrimitiveType::String)
                ),
            ],
        }))
    );
}

#[test]
fn serialize_tuple_types() {
    let f64_shape = || ShapeModel::Float { size: Some(8) };
    let point = ShapeModel::Struct {
        kind: StructKind::TupleStruct,
        fields: vec![field("0", f64_shape()), field("1", f64_shape())],
    };
    let expected = || {
        TypeKind::Tuple(Box::new(TupleType {
            elements: vec![
                TypeKind::Primitive(PrimitiveType::Numeric(NumericType::F64)),
                TypeKind::Primitive(PrimitiveType::Numeric(NumericType::F64)),
            ],
        }))
    };
    assert_eq!(TypeKind::from_shape(&point), expected());

    let pair = ShapeModel::Struct {
        kind: StructKind::Tuple,
        fields: vec![field("0", f64_shape()), field("1", f64_shape())],
    };
    assert_eq!(TypeKind::from_shape(&pair), expected());
}

#[test]
fn serialize_options() {
    assert_eq!(
        TypeKind::from_shape(&option_enum(string_shape())),
        TypeKind::Nullable(Box::new(TypeKind::Primitive(PrimitiveType::String)))
    );

    assert_eq!(
        TypeKind::from_shape(&option_enum(ShapeModel::Integer { signed: true, size: Some(4) })),
        TypeKind::Nullable(Box::new(TypeKind::Primitive(PrimitiveType::Numeric(
            NumericType::I32
        ))))
    );

    // Null-pointer optimized options hold a reference.
    assert_eq!(
        TypeKind::from_shape(&option_enum(ShapeModel::Reference(Box::new(string_shape())))),
        TypeKind::Nullable(Box::new(TypeKind::Primitive(PrimitiveType::String)))
    );
}

#[test]
fn opaque_option_and_unit_shapes() {
    assert_eq!(
        TypeKind::from_shape(&opaque("Option", vec![ShapeModel::Boolean])),
        TypeKind::Nullable(Box::new(TypeKind::Primitive(PrimitiveType::Bool)))
    );
    assert_eq!(
        TypeKind::from_shape(&opaque("()", vec![])),
        TypeKind::Primitive(PrimitiveType::Unit)
    );
}

#[test]
fn every_integer_and_float_size() {
    let signed = [
        (1, NumericType::I8),
        (2, NumericType::I16),
        (4, NumericType::I32),
        (8, NumericType::I64),
        (16, NumericType::I128),
    ];
    for (size, expected) in signed {
        assert_eq!(integer_numeric_type(true, size), Some(expected));
    }
    let unsigned = [
        (1, NumericType::U8),
        (2, NumericType::U16),
        (4, NumericType::U32),
        (8, NumericType::U64),
        (16, NumericType::U128),
    ];
    for (size, expected) in unsigned {
        assert_eq!(integer_numeric_type(false, size), Some(expected));
    }
    assert_eq!(integer_numeric_type(false, 3), None);
    assert_eq!(float_numeric_type(4), Some(NumericType::F32));
    assert_eq!(float_numeric_type(8), Some(NumericType::F64));
    assert_eq!(float_numeric_type(2), None);
}

#[test]
fn unsupported_shapes_are_recognised() {
    assert!(is_supported_shape(&person_shape()));
    assert!(!is_supported_shape(&ShapeModel::Other));
    assert!(!is_supported_shape(&ShapeModel::Integer { signed: true, size: None }));
    assert!(!is_supported_shape(&ShapeModel::Integer { signed: true, size: Some(3) }));
    assert!(!is_supported_shape(&ShapeModel::Float { size: Some(2) }));
    assert!(!is_supported_shape(&opaque("HashMap", vec![])));
    assert!(!is_supported_shape(&opaque("Option", vec![])));
    assert!(!is_supported_shape(&ShapeModel::Struct {
        kind: StructKind::Unit,
        fields: vec![]
    }));
    assert!(!is_supported_shape(&ShapeModel::Struct {
        kind: StructKind::Struct,
        fields: vec![field("bad", ShapeModel::Other)],
    }));
    let not_option = ShapeModel::Enum {
        identifier: "Result".to_string(),
        variants: vec![VariantShape { name: "Some".to_string(), fields: vec![ShapeModel::Char] }],
    };
    assert!(!is_supported_shape(&not_option));
}

#[test]
fn the_first_some_variant_is_found() {
    let variants = vec![
        VariantShape { name: "None".to_string(), fields: vec![] },
        VariantShape { name: "Some".to_string(), fields: vec![ShapeModel::Char] },
        VariantShape { name: "Some".to_string(), fields: vec![ShapeModel::Boolean] },
    ];
    assert_eq!(find_some_variant(&variants), Some(1));
    assert_eq!(find_some_variant(&Vec::new()), None);
}

#[test]
fn typescript_output_is_empty_for_now() {
    let codegen = TypeScriptCodegen {
        schema: AppSchema {
            rpcs: vec![],
            stores: vec![StoreSerialized {
                name: "Pomodoro".to_string(),
                select: TypeKind::Record(Box::new(RecordType {
                    fields: vec![
                        ("phase".to_string(), TypeKind::Primitive(PrimitiveType::String)),
                        (
                            "count".to_string(),
                            TypeKind::Primitive(PrimitiveType::Numeric(NumericType::U32)),
                        ),
                        ("auto".to_string(), TypeKind::Primitive(PrimitiveType::Bool)),
                    ],
                })),
            }],
        },
    };
    assert_eq!(codegen.emit(), "");
}
