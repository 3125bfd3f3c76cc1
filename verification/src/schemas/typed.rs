//! A high-level description of the types that a MAF app exposes (store selections, RPC parameters
//! and results), and its derivation from the reflected shape of a Rust type.
//!
//! The reflected shape of a type is described by [`ShapeModel`], which holds as plain values what
//! the derivation reads of a reflected shape: the primitive kind and size, the type identifier and
//! type parameters of opaque types, the variants of enums, the fields of structs and the target of
//! references.

use vstd::prelude::*;
use crate::text::str_eq;

verus! {

broadcast use vstd::std_specs::vec::group_vec_axioms;

/// The schema of an app: its stores and RPC methods.
#[derive(Debug, PartialEq, Eq)]
pub struct AppSchema {
    pub stores: Vec<StoreSerialized>,
    pub rpcs: Vec<RpcSerialized>,
}

/// A store and the type of its selection.
#[derive(Debug, PartialEq, Eq)]
pub struct StoreSerialized {
    pub name: String,
    pub select: TypeKind,
}

/// An RPC method with the types of its parameters and result.
#[derive(Debug, PartialEq, Eq)]
pub struct RpcSerialized {
    pub name: String,
    pub params: Option<TypeKind>,
    pub result: Option<TypeKind>,
}

/// A high-level representation of types commonly used in programming languages.
#[derive(Debug, PartialEq, Eq)]
pub enum TypeKind {
    /// Numeric, boolean, character, string, etc.
    Primitive(PrimitiveType),
    /// Option<T> / `_ | null` types.
    Nullable(Box<TypeKind>),
    /// Record types, similar to structs or objects.
    Record(Box<RecordType>),
    /// A fixed-length array type.
    Tuple(Box<TupleType>),
}

#[derive(Debug, PartialEq, Eq)]
pub enum PrimitiveType {
    Numeric(NumericType),
    Bool,
    Char,
    String,
    Unit,
}

#[derive(Debug, PartialEq, Eq)]
pub struct RecordType {
    pub fields: Vec<(String, TypeKind)>,
}

#[derive(Debug, PartialEq, Eq)]
pub struct MapType {
    pub key: TypeKind,
    pub value: TypeKind,
}

#[derive(Debug, Clone, Copy, PartialEq, Eq)]
pub enum NumericType {
    I8,
    I16,
    I32,
    I64,
    I128,
    U8,
    U16,
    U32,
    U64,
    U128,
    F32,
    F64,
}

#[derive(Debug, PartialEq, Eq)]
pub struct TupleType {
    pub elements: Vec<TypeKind>,
}

/// The kind of a reflected struct.
#[derive(Debug, Clone, Copy, PartialEq, Eq)]
pub enum StructKind {
    /// `struct UnitStruct;`
    Unit,
    /// `struct TupleStruct(T0, T1);`
    TupleStruct,
    /// `struct S { foo: T0, bar: T1 }`
    Struct,
    /// `(T0, T1)`
    Tuple,
}

/// What the type derivation reads of the reflected shape of a type.
#[derive(Debug, PartialEq, Eq)]
pub enum ShapeModel {
    /// `bool`.
    Boolean,
    /// `char`.
    Char,
    /// `str`.
    Str,
    /// An integer type; `size` is the size of its layout in bytes, `None` if the layout is unsized.
    Integer { signed: bool, size: Option<usize> },
    /// A floating-point type; `size` as for integers.
    Float { size: Option<usize> },
    /// A type with unknown internal representation, such as `String` or `()`, with its type
    /// identifier and type parameters.
    Opaque { identifier: String, type_params: Vec<ShapeModel> },
    /// An enum with its type identifier and variants.
    Enum { identifier: String, variants: Vec<VariantShape> },
    /// A struct or tuple with its fields in declaration order.
    Struct { kind: StructKind, fields: Vec<FieldShape> },
    /// A reference to a value of the target shape.
    Reference(Box<ShapeModel>),
    /// Any other shape: the never type, arrays, slices, unions, raw and function pointers.
    Other,
}

/// A variant of a reflected enum: its name and the shapes of its fields.
#[derive(Debug, PartialEq, Eq)]
pub struct VariantShape {
    pub name: String,
    pub fields: Vec<ShapeModel>,
}

/// A field of a reflected struct: its name and shape.
#[derive(Debug, PartialEq, Eq)]
pub struct FieldShape {
    pub name: String,
    pub shape: ShapeModel,
}

/// The numeric type of an integer layout of `size` bytes.
pub open spec fn integer_type(signed: bool, size: usize) -> Option<NumericType> {
    if signed {
        if size == 1 {
            Some(NumericType::I8)
        } else if size == 2 {
            Some(NumericType::I16)
        } else if size == 4 {
            Some(NumericType::I32)
        } else if size == 8 {
            Some(NumericType::I64)
        } else if size == 16 {
            Some(NumericType::I128)
        } else {
            None
        }
    } else {
        if size == 1 {
            Some(NumericType::U8)
        } else if size == 2 {
            Some(NumericType::U16)
        } else if size == 4 {
            Some(NumericType::U32)
        } else if size == 8 {
            Some(NumericType::U64)
        } else if size == 16 {
            Some(NumericType::U128)
        } else {
            None
        }
    }
}

/// The numeric type of a floating-point layout of `size` bytes.
pub open spec fn float_type(size: usize) -> Option<NumericType> {
    if size == 4 {
        Some(NumericType::F32)
    } else if size == 8 {
        Some(NumericType::F64)
    } else {
        None
    }
}

/// The index of the first variant named `Some`, if there is one.
pub open spec fn some_variant_index(variants: Seq<VariantShape>) -> Option<int>
    decreases variants.len(),
{
    if variants.len() == 0 {
        None
    } else if variants.last().name@ == "Some"@ {
        match some_variant_index(variants.drop_last()) {
            Some(i) => Some(i),
            None => Some(variants.len() - 1),
        }
    } else {
        some_variant_index(variants.drop_last())
    }
}

proof fn lemma_some_variant_index(variants: Seq<VariantShape>)
    ensures
        some_variant_index(variants) matches Some(i) ==> {
            &&& 0 <= i < variants.len()
            &&& variants[i].name@ == "Some"@
            &&& forall|j: int| 0 <= j < i ==> variants[j].name@ != "Some"@
        },
        some_variant_index(variants) is None ==> forall|j: int|
            0 <= j < variants.len() ==> variants[j].name@ != "Some"@,
    decreases variants.len(),
{
    if variants.len() > 0 {
        let init = variants.drop_last();
        lemma_some_variant_index(init);
        assert forall|j: int| 0 <= j < init.len() implies init[j] == variants[j] by {}
    }
}

/// Whether the derivation handles `shape`: sized integers of 1, 2, 4, 8 or 16 bytes, sized floats
/// of 4 or 8 bytes, `bool`, `char`, `str`, the opaque `String`, `()` and `Option<T>`, the enum
/// `Option<T>` whose first `Some` variant has a field, structs with named fields, tuple structs,
/// tuples and references, where every nested shape that is read is handled too.
pub open spec fn shape_supported(shape: ShapeModel) -> bool
    decreases shape,
{
    match shape {
        ShapeModel::Boolean => true,
        ShapeModel::Char => true,
        ShapeModel::Str => true,
        ShapeModel::Integer { signed, size } => size matches Some(s) && integer_type(
            signed,
            s,
        ) is Some,
        ShapeModel::Float { size } => size matches Some(s) && float_type(s) is Some,
        ShapeModel::Opaque { identifier, type_params } => {
            ||| identifier@ == "String"@
            ||| identifier@ == "()"@
            ||| identifier@ == "Option"@ && type_params.len() > 0 && shape_supported(type_params[0])
        },
        ShapeModel::Enum { identifier, variants } => {
            &&& identifier@ == "Option"@
            &&& some_variant_index(variants@) matches Some(i) && {
                &&& 0 <= i < variants.len()
                &&& variants[i].fields.len() > 0
                &&& shape_supported(variants[i].fields[0])
            }
        },
        ShapeModel::Struct { kind, fields } => {
            &&& kind != StructKind::Unit
            &&& forall|i: int| 0 <= i < fields.len() ==> shape_supported(#[trigger] fields[i].shape)
        },
        ShapeModel::Reference(target) => shape_supported(*target),
        ShapeModel::Other => false,
    }
}

/// Whether `kind` is the type derived from the supported shape `shape`: primitives map to their
/// primitive types, `String` and `str` to strings, `()` to the unit type, `Option<T>` (opaque, or
/// an enum through the first field of its `Some` variant) to a nullable `T`, structs with named
/// fields to records with the same field names in the same order, tuple structs and tuples to
/// tuples, and references to the type of their target.
pub open spec fn derives_type(shape: ShapeModel, kind: TypeKind) -> bool
    decreases shape,
{
    match shape {
        ShapeModel::Boolean => kind == TypeKind::Primitive(PrimitiveType::Bool),
        ShapeModel::Char => kind == TypeKind::Primitive(PrimitiveType::Char),
        ShapeModel::Str => kind == TypeKind::Primitive(PrimitiveType::String),
        ShapeModel::Integer { signed, size } => size matches Some(s) && integer_type(signed, s)
            matches Some(n) && kind == TypeKind::Primitive(PrimitiveType::Numeric(n)),
        ShapeModel::Float { size } => size matches Some(s) && float_type(s) matches Some(n)
            && kind == TypeKind::Primitive(PrimitiveType::Numeric(n)),
        ShapeModel::Opaque { identifier, type_params } => {
            if identifier@ == "String"@ {
                kind == TypeKind::Primitive(PrimitiveType::String)
            } else if identifier@ == "()"@ {
                kind == TypeKind::Primitive(PrimitiveType::Unit)
            } else if identifier@ == "Option"@ && type_params.len() > 0 {
                kind matches TypeKind::Nullable(inner) && derives_type(type_params[0], *inner)
            } else {
                false
            }
        },
        ShapeModel::Enum { identifier, variants } => {
            &&& identifier@ == "Option"@
            &&& some_variant_index(variants@) matches Some(i) && {
                &&& 0 <= i < variants.len()
                &&& variants[i].fields.len() > 0
                &&& kind matches TypeKind::Nullable(inner)
                &&& derives_type(variants[i].fields[0], *inner)
            }
        },
        ShapeModel::Struct { kind: struct_kind, fields } => {
            if struct_kind == StructKind::Struct {
                &&& kind matches TypeKind::Record(record)
                &&& record.fields.len() == fields.len()
                &&& forall|i: int|
                    0 <= i < fields.len() ==> {
                        &&& (#[trigger] record.fields[i]).0@ == fields[i].name@
                        &&& derives_type(fields[i].shape, record.fields[i].1)
                    }
            } else if struct_kind == StructKind::TupleStruct || struct_kind == StructKind::Tuple {
                &&& kind matches TypeKind::Tuple(tuple)
                &&& tuple.elements.len() == fields.len()
                &&& forall|i: int|
                    0 <= i < fields.len() ==> derives_type(
                        fields[i].shape,
                        #[trigger] tuple.elements[i],
                    )
            } else {
                false
            }
        },
        ShapeModel::Reference(target) => derives_type(*target, kind),
        ShapeModel::Other => false,
    }
}

/// Every shape from which a type can be derived is reported as supported: the supported shapes
/// cover all of the derivation, so no shape it describes is refused.
pub proof fn lemma_derivable_shapes_are_supported(shape: ShapeModel, kind: TypeKind)
    requires
        derives_type(shape, kind),
    ensures
        shape_supported(shape),
    decreases shape,
{
    match shape {
        ShapeModel::Opaque { identifier, type_params } => {
            if identifier@ != "String"@ && identifier@ != "()"@ {
                let inner = kind->Nullable_0;
                lemma_derivable_shapes_are_supported(type_params[0], *inner);
            }
        },
        ShapeModel::Enum { identifier, variants } => {
            let i = some_variant_index(variants@)->0;
            let inner = kind->Nullable_0;
            lemma_derivable_shapes_are_supported(variants[i].fields[0], *inner);
        },
        ShapeModel::Struct { kind: struct_kind, fields } => {
            if struct_kind == StructKind::Struct {
                let record = kind->Record_0;
                assert forall|i: int| 0 <= i < fields.len() implies shape_supported(
                    #[trigger] fields[i].shape,
                ) by {
                    lemma_derivable_shapes_are_supported(fields[i].shape, record.fields[i].1);
                }
            } else {
                let tuple = kind->Tuple_0;
                assert forall|i: int| 0 <= i < fields.len() implies shape_supported(
                    #[trigger] fields[i].shape,
                ) by {
                    lemma_derivable_shapes_are_supported(fields[i].shape, tuple.elements[i]);
                }
            }
        },
        ShapeModel::Reference(target) => {
            lemma_derivable_shapes_are_supported(*target, kind);
        },
        _ => {},
    }
}

/// Tuple structs, tuples and structs with named fields are supported whenever all their fields
/// are, whatever supported shapes the fields have (floats among them).
pub proof fn lemma_structs_of_supported_fields_are_supported(
    kind: StructKind,
    fields: Vec<FieldShape>,
)
    requires
        kind == StructKind::TupleStruct || kind == StructKind::Tuple || kind == StructKind::Struct,
        forall|i: int| 0 <= i < fields.len() ==> shape_supported(#[trigger] fields[i].shape),
    ensures
        shape_supported(ShapeModel::Struct { kind, fields }),
{
}

/// The index of the first variant named `Some`, if there is one.
pub fn find_some_variant(variants: &Vec<VariantShape>) -> (found: Option<usize>)
    ensures
        found matches Some(i) ==> i < variants@.len() && some_variant_index(variants@) == Some(
            i as int,
        ),
        found is None ==> some_variant_index(variants@) is None,
{
    proof {
        lemma_some_variant_index(variants@);
    }
    let mut i: usize = 0;
    while i < variants.len()
        invariant
            0 <= i <= variants@.len(),
            forall|j: int| 0 <= j < i ==> variants@[j].name@ != "Some"@,
            some_variant_index(variants@) matches Some(k) ==> {
                &&& 0 <= k < variants@.len()
                &&& variants@[k].name@ == "Some"@
                &&& forall|j: int| 0 <= j < k ==> variants@[j].name@ != "Some"@
            },
            some_variant_index(variants@) is None ==> forall|j: int|
                0 <= j < variants@.len() ==> variants@[j].name@ != "Some"@,
        decreases variants@.len() - i,
    {
        if str_eq(variants[i].name.as_str(), "Some") {
            proof {
                reveal_strlit("Some");
            }
            return Some(i);
        }
        i = i + 1;
    }
    None
}

/// The numeric type of an integer layout of `size` bytes, if the derivation handles that size.
pub fn integer_numeric_type(signed: bool, size: usize) -> (numeric: Option<NumericType>)
    ensures
        numeric == integer_type(signed, size),
{
    if signed {
        if size == 1 {
            Some(NumericType::I8)
        } else if size == 2 {
            Some(NumericType::I16)
        } else if size == 4 {
            Some(NumericType::I32)
        } else if size == 8 {
            Some(NumericType::I64)
        } else if size == 16 {
            Some(NumericType::I128)
        } else {
            None
        }
    } else {
        if size == 1 {
            Some(NumericType::U8)
        } else if size == 2 {
            Some(NumericType::U16)
        } else if size == 4 {
            Some(NumericType::U32)
        } else if size == 8 {
            Some(NumericType::U64)
        } else if size == 16 {
            Some(NumericType::U128)
        } else {
            None
        }
    }
}

/// The numeric type of a floating-point layout of `size` bytes, if the derivation handles it.
pub fn float_numeric_type(size: usize) -> (numeric: Option<NumericType>)
    ensures
        numeric == float_type(size),
{
    if size == 4 {
        Some(NumericType::F32)
    } else if size == 8 {
        Some(NumericType::F64)
    } else {
        None
    }
}

/// Whether the type derivation handles `shape` (see [`shape_supported`]).
pub fn is_supported_shape(shape: &ShapeModel) -> (supported: bool)
    ensures
        supported == shape_supported(*shape),
    decreases shape,
{
    match shape {
        ShapeModel::Boolean => true,
        ShapeModel::Char => true,
        ShapeModel::Str => true,
        ShapeModel::Integer { signed, size } => match size {
            Some(s) => integer_numeric_type(*signed, *s).is_some(),
            None => false,
        },
        ShapeModel::Float { size } => match size {
            Some(s) => float_numeric_type(*s).is_some(),
            None => false,
        },
        ShapeModel::Opaque { identifier, type_params } => {
            proof {
                reveal_strlit("String");
                reveal_strlit("()");
                reveal_strlit("Option");
            }
            if str_eq(identifier.as_str(), "String") || str_eq(identifier.as_str(), "()") {
                true
            } else if str_eq(identifier.as_str(), "Option") && type_params.len() > 0 {
                is_supported_shape(&type_params[0])
            } else {
                false
            }
        },
        ShapeModel::Enum { identifier, variants } => {
            proof {
                reveal_strlit("Option");
            }
            if !str_eq(identifier.as_str(), "Option") {
                return false;
            }
            match find_some_variant(variants) {
                Some(i) => {
                    if variants[i].fields.len() > 0 {
                        is_supported_shape(&variants[i].fields[0])
                    } else {
                        false
                    }
                },
                None => false,
            }
        },
        ShapeModel::Struct { kind, fields } => {
            if let StructKind::Unit = kind {
                return false;
            }
            let mut i: usize = 0;
            while i < fields.len()
                invariant
                    *shape == (ShapeModel::Struct { kind: *kind, fields: *fields }),
                    0 <= i <= fields@.len(),
                    forall|j: int| 0 <= j < i ==> shape_supported(#[trigger] fields@[j].shape),
                decreases fields@.len() - i,
            {
                proof {
                    assert(*fields == shape->fields);
                    assert(decreases_to!(*shape => shape->fields));
                    assert(decreases_to!(*fields => fields[i as int]));
                    assert(decreases_to!(fields[i as int] => fields[i as int].shape));
                }
                if !is_supported_shape(&fields[i].shape) {
                    return false;
                }
                i = i + 1;
            }
            true
        },
        ShapeModel::Reference(target) => is_supported_shape(target),
        ShapeModel::Other => false,
    }
}

impl TypeKind {
    /// Derives the type description of a reflected shape the derivation handles (see
    /// [`derives_type`]).
    pub fn from_shape(shape: &ShapeModel) -> (kind: TypeKind)
        requires
            shape_supported(*shape),
        ensures
            derives_type(*shape, kind),
        decreases shape,
    {
        match shape {
            ShapeModel::Boolean => TypeKind::Primitive(PrimitiveType::Bool),
            ShapeModel::Char => TypeKind::Primitive(PrimitiveType::Char),
            ShapeModel::Str => TypeKind::Primitive(PrimitiveType::String),
            ShapeModel::Integer { signed, size } => {
                let s = size.unwrap();
                TypeKind::Primitive(PrimitiveType::Numeric(integer_numeric_type(*signed, s).unwrap()))
            },
            ShapeModel::Float { size } => {
                let s = size.unwrap();
                TypeKind::Primitive(PrimitiveType::Numeric(float_numeric_type(s).unwrap()))
            },
            ShapeModel::Opaque { identifier, type_params } => {
                proof {
                    reveal_strlit("String");
                    reveal_strlit("()");
                    reveal_strlit("Option");
                }
                if str_eq(identifier.as_str(), "String") {
                    TypeKind::Primitive(PrimitiveType::String)
                } else if str_eq(identifier.as_str(), "()") {
                    TypeKind::Primitive(PrimitiveType::Unit)
                } else {
                    TypeKind::Nullable(Box::new(TypeKind::from_shape(&type_params[0])))
                }
            },
            ShapeModel::Enum { identifier: _, variants } => {
                let i = find_some_variant(variants).unwrap();
                TypeKind::Nullable(Box::new(TypeKind::from_shape(&variants[i].fields[0])))
            },
            ShapeModel::Struct { kind, fields } => {
                match kind {
                    StructKind::Struct => {
                        let mut out: Vec<(String, TypeKind)> = Vec::new();
                        let mut i: usize = 0;
                        while i < fields.len()
                            invariant
                                *shape == (ShapeModel::Struct { kind: *kind, fields: *fields }),
                                shape_supported(*shape),
                                0 <= i <= fields@.len(),
                                out@.len() == i,
                                forall|j: int|
                                    0 <= j < i ==> {
                                        &&& (#[trigger] out@[j]).0@ == fields@[j].name@
                                        &&& derives_type(fields@[j].shape, out@[j].1)
                                    },
                            decreases fields@.len() - i,
                        {
                            let name = fields[i].name.clone();
                            proof {
                                assert(decreases_to!(*shape => *fields));
                    assert(decreases_to!(*fields => fields[i as int]));
                    assert(decreases_to!(fields[i as int] => fields[i as int].shape));
                            }
                            let field_kind = TypeKind::from_shape(&fields[i].shape);
                            out.push((name, field_kind));
                            i = i + 1;
                        }
                        TypeKind::Record(Box::new(RecordType { fields: out }))
                    },
                    _ => {
                        let mut out: Vec<TypeKind> = Vec::new();
                        let mut i: usize = 0;
                        while i < fields.len()
                            invariant
                                *shape == (ShapeModel::Struct { kind: *kind, fields: *fields }),
                                shape_supported(*shape),
                                0 <= i <= fields@.len(),
                                out@.len() == i,
                                forall|j: int|
                                    0 <= j < i ==> derives_type(fields@[j].shape, #[trigger] out@[j]),
                            decreases fields@.len() - i,
                        {
                            proof {
                                assert(decreases_to!(*shape => *fields));
                    assert(decreases_to!(*fields => fields[i as int]));
                    assert(decreases_to!(fields[i as int] => fields[i as int].shape));
                            }
                            let element = TypeKind::from_shape(&fields[i].shape);
                            out.push(element);
                            i = i + 1;
                        }
                        TypeKind::Tuple(Box::new(TupleType { elements: out }))
                    },
                }
            },
            ShapeModel::Reference(target) => TypeKind::from_shape(target),
            ShapeModel::Other => TypeKind::Primitive(PrimitiveType::Unit),
        }
    }
}

} // verus!
