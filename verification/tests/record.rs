use tonbo::record::{
    plan_record, DataType, DecodeKind, FieldPlan, FieldType, GenericArgument, PathArguments,
    PathSegment, RecordData, RecordError, RecordOpts, RecordStructFieldOpt, RefInit, SizeTerm,
    TypePath,
};

fn path(name: &str) -> TypePath {
    TypePath {
        leading_colon: false,
        segments: vec![PathSegment { ident: name.to_string(), arguments: PathArguments::Bare }],
    }
}

fn ty(name: &str) -> FieldType {
    FieldType::Path(path(name))
}

fn option_of(inner: FieldType) -> FieldType {
    FieldType::Path(TypePath {
        leading_colon: false,
        segments: vec![PathSegment {
            ident: "Option".to_string(),
            arguments: PathArguments::AngleBracketed(vec![GenericArgument::Type(inner)]),
        }],
    })
}

fn field(name: &str, ty: FieldType, primary_key: Option<bool>) -> RecordStructFieldOpt {
    RecordStructFieldOpt { ident: Some(name.to_string()), ty, primary_key }
}

fn data_type(ty: FieldType) -> Option<(DataType, bool)> {
    RecordStructFieldOpt { ident: None, ty, primary_key: None }.to_data_type()
}

fn plan_of(name: &str, fields: Vec<RecordStructFieldOpt>) -> Result<tonbo::record::RecordPlan, RecordError> {
    plan_record(&RecordOpts { ident: name.to_string(), data: RecordData::Struct(fields) })
}

#[test]
fn from_path_names_each_column_type() {
    let table = [
        ("u8", DataType::UInt8),
        ("u16", DataType::UInt16),
        ("u32", DataType::UInt32),
        ("u64", DataType::UInt64),
        ("i8", DataType::Int8),
        ("i16", DataType::Int16),
        ("i32", DataType::Int32),
        ("i64", DataType::Int64),
        ("String", DataType::String),
        ("bool", DataType::Boolean),
    ];
    for (name, dt) in table {
        assert_eq!(DataType::from_path(&path(name)), Some(dt));
    }
    assert_eq!(DataType::from_path(&path("f32")), None);
    assert_eq!(DataType::from_path(&path("str")), None);
}

#[test]
fn from_path_wants_a_bare_name() {
    let mut rooted = path("u8");
    rooted.leading_colon = true;
    assert_eq!(DataType::from_path(&rooted), None);
    let long = TypePath {
        leading_colon: false,
        segments: vec![
            PathSegment { ident: "std".to_string(), arguments: PathArguments::Bare },
            PathSegment { ident: "String".to_string(), arguments: PathArguments::Bare },
        ],
    };
    assert_eq!(DataType::from_path(&long), None);
    let with_args = TypePath {
        leading_colon: false,
        segments: vec![PathSegment { ident: "u8".to_string(), arguments: PathArguments::Parenthesized }],
    };
    assert_eq!(DataType::from_path(&with_args), None);
}

#[test]
fn to_data_type_plain_and_optional() {
    assert_eq!(data_type(ty("u32")), Some((DataType::UInt32, false)));
    assert_eq!(data_type(ty("String")), Some((DataType::String, false)));
    assert_eq!(data_type(option_of(ty("i64"))), Some((DataType::Int64, true)));
    assert_eq!(data_type(option_of(ty("bool"))), Some((DataType::Boolean, true)));
}

#[test]
fn to_data_type_refuses_other_shapes() {
    assert_eq!(data_type(FieldType::Other), None);
    assert_eq!(data_type(option_of(FieldType::Other)), None);
    let lifetime_arg = FieldType::Path(TypePath {
        leading_colon: false,
        segments: vec![PathSegment {
            ident: "Option".to_string(),
            arguments: PathArguments::AngleBracketed(vec![GenericArgument::Other]),
        }],
    });
    assert_eq!(data_type(lifetime_arg), None);
    let two_args = FieldType::Path(TypePath {
        leading_colon: false,
        segments: vec![PathSegment {
            ident: "Option".to_string(),
            arguments: PathArguments::AngleBracketed(vec![
                GenericArgument::Type(ty("u8")),
                GenericArgument::Type(ty("u8")),
            ]),
        }],
    });
    assert_eq!(data_type(two_args), None);
    assert_eq!(data_type(option_of(option_of(ty("u8")))), None);
}

#[test]
fn builder_and_array_names() {
    let opts = RecordOpts { ident: "User".to_string(), data: RecordData::Enum };
    assert_eq!(opts.to_struct_builder_ident(), "UserBuilder");
    assert_eq!(field("email", ty("String"), None).to_array_ident(), "email_array");
}

#[test]
fn plan_refuses_an_enum() {
    let opts = RecordOpts { ident: "E".to_string(), data: RecordData::Enum };
    assert_eq!(plan_record(&opts).err(), Some(RecordError::EnumNotSupported));
}

#[test]
fn plan_refuses_a_nullable_primary_key() {
    let fields = vec![
        field("name", ty("String"), None),
        field("id", option_of(ty("u64")), Some(true)),
        field("age", ty("u8"), None),
    ];
    assert_eq!(plan_of("User", fields).err(), Some(RecordError::NullablePrimaryKey));
}

#[test]
fn plan_of_a_struct() {
    let fields = vec![
        field("name", ty("String"), Some(true)),
        field("email", option_of(ty("String")), None),
        field("age", ty("u8"), Some(false)),
        field("score", option_of(ty("i32")), None),
    ];
    let plan = plan_of("User", fields).unwrap();
    assert_eq!(plan.name, "User");
    assert_eq!(plan.primary_key, 0);
    assert_eq!(plan.primary_key_index(), 2);
    let names: Vec<&str> = plan.fields.iter().map(|f| f.name.as_str()).collect();
    assert_eq!(names, vec!["name", "email", "age", "score"]);
    let indices: Vec<usize> = plan.fields.iter().map(|f| f.column_index).collect();
    assert_eq!(indices, vec![2, 3, 4, 5]);
    assert_eq!(plan.fields[1].data_type, DataType::String);
    assert!(plan.fields[1].nullable);
    assert!(plan.fields[0].primary_key);
    assert!(!plan.fields[2].primary_key);
    assert_eq!(plan.fields[3].data_type, DataType::Int32);
}

#[test]
fn plan_takes_the_last_primary_key() {
    let fields = vec![
        field("a", ty("u8"), Some(true)),
        field("b", ty("u16"), None),
        field("c", ty("u32"), Some(true)),
    ];
    let plan = plan_of("T", fields).unwrap();
    assert_eq!(plan.primary_key, 2);
    assert_eq!(plan.primary_key_index(), 4);
    assert!(plan.fields[0].primary_key);
    assert!(plan.fields[2].primary_key);
}

fn fp(data_type: DataType, nullable: bool, primary_key: bool) -> FieldPlan {
    FieldPlan { name: "f".to_string(), data_type, nullable, primary_key, column_index: 2 }
}

#[test]
fn ref_init_table() {
    assert_eq!(fp(DataType::String, false, true).ref_init(), RefInit::Borrowed);
    assert_eq!(fp(DataType::UInt64, false, true).ref_init(), RefInit::Copied);
    assert_eq!(fp(DataType::String, true, false).ref_init(), RefInit::AsDeref);
    assert_eq!(fp(DataType::Int8, true, false).ref_init(), RefInit::Copied);
    assert_eq!(fp(DataType::String, false, false).ref_init(), RefInit::SomeBorrowed);
    assert_eq!(fp(DataType::Boolean, false, false).ref_init(), RefInit::SomeCopied);
}

#[test]
fn size_term_table() {
    assert_eq!(fp(DataType::UInt8, false, false).size_term(), SizeTerm::Bytes(1));
    assert_eq!(fp(DataType::Int16, true, false).size_term(), SizeTerm::Bytes(2));
    assert_eq!(fp(DataType::UInt32, false, true).size_term(), SizeTerm::Bytes(4));
    assert_eq!(fp(DataType::Int64, false, false).size_term(), SizeTerm::Bytes(8));
    assert_eq!(fp(DataType::Boolean, false, false).size_term(), SizeTerm::Bytes(1));
    assert_eq!(fp(DataType::String, true, false).size_term(), SizeTerm::Bytes(0));
    assert_eq!(fp(DataType::String, false, false).size_term(), SizeTerm::StringLength);
}

#[test]
fn decode_kind_table() {
    assert_eq!(fp(DataType::UInt8, false, true).decode_kind(), DecodeKind::Value);
    assert_eq!(fp(DataType::UInt8, true, false).decode_kind(), DecodeKind::Optional);
    assert_eq!(fp(DataType::UInt8, false, false).decode_kind(), DecodeKind::OptionalUnwrapped);
}
