//! What the record derive decides about a struct before it writes any code:
//! the type of each column, which field is the primary key, and how each
//! field is borrowed, sized and read back.
use vstd::prelude::*;

verus! {

/// A field's type as written in the struct, as far as the derive reads it.
pub enum FieldType {
    /// A path such as `u8`, `String` or `Option<i32>`.
    Path(TypePath),
    /// Any other form of type (a reference, a tuple, an array, ...).
    Other,
}

/// A type path: an optional leading `::` and its segments.
pub struct TypePath {
    pub leading_colon: bool,
    pub segments: Vec<PathSegment>,
}

/// One segment of a path: its name and what follows the name.
pub struct PathSegment {
    pub ident: String,
    pub arguments: PathArguments,
}

/// What follows a segment's name.
pub enum PathArguments {
    /// Nothing follows the name.
    Bare,
    /// `<A, B, ..>`
    AngleBracketed(Vec<GenericArgument>),
    /// `(A, B) -> C`
    Parenthesized,
}

/// One argument between angle brackets.
pub enum GenericArgument {
    Type(FieldType),
    /// A lifetime, a constant, a binding, ...
    Other,
}

/// The column types that a record field can have.
#[derive(Debug, Clone, Copy, PartialEq, Eq, Structural)]
pub enum DataType {
    UInt8,
    UInt16,
    UInt32,
    UInt64,
    Int8,
    Int16,
    Int32,
    Int64,
    String,
    Boolean,
}

/// The Rust type name of a column type.
pub open spec fn column_rust_name(dt: DataType) -> Seq<char> {
    match dt {
        DataType::UInt8 => "u8"@,
        DataType::UInt16 => "u16"@,
        DataType::UInt32 => "u32"@,
        DataType::UInt64 => "u64"@,
        DataType::Int8 => "i8"@,
        DataType::Int16 => "i16"@,
        DataType::Int32 => "i32"@,
        DataType::Int64 => "i64"@,
        DataType::String => "String"@,
        DataType::Boolean => "bool"@,
    }
}

/// A path that is a bare name: no leading `::`, one segment, no arguments.
pub open spec fn bare_name(path: TypePath) -> Option<Seq<char>> {
    if !path.leading_colon && path.segments@.len() == 1 && path.segments@[0].arguments is Bare {
        Some(path.segments@[0].ident@)
    } else {
        None
    }
}

/// The column type that a path names, if it names one.
pub open spec fn data_type_of_path(path: TypePath) -> Option<DataType> {
    match bare_name(path) {
        Some(name) => if name == column_rust_name(DataType::UInt8) {
            Some(DataType::UInt8)
        } else if name == column_rust_name(DataType::UInt16) {
            Some(DataType::UInt16)
        } else if name == column_rust_name(DataType::UInt32) {
            Some(DataType::UInt32)
        } else if name == column_rust_name(DataType::UInt64) {
            Some(DataType::UInt64)
        } else if name == column_rust_name(DataType::Int8) {
            Some(DataType::Int8)
        } else if name == column_rust_name(DataType::Int16) {
            Some(DataType::Int16)
        } else if name == column_rust_name(DataType::Int32) {
            Some(DataType::Int32)
        } else if name == column_rust_name(DataType::Int64) {
            Some(DataType::Int64)
        } else if name == column_rust_name(DataType::String) {
            Some(DataType::String)
        } else if name == column_rust_name(DataType::Boolean) {
            Some(DataType::Boolean)
        } else {
            None
        },
        None => None,
    }
}

/// Distinct column types have distinct Rust names.
pub proof fn lemma_column_rust_names_distinct(a: DataType, b: DataType)
    requires
        a != b,
    ensures
        column_rust_name(a) != column_rust_name(b),
{
    reveal_strlit("u8");
    reveal_strlit("u16");
    reveal_strlit("u32");
    reveal_strlit("u64");
    reveal_strlit("i8");
    reveal_strlit("i16");
    reveal_strlit("i32");
    reveal_strlit("i64");
    reveal_strlit("String");
    reveal_strlit("bool");
    let x = column_rust_name(a);
    let y = column_rust_name(b);
    if x.len() == y.len() {
        assert(x[0] != y[0] || x[1] != y[1] || x[2] != y[2]);
    }
}

/// A bare path names the column type whose Rust name it is, and only that one.
pub proof fn lemma_bare_name_column_type(path: TypePath, dt: DataType)
    requires
        bare_name(path) == Some(column_rust_name(dt)),
    ensures
        data_type_of_path(path) == Some(dt),
{
    assert forall|other: DataType| other != dt implies column_rust_name(other) != column_rust_name(
        dt,
    ) by {
        lemma_column_rust_names_distinct(other, dt);
    }
}

/// `ident` holds exactly the characters of `name`.
fn ident_is(ident: &String, name: &str) -> (b: bool)
    ensures
        b == (ident@ == name@),
{
    *ident == String::from_str(name)
}

impl DataType {
    /// The column type that `path` names: a bare `u8`, `u16`, `u32`, `u64`,
    /// `i8`, `i16`, `i32`, `i64`, `String` or `bool`; `None` for any other path.
    pub fn from_path(path: &TypePath) -> (r: Option<DataType>)
        ensures
            r == data_type_of_path(*path),
            forall|dt: DataType|
                bare_name(*path) == Some(#[trigger] column_rust_name(dt)) ==> r == Some(dt),
            r matches Some(dt) ==> bare_name(*path) == Some(column_rust_name(dt)),
            bare_name(*path) == Some("u8"@) ==> r == Some(DataType::UInt8),
            bare_name(*path) == Some("u16"@) ==> r == Some(DataType::UInt16),
            bare_name(*path) == Some("u32"@) ==> r == Some(DataType::UInt32),
            bare_name(*path) == Some("u64"@) ==> r == Some(DataType::UInt64),
            bare_name(*path) == Some("i8"@) ==> r == Some(DataType::Int8),
            bare_name(*path) == Some("i16"@) ==> r == Some(DataType::Int16),
            bare_name(*path) == Some("i32"@) ==> r == Some(DataType::Int32),
            bare_name(*path) == Some("i64"@) ==> r == Some(DataType::Int64),
            bare_name(*path) == Some("String"@) ==> r == Some(DataType::String),
            bare_name(*path) == Some("bool"@) ==> r == Some(DataType::Boolean),
    {
        proof {
            assert forall|dt: DataType|
                bare_name(*path) == Some(#[trigger] column_rust_name(dt)) implies data_type_of_path(
                *path,
            ) == Some(dt) by {
                lemma_bare_name_column_type(*path, dt);
            }
            assert(column_rust_name(DataType::UInt8) == "u8"@);
            assert(column_rust_name(DataType::UInt16) == "u16"@);
            assert(column_rust_name(DataType::UInt32) == "u32"@);
            assert(column_rust_name(DataType::UInt64) == "u64"@);
            assert(column_rust_name(DataType::Int8) == "i8"@);
            assert(column_rust_name(DataType::Int16) == "i16"@);
            assert(column_rust_name(DataType::Int32) == "i32"@);
            assert(column_rust_name(DataType::Int64) == "i64"@);
            assert(column_rust_name(DataType::String) == "String"@);
            assert(column_rust_name(DataType::Boolean) == "bool"@);
        }
        if path.leading_colon || path.segments.len() != 1 {
            return None;
        }
        let segment = &path.segments[0];
        match &segment.arguments {
            PathArguments::Bare => {},
            _ => return None,
        }
        let ident = &segment.ident;
        if ident_is(ident, "u8") {
            Some(DataType::UInt8)
        } else if ident_is(ident, "u16") {
            Some(DataType::UInt16)
        } else if ident_is(ident, "u32") {
            Some(DataType::UInt32)
        } else if ident_is(ident, "u64") {
            Some(DataType::UInt64)
        } else if ident_is(ident, "i8") {
            Some(DataType::Int8)
        } else if ident_is(ident, "i16") {
            Some(DataType::Int16)
        } else if ident_is(ident, "i32") {
            Some(DataType::Int32)
        } else if ident_is(ident, "i64") {
            Some(DataType::Int64)
        } else if ident_is(ident, "String") {
            Some(DataType::String)
        } else if ident_is(ident, "bool") {
            Some(DataType::Boolean)
        } else {
            None
        }
    }
}

/// The one argument of a path that is `Option<..>` with one segment and one
/// argument between angle brackets.
pub open spec fn option_argument(path: TypePath) -> Option<GenericArgument> {
    if path.segments@.len() == 1 && path.segments@[0].ident@ == "Option"@ {
        match path.segments@[0].arguments {
            PathArguments::AngleBracketed(args) => if args@.len() == 1 {
                Some(args@[0])
            } else {
                None
            },
            _ => None,
        }
    } else {
        None
    }
}

/// The column type of a field's type and whether the column is nullable:
/// `Option<T>` is the nullable column of the path `T`, any other path the
/// non-null column that it names; `None` where no column type fits.
pub open spec fn field_data_type(ty: FieldType) -> Option<(DataType, bool)> {
    match ty {
        FieldType::Path(path) => match option_argument(path) {
            Some(GenericArgument::Type(FieldType::Path(inner))) => match data_type_of_path(inner) {
                Some(dt) => Some((dt, true)),
                None => None,
            },
            Some(_) => None,
            None => match data_type_of_path(path) {
                Some(dt) => Some((dt, false)),
                None => None,
            },
        },
        FieldType::Other => None,
    }
}

/// A bare path that names a column type is that column, not nullable.
pub proof fn lemma_bare_column_type(path: TypePath, dt: DataType)
    requires
        bare_name(path) == Some(column_rust_name(dt)),
    ensures
        field_data_type(FieldType::Path(path)) == Some((dt, false)),
{
    lemma_bare_name_column_type(path, dt);
}

/// `Option<T>`, for a bare path `T` that names a column type, is that column,
/// nullable.
pub proof fn lemma_optional_column_type(outer: TypePath, inner: TypePath, dt: DataType)
    requires
        option_argument(outer) == Some(GenericArgument::Type(FieldType::Path(inner))),
        bare_name(inner) == Some(column_rust_name(dt)),
    ensures
        field_data_type(FieldType::Path(outer)) == Some((dt, true)),
{
    lemma_bare_name_column_type(inner, dt);
}

/// A column is nullable exactly when the field's type is `Option<..>`.
pub proof fn lemma_nullable_means_option(ty: FieldType)
    ensures
        field_data_type(ty) matches Some((_, nullable)) ==> (ty matches FieldType::Path(p) && (
        nullable <==> option_argument(p) is Some)),
{
}

/// A field whose type is a bare path naming a column type is never a nullable
/// primary key, whatever its attribute says.
pub proof fn lemma_bare_field_not_nullable_primary_key(field: RecordStructFieldOpt, path: TypePath, dt: DataType)
    requires
        field.ty == FieldType::Path(path),
        bare_name(path) == Some(column_rust_name(dt)),
    ensures
        !field.nullable_primary_key(),
        field_data_type(field.ty) == Some((dt, false)),
{
    lemma_bare_column_type(path, dt);
}

/// A field of the struct that the derive is applied to.
pub struct RecordStructFieldOpt {
    /// The field's name; `None` for a field of a tuple struct.
    pub ident: Option<String>,
    pub ty: FieldType,
    /// The `primary_key` attribute, where given.
    pub primary_key: Option<bool>,
}

impl RecordStructFieldOpt {
    /// The field is marked as the primary key.
    pub open spec fn is_primary_key(self) -> bool {
        self.primary_key == Some(true)
    }

    /// The field has a name and a type that maps to a column.
    pub open spec fn well_formed(self) -> bool {
        &&& self.ident is Some
        &&& field_data_type(self.ty) is Some
    }

    /// The field is marked as the primary key and its column is nullable.
    pub open spec fn nullable_primary_key(self) -> bool {
        &&& self.is_primary_key()
        &&& field_data_type(self.ty) matches Some((_, nullable))
        &&& nullable
    }

    /// The field's name with `_array` after it.
    pub fn to_array_ident(&self) -> (r: String)
        requires
            self.ident is Some,
        ensures
            r@ == self.ident->0@ + "_array"@,
    {
        match &self.ident {
            Some(name) => name.clone().concat("_array"),
            None => vstd::pervasive::unreached(),
        }
    }

    /// The column type of the field and whether it is nullable (see
    /// `field_data_type`).
    pub fn to_data_type(&self) -> (r: Option<(DataType, bool)>)
        ensures
            r == field_data_type(self.ty),
            self.ty matches FieldType::Path(p) ==> forall|dt: DataType|
                bare_name(p) == Some(#[trigger] column_rust_name(dt)) ==> r == Some((dt, false)),
            self.ty matches FieldType::Path(p) ==> forall|dt: DataType, inner: TypePath|
                option_argument(p) == Some(GenericArgument::Type(FieldType::Path(inner)))
                    && #[trigger] bare_name(inner) == Some(#[trigger] column_rust_name(dt)) ==> r == Some(
                    (dt, true),
                ),
            r matches Some((_, nullable)) ==> (self.ty matches FieldType::Path(p) && (nullable
                <==> option_argument(p) is Some)),
    {
        proof {
            if self.ty is Path {
                let p = self.ty->0;
                assert forall|dt: DataType|
                    bare_name(p) == Some(#[trigger] column_rust_name(dt)) implies field_data_type(
                    self.ty,
                ) == Some((dt, false)) by {
                    lemma_bare_column_type(p, dt);
                }
                assert forall|dt: DataType, inner: TypePath|
                    option_argument(p) == Some(GenericArgument::Type(FieldType::Path(inner)))
                        && #[trigger] bare_name(inner) == Some(
                        #[trigger] column_rust_name(dt),
                    ) implies field_data_type(self.ty) == Some((dt, true)) by {
                    lemma_optional_column_type(p, inner, dt);
                }
            }
            lemma_nullable_means_option(self.ty);
        }
        if let FieldType::Path(type_path) = &self.ty {
            if type_path.segments.len() == 1 {
                let segment = &type_path.segments[0];
                if ident_is(&segment.ident, "Option") {
                    if let PathArguments::AngleBracketed(generic_args) = &segment.arguments {
                        if generic_args.len() == 1 {
                            return if let GenericArgument::Type(FieldType::Path(inner)) =
                                &generic_args[0] {
                                match DataType::from_path(inner) {
                                    Some(dt) => Some((dt, true)),
                                    None => None,
                                }
                            } else {
                                None
                            };
                        }
                    }
                }
            }
            return match DataType::from_path(type_path) {
                Some(dt) => Some((dt, false)),
                None => None,
            };
        }
        None
    }
}

/// The body of the type that the derive is applied to.
pub enum RecordData {
    Enum,
    Struct(Vec<RecordStructFieldOpt>),
}

/// The type that the derive is applied to.
pub struct RecordOpts {
    pub ident: String,
    pub data: RecordData,
}

impl RecordOpts {
    /// The name of the generated builder: the type's name with `Builder` after it.
    pub fn to_struct_builder_ident(&self) -> (r: String)
        ensures
            r@ == self.ident@ + "Builder"@,
    {
        self.ident.clone().concat("Builder")
    }
}

/// Why the derive refuses a type.
#[derive(Debug, Clone, Copy, PartialEq, Eq, Structural)]
pub enum RecordError {
    /// The derive was applied to an enum.
    EnumNotSupported,
    /// A field marked as the primary key has a nullable column.
    NullablePrimaryKey,
}

/// How the borrowed view of a record takes a field.
#[derive(Debug, Clone, Copy, PartialEq, Eq, Structural)]
pub enum RefInit {
    /// `&self.field`
    Borrowed,
    /// `self.field`
    Copied,
    /// `self.field.as_deref()`
    AsDeref,
    /// `Some(&self.field)`
    SomeBorrowed,
    /// `Some(self.field)`
    SomeCopied,
}

/// What a field adds to a record's in-memory size.
#[derive(Debug, Clone, Copy, PartialEq, Eq, Structural)]
pub enum SizeTerm {
    /// A fixed number of bytes.
    Bytes(usize),
    /// The length of the string that the field holds.
    StringLength,
}

/// How a field is read back when a record is decoded.
#[derive(Debug, Clone, Copy, PartialEq, Eq, Structural)]
pub enum DecodeKind {
    /// The value itself.
    Value,
    /// An optional value, kept optional.
    Optional,
    /// An optional value, which must be present.
    OptionalUnwrapped,
}

/// The width in bytes of a fixed-width column type's values.
pub open spec fn byte_width(dt: DataType) -> int {
    match dt {
        DataType::UInt8 | DataType::Int8 | DataType::Boolean => 1,
        DataType::UInt16 | DataType::Int16 => 2,
        DataType::UInt32 | DataType::Int32 => 4,
        DataType::UInt64 | DataType::Int64 => 8,
        DataType::String => 0,
    }
}

/// The width of each fixed-width column type is the size in memory of its Rust
/// type.
pub proof fn lemma_byte_width_is_size_of()
    ensures
        byte_width(DataType::UInt8) == vstd::layout::size_of::<u8>(),
        byte_width(DataType::UInt16) == vstd::layout::size_of::<u16>(),
        byte_width(DataType::UInt32) == vstd::layout::size_of::<u32>(),
        byte_width(DataType::UInt64) == vstd::layout::size_of::<u64>(),
        byte_width(DataType::Int8) == vstd::layout::size_of::<i8>(),
        byte_width(DataType::Int16) == vstd::layout::size_of::<i16>(),
        byte_width(DataType::Int32) == vstd::layout::size_of::<i32>(),
        byte_width(DataType::Int64) == vstd::layout::size_of::<i64>(),
        byte_width(DataType::Boolean) == vstd::layout::size_of::<bool>(),
{
    broadcast use vstd::layout::layout_of_primitives;

}

/// What the derive decided about one field.
pub struct FieldPlan {
    pub name: String,
    pub data_type: DataType,
    pub nullable: bool,
    pub primary_key: bool,
    /// The field's column in the record's schema, after the two columns that
    /// every record has (its tombstone flag and its timestamp).
    pub column_index: usize,
}

impl FieldPlan {
    pub open spec fn is_string(self) -> bool {
        self.data_type == DataType::String
    }

    /// How the borrowed view takes this field: the primary key as itself
    /// (a string by reference), any other field as an `Option`.
    pub fn ref_init(&self) -> (r: RefInit)
        ensures
            self.primary_key && self.is_string() ==> r == RefInit::Borrowed,
            self.primary_key && !self.is_string() ==> r == RefInit::Copied,
            !self.primary_key && self.nullable && self.is_string() ==> r == RefInit::AsDeref,
            !self.primary_key && self.nullable && !self.is_string() ==> r == RefInit::Copied,
            !self.primary_key && !self.nullable && self.is_string() ==> r == RefInit::SomeBorrowed,
            !self.primary_key && !self.nullable && !self.is_string() ==> r == RefInit::SomeCopied,
    {
        let is_string = match self.data_type {
            DataType::String => true,
            _ => false,
        };
        if self.primary_key {
            if is_string {
                RefInit::Borrowed
            } else {
                RefInit::Copied
            }
        } else {
            match (self.nullable, is_string) {
                (true, true) => RefInit::AsDeref,
                (true, false) => RefInit::Copied,
                (false, true) => RefInit::SomeBorrowed,
                (false, false) => RefInit::SomeCopied,
            }
        }
    }

    /// What this field adds to the record's size: the width of a fixed-width
    /// value, nothing for a nullable string, the length of any other string.
    pub fn size_term(&self) -> (r: SizeTerm)
        ensures
            !self.is_string() ==> r == SizeTerm::Bytes(byte_width(self.data_type) as usize),
            self.data_type == DataType::UInt8 ==> r == SizeTerm::Bytes(1),
            self.data_type == DataType::Int8 ==> r == SizeTerm::Bytes(1),
            self.data_type == DataType::Boolean ==> r == SizeTerm::Bytes(1),
            self.data_type == DataType::UInt16 ==> r == SizeTerm::Bytes(2),
            self.data_type == DataType::Int16 ==> r == SizeTerm::Bytes(2),
            self.data_type == DataType::UInt32 ==> r == SizeTerm::Bytes(4),
            self.data_type == DataType::Int32 ==> r == SizeTerm::Bytes(4),
            self.data_type == DataType::UInt64 ==> r == SizeTerm::Bytes(8),
            self.data_type == DataType::Int64 ==> r == SizeTerm::Bytes(8),
            self.is_string() && self.nullable ==> r == SizeTerm::Bytes(0),
            self.is_string() && !self.nullable ==> r == SizeTerm::StringLength,
    {
        match self.data_type {
            DataType::UInt8 | DataType::Int8 | DataType::Boolean => SizeTerm::Bytes(1),
            DataType::UInt16 | DataType::Int16 => SizeTerm::Bytes(2),
            DataType::UInt32 | DataType::Int32 => SizeTerm::Bytes(4),
            DataType::UInt64 | DataType::Int64 => SizeTerm::Bytes(8),
            DataType::String => if self.nullable {
                SizeTerm::Bytes(0)
            } else {
                SizeTerm::StringLength
            },
        }
    }

    /// How this field is read back: the primary key as a value, a nullable
    /// field as an option, any other field as an option that must be present.
    pub fn decode_kind(&self) -> (r: DecodeKind)
        ensures
            self.primary_key ==> r == DecodeKind::Value,
            !self.primary_key && self.nullable ==> r == DecodeKind::Optional,
            !self.primary_key && !self.nullable ==> r == DecodeKind::OptionalUnwrapped,
    {
        if self.primary_key {
            DecodeKind::Value
        } else if self.nullable {
            DecodeKind::Optional
        } else {
            DecodeKind::OptionalUnwrapped
        }
    }
}

/// What the derive decided about a struct.
pub struct RecordPlan {
    pub name: String,
    pub fields: Vec<FieldPlan>,
    /// The position in `fields` of the primary key.
    pub primary_key: usize,
}

impl RecordPlan {
    /// The primary key is one of the fields, marked as such and not nullable.
    pub open spec fn wf(self) -> bool {
        &&& self.primary_key < self.fields@.len()
        &&& self.fields@[self.primary_key as int].primary_key
        &&& !self.fields@[self.primary_key as int].nullable
    }

    /// The schema column of the primary key.
    pub fn primary_key_index(&self) -> (r: usize)
        requires
            self.wf(),
        ensures
            r == self.fields@[self.primary_key as int].column_index,
    {
        self.fields[self.primary_key].column_index
    }
}

/// No field before position `i` is a nullable primary key.
pub open spec fn no_nullable_primary_key_before(fields: Seq<RecordStructFieldOpt>, i: int) -> bool {
    forall|j: int| 0 <= j < i ==> !(#[trigger] fields[j]).nullable_primary_key()
}

/// Some field is a nullable primary key.
pub open spec fn has_nullable_primary_key(fields: Seq<RecordStructFieldOpt>) -> bool {
    exists|j: int| 0 <= j < fields.len() && (#[trigger] fields[j]).nullable_primary_key()
}

/// Some field is marked as the primary key.
pub open spec fn has_primary_key(fields: Seq<RecordStructFieldOpt>) -> bool {
    exists|j: int| 0 <= j < fields.len() && (#[trigger] fields[j]).is_primary_key()
}

/// The fields on which planning neither meets a field without a name or a
/// column type before it has met a nullable primary key, nor ends without a
/// primary key.
pub open spec fn plannable(fields: Seq<RecordStructFieldOpt>) -> bool {
    &&& fields.len() < usize::MAX
    &&& forall|i: int|
        0 <= i < fields.len() && no_nullable_primary_key_before(fields, i) ==> (
        #[trigger] fields[i]).well_formed()
    &&& no_nullable_primary_key_before(fields, fields.len() as int) ==> has_primary_key(fields)
}

/// `plan` is what the derive decides about `field`, the field at position `i`.
pub open spec fn field_planned(field: RecordStructFieldOpt, plan: FieldPlan, i: int) -> bool {
    &&& field.ident matches Some(name) && plan.name@ == name@
    &&& field_data_type(field.ty) == Some((plan.data_type, plan.nullable))
    &&& plan.primary_key == field.is_primary_key()
    &&& plan.column_index == i + 2
}

/// Decides the columns and the primary key of the type that the derive is
/// applied to. An enum is refused; so is a struct with a nullable primary key.
/// The primary key is the last field marked as one.
pub fn plan_record(opts: &RecordOpts) -> (r: Result<RecordPlan, RecordError>)
    requires
        opts.data matches RecordData::Struct(fields) ==> plannable(fields@),
    ensures
        opts.data is Enum ==> r == Err::<RecordPlan, RecordError>(RecordError::EnumNotSupported),
        opts.data matches RecordData::Struct(fields) ==> (r is Err <==> has_nullable_primary_key(
            fields@,
        )),
        opts.data is Struct && r is Err ==> r == Err::<RecordPlan, RecordError>(
            RecordError::NullablePrimaryKey,
        ),
        opts.data matches RecordData::Struct(fields) ==> r matches Ok(plan) ==> {
            &&& plan.wf()
            &&& plan.name@ == opts.ident@
            &&& plan.fields@.len() == fields@.len()
            &&& forall|i: int|
                0 <= i < fields@.len() ==> field_planned(#[trigger] fields@[i], plan.fields@[i], i)
            &&& forall|j: int|
                plan.primary_key < j < fields@.len() ==> !(#[trigger] fields@[j]).is_primary_key()
            &&& forall|i: int, p: TypePath, dt: DataType|
                #![trigger plan.fields@[i], bare_name(p), column_rust_name(dt)]
                0 <= i < fields@.len() && fields@[i].ty == FieldType::Path(p) && bare_name(p)
                    == Some(column_rust_name(dt)) ==> plan.fields@[i].data_type == dt
                    && !plan.fields@[i].nullable
            &&& forall|i: int, p: TypePath, inner: TypePath, dt: DataType|
                #![trigger plan.fields@[i], option_argument(p), bare_name(inner), column_rust_name(dt)]
                0 <= i < fields@.len() && fields@[i].ty == FieldType::Path(p) && option_argument(p)
                    == Some(GenericArgument::Type(FieldType::Path(inner))) && bare_name(inner)
                    == Some(column_rust_name(dt)) ==> plan.fields@[i].data_type == dt
                    && plan.fields@[i].nullable
        },
        opts.data matches RecordData::Struct(fields) ==> r is Err ==> exists|j: int|
            0 <= j < fields@.len() && (#[trigger] fields@[j]).is_primary_key() && (
            fields@[j].ty matches FieldType::Path(p) && option_argument(p) is Some),
{
    let fields = match &opts.data {
        RecordData::Enum => return Err(RecordError::EnumNotSupported),
        RecordData::Struct(fields) => fields,
    };
    let mut planned: Vec<FieldPlan> = Vec::new();
    let mut primary_key: Option<usize> = None;
    let mut i: usize = 0;
    while i < fields.len()
        invariant
            opts.data == RecordData::Struct(*fields),
            plannable(fields@),
            i <= fields@.len(),
            no_nullable_primary_key_before(fields@, i as int),
            planned@.len() == i,
            forall|k: int| 0 <= k < i ==> field_planned(#[trigger] fields@[k], planned@[k], k),
            primary_key matches Some(p) ==> {
                &&& p < i
                &&& fields@[p as int].is_primary_key()
                &&& forall|j: int| p < j < i ==> !(#[trigger] fields@[j]).is_primary_key()
            },
            primary_key is None ==> forall|j: int| 0 <= j < i ==> !(#[trigger] fields@[j]).is_primary_key(),
        decreases fields@.len() - i,
    {
        let field = &fields[i];
        assert(field.well_formed());
        let name = match &field.ident {
            Some(name) => name.clone(),
            None => vstd::pervasive::unreached(),
        };
        let (data_type, nullable) = match field.to_data_type() {
            Some(found) => found,
            None => vstd::pervasive::unreached(),
        };
        let is_primary_key = match field.primary_key {
            Some(b) => b,
            None => false,
        };
        if is_primary_key {
            primary_key = Some(i);
            if nullable {
                assert(fields@[i as int].nullable_primary_key());
                proof {
                    lemma_nullable_means_option(fields@[i as int].ty);
                }
                return Err(RecordError::NullablePrimaryKey);
            }
        }
        planned.push(
            FieldPlan { name, data_type, nullable, primary_key: is_primary_key, column_index: i + 2 },
        );
        i += 1;
    }
    proof {
        assert forall|i: int, p: TypePath, dt: DataType|
            #![trigger planned@[i], bare_name(p), column_rust_name(dt)]
            0 <= i < fields@.len() && fields@[i].ty == FieldType::Path(p) && bare_name(p) == Some(
                column_rust_name(dt),
            ) implies planned@[i].data_type == dt && !planned@[i].nullable by {
            assert(field_planned(fields@[i], planned@[i], i));
            lemma_bare_column_type(p, dt);
        }
        assert forall|i: int, p: TypePath, inner: TypePath, dt: DataType|
            #![trigger planned@[i], option_argument(p), bare_name(inner), column_rust_name(dt)]
            0 <= i < fields@.len() && fields@[i].ty == FieldType::Path(p) && option_argument(p)
                == Some(GenericArgument::Type(FieldType::Path(inner))) && bare_name(inner) == Some(
                column_rust_name(dt),
            ) implies planned@[i].data_type == dt && planned@[i].nullable by {
            assert(field_planned(fields@[i], planned@[i], i));
            lemma_optional_column_type(p, inner, dt);
        }
    }
    match primary_key {
        Some(p) => Ok(RecordPlan { name: opts.ident.clone(), fields: planned, primary_key: p }),
        None => {
            assert(has_primary_key(fields@));
            vstd::pervasive::unreached()
        },
    }
}

} // verus!
