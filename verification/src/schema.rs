//! The schema data model: declared types, role-tagged fields, command
//! variants, and the classifier that turns a field into a typed argument
//! kind.
//!
//! A schema is authored once, before the dispatcher starts serving calls.
//! Each command variant names an ordered list of fields; each field carries
//! a declared type and a role tag (required positional, optional positional,
//! or flag).

use vstd::prelude::*;

verus! {

/// The leaf value types an argument can carry.
#[derive(Clone, Copy, Debug, PartialEq, Eq)]
pub enum ArgType {
    String,
    Bool,
}

/// How one field binds into a call: a required positional, an optional
/// positional, or a flag.  `Flag(None)` is a bare boolean switch;
/// `Flag(Some(t))` takes a named value of type `t`.  `Invalid` marks a field
/// whose tags and type do not combine into any of the above.
#[derive(Clone, Copy, Debug, PartialEq, Eq)]
pub enum ArgKind {
    Required(ArgType),
    Optional(ArgType),
    Flag(Option<ArgType>),
    Invalid,
}

/// A declared field type: a leaf type name, optionally wrapped in an
/// "optional" marker meaning the value may be absent.
#[derive(Debug)]
pub struct DeclaredType {
    pub optional: bool,
    pub leaf: String,
}

/// Ghost model of a declared type.
pub ghost struct TypeModel {
    pub optional: bool,
    pub leaf: Seq<char>,
}

impl View for DeclaredType {
    type V = TypeModel;

    open spec fn view(&self) -> TypeModel {
        TypeModel { optional: self.optional, leaf: self.leaf@ }
    }
}

/// One field of a command variant: its name, declared type, role tags, and
/// optional documentation.  A well-formed field carries exactly one role
/// tag, but when several are set the classifier applies the fixed precedence
/// required > optional > flag.
#[derive(Debug)]
pub struct FieldSpec {
    pub name: String,
    pub ty: DeclaredType,
    pub tag_required: bool,
    pub tag_optional: bool,
    pub tag_flag: bool,
    pub usage: Option<String>,
}

/// Ghost model of a field.
pub ghost struct FieldModel {
    pub name: Seq<char>,
    pub ty: TypeModel,
    pub tag_required: bool,
    pub tag_optional: bool,
    pub tag_flag: bool,
    pub usage: Option<Seq<char>>,
}

pub open spec fn opt_string_view(s: Option<String>) -> Option<Seq<char>> {
    match s {
        Option::Some(v) => Option::Some(v@),
        Option::None => Option::None,
    }
}

impl View for FieldSpec {
    type V = FieldModel;

    open spec fn view(&self) -> FieldModel {
        FieldModel {
            name: self.name@,
            ty: self.ty@,
            tag_required: self.tag_required,
            tag_optional: self.tag_optional,
            tag_flag: self.tag_flag,
            usage: opt_string_view(self.usage),
        }
    }
}

/// One invocable command shape: a command name (its unique key in the
/// schema), optional documentation, and an ordered list of fields.  A
/// missing name is a schema error reported at compile time.
#[derive(Debug)]
pub struct VariantSpec {
    pub name: Option<String>,
    pub usage: Option<String>,
    pub fields: Vec<FieldSpec>,
}

/// Ghost model of a command variant.
pub ghost struct VariantModel {
    pub name: Option<Seq<char>>,
    pub usage: Option<Seq<char>>,
    pub fields: Seq<FieldModel>,
}

impl View for VariantSpec {
    type V = VariantModel;

    open spec fn view(&self) -> VariantModel {
        VariantModel {
            name: opt_string_view(self.name),
            usage: opt_string_view(self.usage),
            fields: self.fields@.map_values(|f: FieldSpec| f@),
        }
    }
}

/// A compile-time schema error.  Compilation collects every error it finds
/// and refuses to produce artifacts when any exist.
#[derive(Clone, Debug, PartialEq, Eq)]
pub enum SchemaError {
    /// The field's leaf type is not a supported argument type.
    UnsupportedType { field: String },
    /// A required field's type must not be optional-wrapped.
    RequiredOptionalWrapped { field: String },
    /// An optional field's type must be optional-wrapped.
    OptionalNotWrapped { field: String },
    /// A flag field's type must be boolean or optional-wrapped.
    FlagBadType { field: String },
    /// The field carries no role tag at all.
    MissingRoleTag { field: String },
    /// A required field was declared after an optional or flag field.
    OrderingViolation { field: String },
    /// The variant has no command name.
    MissingCommandName,
    /// Two variants declare the same command name.
    DuplicateCommandName { name: String },
}

/// Ghost model of a schema error.
pub ghost enum SchemaErrorModel {
    UnsupportedType { field: Seq<char> },
    RequiredOptionalWrapped { field: Seq<char> },
    OptionalNotWrapped { field: Seq<char> },
    FlagBadType { field: Seq<char> },
    MissingRoleTag { field: Seq<char> },
    OrderingViolation { field: Seq<char> },
    MissingCommandName,
    DuplicateCommandName { name: Seq<char> },
}

impl View for SchemaError {
    type V = SchemaErrorModel;

    open spec fn view(&self) -> SchemaErrorModel {
        match self {
            SchemaError::UnsupportedType { field } => SchemaErrorModel::UnsupportedType { field: field@ },
            SchemaError::RequiredOptionalWrapped { field } => SchemaErrorModel::RequiredOptionalWrapped { field: field@ },
            SchemaError::OptionalNotWrapped { field } => SchemaErrorModel::OptionalNotWrapped { field: field@ },
            SchemaError::FlagBadType { field } => SchemaErrorModel::FlagBadType { field: field@ },
            SchemaError::MissingRoleTag { field } => SchemaErrorModel::MissingRoleTag { field: field@ },
            SchemaError::OrderingViolation { field } => SchemaErrorModel::OrderingViolation { field: field@ },
            SchemaError::MissingCommandName => SchemaErrorModel::MissingCommandName,
            SchemaError::DuplicateCommandName { name } => SchemaErrorModel::DuplicateCommandName { name: name@ },
        }
    }
}

/// What a leaf type name resolves to: `String` and `bool` are the supported
/// argument types; anything else is a resolution failure.
pub open spec fn leaf_arg_type(leaf: Seq<char>) -> Option<ArgType> {
    if leaf == "String"@ {
        Option::Some(ArgType::String)
    } else if leaf == "bool"@ {
        Option::Some(ArgType::Bool)
    } else {
        Option::None
    }
}

/// What a declared type resolves to: `Required` of its leaf type when it is
/// not optional-wrapped, `Optional` of the inner leaf type when it is, and
/// `None` when the leaf type is unsupported.
pub open spec fn resolved_kind(ty: TypeModel) -> Option<ArgKind> {
    match leaf_arg_type(ty.leaf) {
        Option::None => Option::None,
        Option::Some(t) => Option::Some(
            if ty.optional {
                ArgKind::Optional(t)
            } else {
                ArgKind::Required(t)
            },
        ),
    }
}

/// The classifier's rule, over the field model.  Role tags are checked in
/// the fixed precedence required > optional > flag: the first tag present
/// decides the role, whatever other tags the field also carries.
pub open spec fn classified(f: FieldModel) -> Result<ArgKind, SchemaErrorModel> {
    if f.tag_required {
        match resolved_kind(f.ty) {
            Option::None => Result::Err(SchemaErrorModel::UnsupportedType { field: f.name }),
            Option::Some(ArgKind::Required(t)) => Result::Ok(ArgKind::Required(t)),
            Option::Some(_) => Result::Err(SchemaErrorModel::RequiredOptionalWrapped { field: f.name }),
        }
    } else if f.tag_optional {
        match resolved_kind(f.ty) {
            Option::None => Result::Err(SchemaErrorModel::UnsupportedType { field: f.name }),
            Option::Some(ArgKind::Optional(t)) => Result::Ok(ArgKind::Optional(t)),
            Option::Some(_) => Result::Err(SchemaErrorModel::OptionalNotWrapped { field: f.name }),
        }
    } else if f.tag_flag {
        match resolved_kind(f.ty) {
            Option::None => Result::Err(SchemaErrorModel::UnsupportedType { field: f.name }),
            Option::Some(ArgKind::Optional(t)) => Result::Ok(ArgKind::Flag(Option::Some(t))),
            Option::Some(ArgKind::Required(ArgType::Bool)) => Result::Ok(ArgKind::Flag(Option::None)),
            Option::Some(_) => Result::Err(SchemaErrorModel::FlagBadType { field: f.name }),
        }
    } else {
        Result::Err(SchemaErrorModel::MissingRoleTag { field: f.name })
    }
}

/// View of a classification result, for stating contracts.
pub open spec fn kind_result_view(r: Result<ArgKind, SchemaError>) -> Result<ArgKind, SchemaErrorModel> {
    match r {
        Result::Ok(k) => Result::Ok(k),
        Result::Err(e) => Result::Err(e@),
    }
}

impl ArgType {
    /// Resolves a declared type's leaf name to an argument type:
    /// `String` names the string type and `bool` the boolean type; any
    /// other leaf name is unsupported.
    pub fn from_type(ty: &DeclaredType) -> (r: Option<ArgType>)
        ensures
            r == leaf_arg_type(ty.leaf@),
    {
        if ty.leaf == "String".to_owned() {
            Option::Some(ArgType::String)
        } else if ty.leaf == "bool".to_owned() {
            Option::Some(ArgType::Bool)
        } else {
            Option::None
        }
    }
}

impl ArgKind {
    /// Resolves a declared type to `Required` or `Optional` of its leaf
    /// argument type, or `None` when the leaf type is unsupported.
    pub fn from_type(ty: &DeclaredType) -> (r: Option<ArgKind>)
        ensures
            r == resolved_kind(ty@),
    {
        match ArgType::from_type(ty) {
            Option::None => Option::None,
            Option::Some(t) => Option::Some(
                if ty.optional {
                    ArgKind::Optional(t)
                } else {
                    ArgKind::Required(t)
                },
            ),
        }
    }

    /// Classifies a field into its argument kind, or reports why it cannot
    /// be classified.  Role tags are checked in the fixed precedence
    /// required > optional > flag; the first tag present wins.
    pub fn from_field(f: &FieldSpec) -> (r: Result<ArgKind, SchemaError>)
        ensures
            kind_result_view(r) == classified(f@),
    {
        if f.tag_required {
            match ArgKind::from_type(&f.ty) {
                Option::None => Result::Err(SchemaError::UnsupportedType { field: f.name.clone() }),
                Option::Some(ArgKind::Required(t)) => Result::Ok(ArgKind::Required(t)),
                Option::Some(_) => Result::Err(
                    SchemaError::RequiredOptionalWrapped { field: f.name.clone() },
                ),
            }
        } else if f.tag_optional {
            match ArgKind::from_type(&f.ty) {
                Option::None => Result::Err(SchemaError::UnsupportedType { field: f.name.clone() }),
                Option::Some(ArgKind::Optional(t)) => Result::Ok(ArgKind::Optional(t)),
                Option::Some(_) => Result::Err(
                    SchemaError::OptionalNotWrapped { field: f.name.clone() },
                ),
            }
        } else if f.tag_flag {
            match ArgKind::from_type(&f.ty) {
                Option::None => Result::Err(SchemaError::UnsupportedType { field: f.name.clone() }),
                Option::Some(ArgKind::Optional(t)) => Result::Ok(ArgKind::Flag(Option::Some(t))),
                Option::Some(ArgKind::Required(ArgType::Bool)) => Result::Ok(
                    ArgKind::Flag(Option::None),
                ),
                Option::Some(_) => Result::Err(SchemaError::FlagBadType { field: f.name.clone() }),
            }
        } else {
            Result::Err(SchemaError::MissingRoleTag { field: f.name.clone() })
        }
    }
}

/// One classified argument: the field's name, its argument kind, and its
/// documentation.
#[derive(Debug)]
pub struct Arg {
    pub name: String,
    pub kind: ArgKind,
    pub usage: Option<String>,
}

/// Ghost model of a classified argument.
pub ghost struct ArgModel {
    pub name: Seq<char>,
    pub kind: ArgKind,
    pub usage: Option<Seq<char>>,
}

impl View for Arg {
    type V = ArgModel;

    open spec fn view(&self) -> ArgModel {
        ArgModel { name: self.name@, kind: self.kind, usage: opt_string_view(self.usage) }
    }
}

/// Clones an optional string, keeping its characters.
pub fn clone_opt_string(s: &Option<String>) -> (r: Option<String>)
    ensures
        opt_string_view(r) == opt_string_view(*s),
{
    match s {
        Option::Some(v) => Option::Some(v.clone()),
        Option::None => Option::None,
    }
}

impl Arg {
    /// Classifies a field and pairs the resulting argument kind with the
    /// field's name and documentation.
    pub fn from_field(f: &FieldSpec) -> (r: Result<Arg, SchemaError>)
        ensures
            match r {
                Result::Ok(a) => classified(f@) == Result::<ArgKind, SchemaErrorModel>::Ok(a.kind)
                    && a@.name == f@.name && a@.usage == f@.usage,
                Result::Err(e) => classified(f@) == Result::<ArgKind, SchemaErrorModel>::Err(e@),
            },
    {
        match ArgKind::from_field(f) {
            Result::Ok(kind) => Result::Ok(
                Arg { name: f.name.clone(), kind, usage: clone_opt_string(&f.usage) },
            ),
            Result::Err(e) => Result::Err(e),
        }
    }
}

} // verus!

