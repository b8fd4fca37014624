//! Host-facing signature descriptors: the metadata a host process uses to
//! register, validate and document the compiled command set.

use vstd::prelude::*;
use crate::schema::ArgType;
use crate::schema::opt_string_view;

verus! {

/// The shape of one parameter, as shown to the host.
#[derive(Clone, Copy, Debug, PartialEq, Eq)]
pub enum ParamShape {
    String,
    Boolean,
}

/// The role a parameter plays in a call.
#[derive(Clone, Copy, Debug, PartialEq, Eq)]
pub enum ParamRole {
    RequiredPositional,
    OptionalPositional,
    Switch,
    NamedValueFlag,
}

/// The parameter shape that presents an argument type.
pub open spec fn shape_of(t: ArgType) -> ParamShape {
    match t {
        ArgType::String => ParamShape::String,
        ArgType::Bool => ParamShape::Boolean,
    }
}

impl ParamShape {
    /// The shape that presents the given argument type: strings as
    /// `String`, booleans as `Boolean`.
    pub fn from_arg_type(t: ArgType) -> (r: ParamShape)
        ensures
            r == shape_of(t),
    {
        match t {
            ArgType::String => ParamShape::String,
            ArgType::Bool => ParamShape::Boolean,
        }
    }
}

/// One parameter of a command signature.
#[derive(Debug)]
pub struct ParamDescriptor {
    pub name: String,
    pub shape: ParamShape,
    pub usage: String,
    pub role: ParamRole,
}

/// Ghost model of a parameter descriptor.
pub ghost struct ParamModel {
    pub name: Seq<char>,
    pub shape: ParamShape,
    pub usage: Seq<char>,
    pub role: ParamRole,
}

impl View for ParamDescriptor {
    type V = ParamModel;

    open spec fn view(&self) -> ParamModel {
        ParamModel { name: self.name@, shape: self.shape, usage: self.usage@, role: self.role }
    }
}

/// One command's host-facing signature: its name, documentation, and
/// ordered parameter list.
#[derive(Debug)]
pub struct SignatureDescriptor {
    pub name: String,
    pub usage: String,
    pub params: Vec<ParamDescriptor>,
}

/// Ghost model of a signature descriptor.
pub ghost struct SignatureModel {
    pub name: Seq<char>,
    pub usage: Seq<char>,
    pub params: Seq<ParamModel>,
}

impl View for SignatureDescriptor {
    type V = SignatureModel;

    open spec fn view(&self) -> SignatureModel {
        SignatureModel {
            name: self.name@,
            usage: self.usage@,
            params: self.params@.map_values(|p: ParamDescriptor| p@),
        }
    }
}

/// Documentation text, with absence presented as the empty string.
pub open spec fn usage_text(u: Option<Seq<char>>) -> Seq<char> {
    match u {
        Option::Some(s) => s,
        Option::None => Seq::<char>::empty(),
    }
}

/// Copies an optional documentation string, presenting absence as the
/// empty string.
pub fn usage_or_empty(u: &Option<String>) -> (r: String)
    ensures
        r@ == usage_text(opt_string_view(*u)),
{
    match u {
        Option::Some(s) => s.clone(),
        Option::None => String::new(),
    }
}

} // verus!
