//! The call-binding entry point: converts an incoming call — a command
//! name, ordered positional values, and named flag values — back into typed
//! command data, through the binding table the compiler produced.
//!
//! Call errors are per-call and recoverable: an unknown command name, a
//! missing required positional value, or a value failing its type check.
//! The first error found ends the call; later calls are unaffected.

use vstd::prelude::*;
use crate::compile::BindOp;
use crate::compile::BindingModel;
use crate::compile::CompiledSchema;
use crate::compile::CompiledModel;
use crate::compile::StepModel;
use crate::schema::ArgType;

verus! {

/// A raw value supplied by a call.
#[derive(Clone, Debug, PartialEq, Eq)]
pub enum RawValue {
    Str(String),
    Bool(bool),
}

/// Ghost model of a raw value.
pub ghost enum RawModel {
    Str(Seq<char>),
    Bool(bool),
}

impl View for RawValue {
    type V = RawModel;

    open spec fn view(&self) -> RawModel {
        match self {
            RawValue::Str(s) => RawModel::Str(s@),
            RawValue::Bool(b) => RawModel::Bool(*b),
        }
    }
}

/// A named flag supplied by a call: present with a value, or bare
/// (presence only).
#[derive(Debug)]
pub struct FlagInput {
    pub name: String,
    pub value: Option<RawValue>,
}

/// Ghost model of a supplied flag.
pub ghost struct FlagModel {
    pub name: Seq<char>,
    pub value: Option<RawModel>,
}

pub open spec fn opt_raw_view(v: Option<RawValue>) -> Option<RawModel> {
    match v {
        Option::Some(r) => Option::Some(r@),
        Option::None => Option::None,
    }
}

impl View for FlagInput {
    type V = FlagModel;

    open spec fn view(&self) -> FlagModel {
        FlagModel { name: self.name@, value: opt_raw_view(self.value) }
    }
}

/// One typed bound value: a required value, or an optional one that may be
/// absent.
#[derive(Clone, Debug, PartialEq, Eq)]
pub enum BoundValue {
    Str(String),
    Bool(bool),
    MaybeStr(Option<String>),
    MaybeBool(Option<bool>),
}

/// Ghost model of a bound value.
pub ghost enum BoundModel {
    Str(Seq<char>),
    Bool(bool),
    MaybeStr(Option<Seq<char>>),
    MaybeBool(Option<bool>),
}

impl View for BoundValue {
    type V = BoundModel;

    open spec fn view(&self) -> BoundModel {
        match self {
            BoundValue::Str(s) => BoundModel::Str(s@),
            BoundValue::Bool(b) => BoundModel::Bool(*b),
            BoundValue::MaybeStr(s) => BoundModel::MaybeStr(crate::schema::opt_string_view(*s)),
            BoundValue::MaybeBool(b) => BoundModel::MaybeBool(*b),
        }
    }
}

/// One bound argument: the field's name and its typed value.
#[derive(Debug)]
pub struct BoundArg {
    pub name: String,
    pub value: BoundValue,
}

/// Ghost model of a bound argument.
pub ghost struct BoundArgModel {
    pub name: Seq<char>,
    pub value: BoundModel,
}

impl View for BoundArg {
    type V = BoundArgModel;

    open spec fn view(&self) -> BoundArgModel {
        BoundArgModel { name: self.name@, value: self.value@ }
    }
}

/// A typed command value: the command's name and its bound arguments, one
/// per field of the variant, in declaration order.
#[derive(Debug)]
pub struct ParsedCall {
    pub name: String,
    pub args: Vec<BoundArg>,
}

/// Ghost model of a typed command value.
pub ghost struct ParsedModel {
    pub name: Seq<char>,
    pub args: Seq<BoundArgModel>,
}

impl View for ParsedCall {
    type V = ParsedModel;

    open spec fn view(&self) -> ParsedModel {
        ParsedModel { name: self.name@, args: bound_args_view(self.args@) }
    }
}

/// A per-call, recoverable error.
#[derive(Clone, Debug, PartialEq, Eq)]
pub enum CallError {
    /// The call names no variant of the schema.
    UnknownCommandName,
    /// A required positional value was not supplied.
    MissingRequiredPositional { field: String },
    /// A positional value does not have the declared type.
    PositionalTypeMismatch { field: String },
    /// A flag value does not have the declared type, or a value-carrying
    /// flag was supplied bare.
    FlagTypeMismatch { field: String },
}

/// Ghost model of a call error.
pub ghost enum CallErrorModel {
    UnknownCommandName,
    MissingRequiredPositional { field: Seq<char> },
    PositionalTypeMismatch { field: Seq<char> },
    FlagTypeMismatch { field: Seq<char> },
}

impl View for CallError {
    type V = CallErrorModel;

    open spec fn view(&self) -> CallErrorModel {
        match self {
            CallError::UnknownCommandName => CallErrorModel::UnknownCommandName,
            CallError::MissingRequiredPositional { field } => CallErrorModel::MissingRequiredPositional { field: field@ },
            CallError::PositionalTypeMismatch { field } => CallErrorModel::PositionalTypeMismatch { field: field@ },
            CallError::FlagTypeMismatch { field } => CallErrorModel::FlagTypeMismatch { field: field@ },
        }
    }
}

impl CallError {
    /// A short label for the error, for the host to show.
    pub fn label(&self) -> (r: String)
        ensures
            match self {
                CallError::UnknownCommandName => r@ == "unknown command name"@,
                CallError::MissingRequiredPositional { .. } => r@
                    == "missing required positional value"@,
                CallError::PositionalTypeMismatch { .. } => r@
                    == "positional value failing type-check"@,
                CallError::FlagTypeMismatch { .. } => r@ == "flag value failing type-check"@,
            },
    {
        match self {
            CallError::UnknownCommandName => "unknown command name".to_owned(),
            CallError::MissingRequiredPositional { .. } => "missing required positional value".to_owned(),
            CallError::PositionalTypeMismatch { .. } => "positional value failing type-check".to_owned(),
            CallError::FlagTypeMismatch { .. } => "flag value failing type-check".to_owned(),
        }
    }
}

// Named views of the vectors the parser reads and builds.

pub open spec fn raws_view(s: Seq<RawValue>) -> Seq<RawModel> {
    s.map_values(|v: RawValue| v@)
}

pub open spec fn flags_view(s: Seq<FlagInput>) -> Seq<FlagModel> {
    s.map_values(|f: FlagInput| f@)
}

pub open spec fn bound_args_view(s: Seq<BoundArg>) -> Seq<BoundArgModel> {
    s.map_values(|a: BoundArg| a@)
}

proof fn lemma_bound_args_view_push(s: Seq<BoundArg>, x: BoundArg)
    ensures
        bound_args_view(s.push(x)) == bound_args_view(s).push(x@),
{
    assert(bound_args_view(s.push(x)) =~= bound_args_view(s).push(x@));
}

/// The value of the first supplied flag with the given name, if any:
/// `None` when the flag is absent, `Some(None)` when it was supplied bare,
/// `Some(Some(v))` when it was supplied with value `v`.
pub open spec fn flag_value_from(flags: Seq<FlagModel>, name: Seq<char>, k: int) -> Option<
    Option<RawModel>,
>
    decreases flags.len() - k,
{
    if k < 0 || k >= flags.len() {
        Option::None
    } else if flags[k].name == name {
        Option::Some(flags[k].value)
    } else {
        flag_value_from(flags, name, k + 1)
    }
}

pub open spec fn flag_value(flags: Seq<FlagModel>, name: Seq<char>) -> Option<Option<RawModel>> {
    flag_value_from(flags, name, 0)
}

/// What one binding step yields against a call's values.
pub open spec fn step_bound(step: StepModel, pos: Seq<RawModel>, flags: Seq<FlagModel>) -> Result<
    BoundModel,
    CallErrorModel,
> {
    match step.op {
        BindOp::ReqPositional { ty, index } => if index < pos.len() {
            match (ty, pos[index as int]) {
                (ArgType::String, RawModel::Str(s)) => Result::Ok(BoundModel::Str(s)),
                (ArgType::Bool, RawModel::Bool(b)) => Result::Ok(BoundModel::Bool(b)),
                _ => Result::Err(CallErrorModel::PositionalTypeMismatch { field: step.field }),
            }
        } else {
            Result::Err(CallErrorModel::MissingRequiredPositional { field: step.field })
        },
        BindOp::OptPositional { ty, index } => if index < pos.len() {
            match (ty, pos[index as int]) {
                (ArgType::String, RawModel::Str(s)) => Result::Ok(
                    BoundModel::MaybeStr(Option::Some(s)),
                ),
                (ArgType::Bool, RawModel::Bool(b)) => Result::Ok(
                    BoundModel::MaybeBool(Option::Some(b)),
                ),
                _ => Result::Err(CallErrorModel::PositionalTypeMismatch { field: step.field }),
            }
        } else {
            match ty {
                ArgType::String => Result::Ok(BoundModel::MaybeStr(Option::None)),
                ArgType::Bool => Result::Ok(BoundModel::MaybeBool(Option::None)),
            }
        },
        BindOp::Switch => match flag_value(flags, step.field) {
            Option::None => Result::Ok(BoundModel::Bool(false)),
            Option::Some(Option::None) => Result::Ok(BoundModel::Bool(true)),
            Option::Some(Option::Some(RawModel::Bool(b))) => Result::Ok(BoundModel::Bool(b)),
            Option::Some(Option::Some(RawModel::Str(_))) => Result::Err(
                CallErrorModel::FlagTypeMismatch { field: step.field },
            ),
        },
        BindOp::NamedValue { ty } => match flag_value(flags, step.field) {
            Option::None => match ty {
                ArgType::String => Result::Ok(BoundModel::MaybeStr(Option::None)),
                ArgType::Bool => Result::Ok(BoundModel::MaybeBool(Option::None)),
            },
            Option::Some(Option::Some(v)) => match (ty, v) {
                (ArgType::String, RawModel::Str(s)) => Result::Ok(
                    BoundModel::MaybeStr(Option::Some(s)),
                ),
                (ArgType::Bool, RawModel::Bool(b)) => Result::Ok(
                    BoundModel::MaybeBool(Option::Some(b)),
                ),
                _ => Result::Err(CallErrorModel::FlagTypeMismatch { field: step.field }),
            },
            Option::Some(Option::None) => Result::Err(
                CallErrorModel::FlagTypeMismatch { field: step.field },
            ),
        },
    }
}

/// What the first `n` binding steps yield: the bound arguments in step
/// order, or the first error found.
pub open spec fn bind_steps(
    steps: Seq<StepModel>,
    pos: Seq<RawModel>,
    flags: Seq<FlagModel>,
    n: int,
) -> Result<Seq<BoundArgModel>, CallErrorModel>
    decreases n,
{
    if n <= 0 {
        Result::Ok(Seq::empty())
    } else {
        match bind_steps(steps, pos, flags, n - 1) {
            Result::Err(e) => Result::Err(e),
            Result::Ok(sofar) => match step_bound(steps[n - 1], pos, flags) {
                Result::Err(e) => Result::Err(e),
                Result::Ok(v) => Result::Ok(
                    sofar.push(BoundArgModel { name: steps[n - 1].field, value: v }),
                ),
            },
        }
    }
}

/// Once some prefix of the steps has failed, every longer prefix fails the
/// same way: the first error wins.
proof fn lemma_bind_error_persists(
    steps: Seq<StepModel>,
    pos: Seq<RawModel>,
    flags: Seq<FlagModel>,
    n0: int,
    n: int,
)
    requires
        0 <= n0 <= n,
        bind_steps(steps, pos, flags, n0) is Err,
    ensures
        bind_steps(steps, pos, flags, n) == bind_steps(steps, pos, flags, n0),
    decreases n - n0,
{
    if n > n0 {
        lemma_bind_error_persists(steps, pos, flags, n0, n - 1);
    }
}

/// The first binding whose command name matches, if any, searching from
/// position `k`.
pub open spec fn binding_lookup_from(bindings: Seq<BindingModel>, name: Seq<char>, k: int) -> Option<
    BindingModel,
>
    decreases bindings.len() - k,
{
    if k < 0 || k >= bindings.len() {
        Option::None
    } else if bindings[k].name == name {
        Option::Some(bindings[k])
    } else {
        binding_lookup_from(bindings, name, k + 1)
    }
}

pub open spec fn binding_lookup(bindings: Seq<BindingModel>, name: Seq<char>) -> Option<
    BindingModel,
> {
    binding_lookup_from(bindings, name, 0)
}

/// What parsing a call yields: the typed command value bound by the named
/// variant's steps, `UnknownCommandName` when the call names no variant,
/// or the first binding error.
pub open spec fn parse_spec(
    c: CompiledModel,
    name: Seq<char>,
    pos: Seq<RawModel>,
    flags: Seq<FlagModel>,
) -> Result<ParsedModel, CallErrorModel> {
    match binding_lookup(c.bindings, name) {
        Option::None => Result::Err(CallErrorModel::UnknownCommandName),
        Option::Some(b) => match bind_steps(b.steps, pos, flags, b.steps.len() as int) {
            Result::Err(e) => Result::Err(e),
            Result::Ok(args) => Result::Ok(ParsedModel { name: name, args }),
        },
    }
}

/// View of a parse result, for stating contracts.
pub open spec fn parse_result_view(r: Result<ParsedCall, CallError>) -> Result<
    ParsedModel,
    CallErrorModel,
> {
    match r {
        Result::Ok(p) => Result::Ok(p@),
        Result::Err(e) => Result::Err(e@),
    }
}

/// Copies a raw value, keeping its content.
pub fn clone_raw(v: &RawValue) -> (r: RawValue)
    ensures
        r@ == v@,
{
    match v {
        RawValue::Str(s) => RawValue::Str(s.clone()),
        RawValue::Bool(b) => RawValue::Bool(*b),
    }
}

/// Looks a supplied flag up by name: the first occurrence wins.
fn lookup_flag(flags: &Vec<FlagInput>, name: &String) -> (r: Option<Option<RawValue>>)
    ensures
        match r {
            Option::None => flag_value(flags_view(flags@), name@) is None,
            Option::Some(v) => flag_value(flags_view(flags@), name@) == Option::Some(
                opt_raw_view(v),
            ),
        },
{
    let ghost fm = flags_view(flags@);
    let mut k: usize = 0;
    while k < flags.len()
        invariant
            k <= flags@.len(),
            fm == flags_view(flags@),
            fm.len() == flags@.len(),
            flag_value_from(fm, name@, 0) == flag_value_from(fm, name@, k as int),
        decreases flags@.len() - k,
    {
        proof {
            assert(fm[k as int] == flags@[k as int]@);
        }
        if flags[k].name == *name {
            let f = &flags[k];
            match &f.value {
                Option::Some(v) => {
                    return Option::Some(Option::Some(clone_raw(v)));
                },
                Option::None => {
                    return Option::Some(Option::None);
                },
            }
        }
        k += 1;
    }
    Option::None
}

/// Finds the first binding whose command name matches, if any.
fn lookup_binding(bindings: &Vec<crate::compile::VariantBinding>, name: &String) -> (r: Option<
    usize,
>)
    ensures
        match r {
            Option::Some(bi) => bi < bindings@.len() && binding_lookup(
                crate::compile::bindings_view(bindings@),
                name@,
            ) == Option::Some(bindings@[bi as int]@),
            Option::None => binding_lookup(crate::compile::bindings_view(bindings@), name@)
                is None,
        },
{
    let ghost bm = crate::compile::bindings_view(bindings@);
    let mut bi: usize = 0;
    while bi < bindings.len()
        invariant
            bi <= bindings@.len(),
            bm == crate::compile::bindings_view(bindings@),
            bm.len() == bindings@.len(),
            binding_lookup_from(bm, name@, 0) == binding_lookup_from(bm, name@, bi as int),
        decreases bindings@.len() - bi,
    {
        proof {
            assert(bm[bi as int] == bindings@[bi as int]@);
        }
        if bindings[bi].name == *name {
            return Option::Some(bi);
        }
        bi += 1;
    }
    Option::None
}

/// Parses one call against the compiled schema: finds the variant the name
/// dispatches to and binds every argument, or reports the call error.
pub fn parse(
    schema: &CompiledSchema,
    name: &String,
    positional: &Vec<RawValue>,
    flags: &Vec<FlagInput>,
) -> (r: Result<ParsedCall, CallError>)
    ensures
        parse_result_view(r) == parse_spec(
            schema@,
            name@,
            raws_view(positional@),
            flags_view(flags@),
        ),
{
    let ghost bm = schema@.bindings;
    let ghost pm = raws_view(positional@);
    let ghost fm = flags_view(flags@);

    // Dispatch: find the binding for the requested command name.
    let bi = match lookup_binding(&schema.bindings, name) {
        Option::Some(bi) => bi,
        Option::None => {
            return Result::Err(CallError::UnknownCommandName);
        },
    };

    let binding = &schema.bindings[bi];
    proof {
        assert(binding_lookup(bm, name@) == Option::Some(binding@));
    }

    // Bind every step in order; the first error ends the call.
    let ghost sm = binding@.steps;
    let mut args: Vec<BoundArg> = Vec::new();
    let mut i: usize = 0;
    proof {
        assert(bound_args_view(Seq::<BoundArg>::empty()) =~= Seq::<BoundArgModel>::empty());
    }
    while i < binding.steps.len()
        invariant
            i <= binding.steps@.len(),
            sm == binding@.steps,
            sm.len() == binding.steps@.len(),
            pm == raws_view(positional@),
            pm.len() == positional@.len(),
            fm == flags_view(flags@),
            bm == schema@.bindings,
            binding_lookup(bm, name@) == Option::Some(binding@),
            bind_steps(sm, pm, fm, i as int) == Result::<
                Seq<BoundArgModel>,
                CallErrorModel,
            >::Ok(bound_args_view(args@)),
        decreases binding.steps@.len() - i,
    {
        let step = &binding.steps[i];
        proof {
            assert(sm[i as int] == step@);
        }
        let bound: Result<BoundValue, CallError> = match &step.op {
            BindOp::ReqPositional { ty, index } => {
                if *index < positional.len() {
                    proof {
                        assert(pm[*index as int] == positional@[*index as int]@);
                    }
                    match (ty, &positional[*index]) {
                        (ArgType::String, RawValue::Str(s)) => Result::Ok(
                            BoundValue::Str(s.clone()),
                        ),
                        (ArgType::Bool, RawValue::Bool(b)) => Result::Ok(BoundValue::Bool(*b)),
                        _ => Result::Err(
                            CallError::PositionalTypeMismatch { field: step.field.clone() },
                        ),
                    }
                } else {
                    Result::Err(
                        CallError::MissingRequiredPositional { field: step.field.clone() },
                    )
                }
            },
            BindOp::OptPositional { ty, index } => {
                if *index < positional.len() {
                    proof {
                        assert(pm[*index as int] == positional@[*index as int]@);
                    }
                    match (ty, &positional[*index]) {
                        (ArgType::String, RawValue::Str(s)) => Result::Ok(
                            BoundValue::MaybeStr(Option::Some(s.clone())),
                        ),
                        (ArgType::Bool, RawValue::Bool(b)) => Result::Ok(
                            BoundValue::MaybeBool(Option::Some(*b)),
                        ),
                        _ => Result::Err(
                            CallError::PositionalTypeMismatch { field: step.field.clone() },
                        ),
                    }
                } else {
                    match ty {
                        ArgType::String => Result::Ok(BoundValue::MaybeStr(Option::None)),
                        ArgType::Bool => Result::Ok(BoundValue::MaybeBool(Option::None)),
                    }
                }
            },
            BindOp::Switch => match lookup_flag(flags, &step.field) {
                Option::None => Result::Ok(BoundValue::Bool(false)),
                Option::Some(Option::None) => Result::Ok(BoundValue::Bool(true)),
                Option::Some(Option::Some(RawValue::Bool(b))) => Result::Ok(BoundValue::Bool(b)),
                Option::Some(Option::Some(RawValue::Str(_))) => Result::Err(
                    CallError::FlagTypeMismatch { field: step.field.clone() },
                ),
            },
            BindOp::NamedValue { ty } => match lookup_flag(flags, &step.field) {
                Option::None => match ty {
                    ArgType::String => Result::Ok(BoundValue::MaybeStr(Option::None)),
                    ArgType::Bool => Result::Ok(BoundValue::MaybeBool(Option::None)),
                },
                Option::Some(Option::Some(v)) => match (ty, v) {
                    (ArgType::String, RawValue::Str(s)) => Result::Ok(
                        BoundValue::MaybeStr(Option::Some(s)),
                    ),
                    (ArgType::Bool, RawValue::Bool(b)) => Result::Ok(
                        BoundValue::MaybeBool(Option::Some(b)),
                    ),
                    _ => Result::Err(CallError::FlagTypeMismatch { field: step.field.clone() }),
                },
                Option::Some(Option::None) => Result::Err(
                    CallError::FlagTypeMismatch { field: step.field.clone() },
                ),
            },
        };
        match bound {
            Result::Err(e) => {
                proof {
                    assert(bind_steps(sm, pm, fm, i + 1) == Result::<
                        Seq<BoundArgModel>,
                        CallErrorModel,
                    >::Err(e@));
                    lemma_bind_error_persists(sm, pm, fm, i + 1, sm.len() as int);
                }
                return Result::Err(e);
            },
            Result::Ok(v) => {
                let a = BoundArg { name: step.field.clone(), value: v };
                proof {
                    lemma_bound_args_view_push(args@, a);
                }
                args.push(a);
            },
        }
        i += 1;
    }

    Result::Ok(ParsedCall { name: name.clone(), args })
}

} // verus!
