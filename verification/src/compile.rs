//! The schema compiler: walks each command variant's fields in declaration
//! order, builds its signature descriptor and its call-binding steps, and
//! aggregates all variants into the final compiled schema.
//!
//! Compilation enforces the schema invariants: every field classifies to a
//! valid argument kind, required positionals precede optional positionals
//! and flags, every variant has a command name, and command names are unique
//! across the schema.  Every error found is collected and reported; when any
//! exists, no artifacts are produced.

use vstd::prelude::*;
use crate::schema::ArgKind;
use crate::schema::ArgType;
use crate::schema::FieldModel;
use crate::schema::SchemaError;
use crate::schema::SchemaErrorModel;
use crate::schema::VariantSpec;
use crate::schema::VariantModel;
use crate::schema::classified;
use crate::schema::kind_result_view;
use crate::descriptor::ParamDescriptor;
use crate::descriptor::ParamModel;
use crate::descriptor::ParamRole;
use crate::descriptor::ParamShape;
use crate::descriptor::SignatureDescriptor;
use crate::descriptor::SignatureModel;
use crate::descriptor::shape_of;
use crate::descriptor::usage_or_empty;
use crate::descriptor::usage_text;

verus! {

/// One call-binding operation: how one field reads its value out of an
/// incoming call.
#[derive(Clone, Copy, Debug, PartialEq, Eq)]
pub enum BindOp {
    /// Read the positional value at `index`; its absence fails the call.
    ReqPositional { ty: ArgType, index: usize },
    /// Read the positional value at `index` if present, else bind absent.
    OptPositional { ty: ArgType, index: usize },
    /// Read a boolean flag by the field's name, defaulting to false.
    Switch,
    /// Read an optional named value by the field's name, checked against `ty`.
    NamedValue { ty: ArgType },
}

/// One step of a variant's call binding: a field name and its operation.
#[derive(Debug)]
pub struct BindStep {
    pub field: String,
    pub op: BindOp,
}

/// Ghost model of a binding step.
pub ghost struct StepModel {
    pub field: Seq<char>,
    pub op: BindOp,
}

impl View for BindStep {
    type V = StepModel;

    open spec fn view(&self) -> StepModel {
        StepModel { field: self.field@, op: self.op }
    }
}

/// One variant's call binding: the command name it answers to and the
/// ordered binding steps, one per classified field.
#[derive(Debug)]
pub struct VariantBinding {
    pub name: String,
    pub steps: Vec<BindStep>,
}

/// Ghost model of a variant binding.
pub ghost struct BindingModel {
    pub name: Seq<char>,
    pub steps: Seq<StepModel>,
}

impl View for VariantBinding {
    type V = BindingModel;

    open spec fn view(&self) -> BindingModel {
        BindingModel { name: self.name@, steps: steps_view(self.steps@) }
    }
}

/// A compiled variant: its host-facing signature and its call binding.
#[derive(Debug)]
pub struct CompiledVariant {
    pub signature: SignatureDescriptor,
    pub binding: VariantBinding,
}

/// The compiled schema: the signature list in declaration order, and the
/// binding table the call parser dispatches through, in the same order.
#[derive(Debug)]
pub struct CompiledSchema {
    pub signatures: Vec<SignatureDescriptor>,
    pub bindings: Vec<VariantBinding>,
}

/// Ghost model of a compiled schema.
pub ghost struct CompiledModel {
    pub signatures: Seq<SignatureModel>,
    pub bindings: Seq<BindingModel>,
}

impl View for CompiledSchema {
    type V = CompiledModel;

    open spec fn view(&self) -> CompiledModel {
        CompiledModel {
            signatures: sigs_view(self.signatures@),
            bindings: bindings_view(self.bindings@),
        }
    }
}

// Named views of the vectors the compiler builds, so that contracts and
// loop invariants all speak of one spec-level form.

pub open spec fn params_view(s: Seq<ParamDescriptor>) -> Seq<ParamModel> {
    s.map_values(|p: ParamDescriptor| p@)
}

pub open spec fn steps_view(s: Seq<BindStep>) -> Seq<StepModel> {
    s.map_values(|b: BindStep| b@)
}

pub open spec fn errors_view(s: Seq<SchemaError>) -> Seq<SchemaErrorModel> {
    s.map_values(|e: SchemaError| e@)
}

pub open spec fn sigs_view(s: Seq<SignatureDescriptor>) -> Seq<SignatureModel> {
    s.map_values(|d: SignatureDescriptor| d@)
}

pub open spec fn bindings_view(s: Seq<VariantBinding>) -> Seq<BindingModel> {
    s.map_values(|b: VariantBinding| b@)
}

pub open spec fn names_view(s: Seq<String>) -> Seq<Seq<char>> {
    s.map_values(|n: String| n@)
}

pub open spec fn variants_view(s: Seq<VariantSpec>) -> Seq<VariantModel> {
    s.map_values(|v: VariantSpec| v@)
}

proof fn lemma_params_view_push(s: Seq<ParamDescriptor>, x: ParamDescriptor)
    ensures
        params_view(s.push(x)) == params_view(s).push(x@),
{
    assert(params_view(s.push(x)) =~= params_view(s).push(x@));
}

proof fn lemma_steps_view_push(s: Seq<BindStep>, x: BindStep)
    ensures
        steps_view(s.push(x)) == steps_view(s).push(x@),
{
    assert(steps_view(s.push(x)) =~= steps_view(s).push(x@));
}

proof fn lemma_errors_view_push(s: Seq<SchemaError>, x: SchemaError)
    ensures
        errors_view(s.push(x)) == errors_view(s).push(x@),
{
    assert(errors_view(s.push(x)) =~= errors_view(s).push(x@));
}

proof fn lemma_sigs_view_push(s: Seq<SignatureDescriptor>, x: SignatureDescriptor)
    ensures
        sigs_view(s.push(x)) == sigs_view(s).push(x@),
{
    assert(sigs_view(s.push(x)) =~= sigs_view(s).push(x@));
}

proof fn lemma_bindings_view_push(s: Seq<VariantBinding>, x: VariantBinding)
    ensures
        bindings_view(s.push(x)) == bindings_view(s).push(x@),
{
    assert(bindings_view(s.push(x)) =~= bindings_view(s).push(x@));
}

proof fn lemma_names_view_push(s: Seq<String>, x: String)
    ensures
        names_view(s.push(x)) == names_view(s).push(x@),
{
    assert(names_view(s.push(x)) =~= names_view(s).push(x@));
}

/// The state of the variant compiler after some prefix of the fields.
pub ghost struct VariantState {
    pub params: Seq<ParamModel>,
    pub steps: Seq<StepModel>,
    pub errors: Seq<SchemaErrorModel>,
    pub next_index: int,
    pub seen_non_required: bool,
}

/// The variant compiler's starting state: nothing built, and a missing
/// command name already recorded as an error.
pub open spec fn variant_state_init(v: VariantModel) -> VariantState {
    VariantState {
        params: Seq::empty(),
        steps: Seq::empty(),
        errors: if v.name is None {
            seq![SchemaErrorModel::MissingCommandName]
        } else {
            Seq::empty()
        },
        next_index: 0,
        seen_non_required: false,
    }
}

/// How one field advances the variant compiler: classify it, then either
/// record its error, record an ordering violation (a required positional
/// after an optional or flag field), or append its parameter descriptor and
/// binding step.  A field that errs leaves the positional index and the
/// ordering flag unchanged.
pub open spec fn field_step(st: VariantState, f: FieldModel) -> VariantState {
    match classified(f) {
        Result::Err(e) => VariantState {
            params: st.params,
            steps: st.steps,
            errors: st.errors.push(e),
            next_index: st.next_index,
            seen_non_required: st.seen_non_required,
        },
        Result::Ok(ArgKind::Required(t)) => if st.seen_non_required {
            VariantState {
                params: st.params,
                steps: st.steps,
                errors: st.errors.push(SchemaErrorModel::OrderingViolation { field: f.name }),
                next_index: st.next_index,
                seen_non_required: st.seen_non_required,
            }
        } else {
            VariantState {
                params: st.params.push(
                    ParamModel {
                        name: f.name,
                        shape: shape_of(t),
                        usage: usage_text(f.usage),
                        role: ParamRole::RequiredPositional,
                    },
                ),
                steps: st.steps.push(
                    StepModel {
                        field: f.name,
                        op: BindOp::ReqPositional { ty: t, index: st.next_index as usize },
                    },
                ),
                errors: st.errors,
                next_index: st.next_index + 1,
                seen_non_required: false,
            }
        },
        Result::Ok(ArgKind::Optional(t)) => VariantState {
            params: st.params.push(
                ParamModel {
                    name: f.name,
                    shape: shape_of(t),
                    usage: usage_text(f.usage),
                    role: ParamRole::OptionalPositional,
                },
            ),
            steps: st.steps.push(
                StepModel {
                    field: f.name,
                    op: BindOp::OptPositional { ty: t, index: st.next_index as usize },
                },
            ),
            errors: st.errors,
            next_index: st.next_index + 1,
            seen_non_required: true,
        },
        Result::Ok(ArgKind::Flag(Option::None)) => VariantState {
            params: st.params.push(
                ParamModel {
                    name: f.name,
                    shape: ParamShape::Boolean,
                    usage: usage_text(f.usage),
                    role: ParamRole::Switch,
                },
            ),
            steps: st.steps.push(StepModel { field: f.name, op: BindOp::Switch }),
            errors: st.errors,
            next_index: st.next_index,
            seen_non_required: true,
        },
        Result::Ok(ArgKind::Flag(Option::Some(t))) => VariantState {
            params: st.params.push(
                ParamModel {
                    name: f.name,
                    shape: shape_of(t),
                    usage: usage_text(f.usage),
                    role: ParamRole::NamedValueFlag,
                },
            ),
            steps: st.steps.push(StepModel { field: f.name, op: BindOp::NamedValue { ty: t } }),
            errors: st.errors,
            next_index: st.next_index,
            seen_non_required: true,
        },
        Result::Ok(ArgKind::Invalid) => st,
    }
}

/// The variant compiler's state after the first `n` fields.
pub open spec fn variant_state_at(v: VariantModel, n: int) -> VariantState
    decreases n,
{
    if n <= 0 {
        variant_state_init(v)
    } else {
        field_step(variant_state_at(v, n - 1), v.fields[n - 1])
    }
}

/// What compiling one variant yields: its signature and binding when no
/// error was found, or every error found, in field order.
pub open spec fn compiled_variant(v: VariantModel) -> Result<
    (SignatureModel, BindingModel),
    Seq<SchemaErrorModel>,
> {
    let st = variant_state_at(v, v.fields.len() as int);
    if st.errors.len() == 0 {
        Result::Ok(
            (
                SignatureModel {
                    name: st_name(v),
                    usage: usage_text(v.usage),
                    params: st.params,
                },
                BindingModel { name: st_name(v), steps: st.steps },
            ),
        )
    } else {
        Result::Err(st.errors)
    }
}

/// The variant's command name, where it has one.
pub open spec fn st_name(v: VariantModel) -> Seq<char> {
    match v.name {
        Option::Some(n) => n,
        Option::None => Seq::empty(),
    }
}

/// The positional index never outruns the number of fields walked.
pub proof fn lemma_variant_index_bound(v: VariantModel, n: int)
    requires
        0 <= n,
    ensures
        0 <= variant_state_at(v, n).next_index <= n,
    decreases n,
{
    if n > 0 {
        lemma_variant_index_bound(v, n - 1);
    }
}

/// The error list only grows as fields are walked; in particular a clean
/// run means the variant had a command name.
pub proof fn lemma_variant_errors_grow(v: VariantModel, n: int)
    requires
        0 <= n,
    ensures
        variant_state_at(v, n).errors.len() >= variant_state_init(v).errors.len(),
    decreases n,
{
    if n > 0 {
        lemma_variant_errors_grow(v, n - 1);
    }
}

/// Compiles one command variant: walks its fields in declaration order,
/// building the parameter list and the binding steps, and collecting every
/// schema error found (a missing command name, classification failures, and
/// ordering violations).  Returns the signature and binding only when no
/// error was found.
pub fn compile_variant(v: &VariantSpec) -> (r: Result<CompiledVariant, Vec<SchemaError>>)
    ensures
        match r {
            Result::Ok(cv) => compiled_variant(v@) == Result::<
                (SignatureModel, BindingModel),
                Seq<SchemaErrorModel>,
            >::Ok((cv.signature@, cv.binding@)),
            Result::Err(es) => compiled_variant(v@) == Result::<
                (SignatureModel, BindingModel),
                Seq<SchemaErrorModel>,
            >::Err(errors_view(es@)),
        },
{
    let mut errors: Vec<SchemaError> = Vec::new();
    if v.name.is_none() {
        errors.push(SchemaError::MissingCommandName);
        proof {
            lemma_errors_view_push(Seq::empty(), SchemaError::MissingCommandName);
        }
    }
    let mut params: Vec<ParamDescriptor> = Vec::new();
    let mut steps: Vec<BindStep> = Vec::new();
    let mut next_index: usize = 0;
    let mut seen_non_required: bool = false;
    let mut i: usize = 0;

    assert(errors_view(errors@) == variant_state_at(v@, 0).errors) by {
        assert(errors_view(Seq::<SchemaError>::empty()) =~= Seq::<SchemaErrorModel>::empty());
    }

    while i < v.fields.len()
        invariant
            i <= v.fields@.len(),
            v@.fields.len() == v.fields@.len(),
            params_view(params@) == variant_state_at(v@, i as int).params,
            steps_view(steps@) == variant_state_at(v@, i as int).steps,
            errors_view(errors@) == variant_state_at(v@, i as int).errors,
            next_index as int == variant_state_at(v@, i as int).next_index,
            seen_non_required == variant_state_at(v@, i as int).seen_non_required,
        decreases v.fields@.len() - i,
    {
        let ghost st = variant_state_at(v@, i as int);
        let f = &v.fields[i];
        proof {
            assert(v@.fields[i as int] == f@);
            lemma_variant_index_bound(v@, i as int);
        }
        match ArgKind::from_field(f) {
            Result::Err(e) => {
                proof {
                    lemma_errors_view_push(errors@, e);
                }
                errors.push(e);
            },
            Result::Ok(kind) => match kind {
                ArgKind::Required(t) => {
                    if seen_non_required {
                        let e = SchemaError::OrderingViolation { field: f.name.clone() };
                        proof {
                            lemma_errors_view_push(errors@, e);
                        }
                        errors.push(e);
                    } else {
                        let p = ParamDescriptor {
                            name: f.name.clone(),
                            shape: ParamShape::from_arg_type(t),
                            usage: usage_or_empty(&f.usage),
                            role: ParamRole::RequiredPositional,
                        };
                        let s = BindStep {
                            field: f.name.clone(),
                            op: BindOp::ReqPositional { ty: t, index: next_index },
                        };
                        proof {
                            lemma_params_view_push(params@, p);
                            lemma_steps_view_push(steps@, s);
                        }
                        params.push(p);
                        steps.push(s);
                        next_index += 1;
                    }
                },
                ArgKind::Optional(t) => {
                    let p = ParamDescriptor {
                        name: f.name.clone(),
                        shape: ParamShape::from_arg_type(t),
                        usage: usage_or_empty(&f.usage),
                        role: ParamRole::OptionalPositional,
                    };
                    let s = BindStep {
                        field: f.name.clone(),
                        op: BindOp::OptPositional { ty: t, index: next_index },
                    };
                    proof {
                        lemma_params_view_push(params@, p);
                        lemma_steps_view_push(steps@, s);
                    }
                    params.push(p);
                    steps.push(s);
                    next_index += 1;
                    seen_non_required = true;
                },
                ArgKind::Flag(Option::None) => {
                    let p = ParamDescriptor {
                        name: f.name.clone(),
                        shape: ParamShape::Boolean,
                        usage: usage_or_empty(&f.usage),
                        role: ParamRole::Switch,
                    };
                    let s = BindStep { field: f.name.clone(), op: BindOp::Switch };
                    proof {
                        lemma_params_view_push(params@, p);
                        lemma_steps_view_push(steps@, s);
                    }
                    params.push(p);
                    steps.push(s);
                    seen_non_required = true;
                },
                ArgKind::Flag(Option::Some(t)) => {
                    let p = ParamDescriptor {
                        name: f.name.clone(),
                        shape: ParamShape::from_arg_type(t),
                        usage: usage_or_empty(&f.usage),
                        role: ParamRole::NamedValueFlag,
                    };
                    let s = BindStep { field: f.name.clone(), op: BindOp::NamedValue { ty: t } };
                    proof {
                        lemma_params_view_push(params@, p);
                        lemma_steps_view_push(steps@, s);
                    }
                    params.push(p);
                    steps.push(s);
                    seen_non_required = true;
                },
                ArgKind::Invalid => unreached(),
            },
        }
        i += 1;
        assert(params_view(params@) == variant_state_at(v@, i as int).params);
    }

    if errors.len() == 0 {
        proof {
            lemma_variant_errors_grow(v@, v@.fields.len() as int);
        }
        let name: String = match &v.name {
            Option::Some(n) => n.clone(),
            Option::None => unreached(),
        };
        Result::Ok(
            CompiledVariant {
                signature: SignatureDescriptor {
                    name: name.clone(),
                    usage: usage_or_empty(&v.usage),
                    params,
                },
                binding: VariantBinding { name, steps },
            },
        )
    } else {
        Result::Err(errors)
    }
}

proof fn lemma_errors_view_concat(a: Seq<SchemaError>, b: Seq<SchemaError>)
    ensures
        errors_view(a + b) == errors_view(a) + errors_view(b),
{
    assert(errors_view(a + b) =~= errors_view(a) + errors_view(b));
}

/// The state of the schema compiler after some prefix of the variants.
pub ghost struct SchemaState {
    pub signatures: Seq<SignatureModel>,
    pub bindings: Seq<BindingModel>,
    pub errors: Seq<SchemaErrorModel>,
    pub names: Seq<Seq<char>>,
}

/// The schema compiler's starting state.
pub open spec fn schema_state_init() -> SchemaState {
    SchemaState {
        signatures: Seq::empty(),
        bindings: Seq::empty(),
        errors: Seq::empty(),
        names: Seq::empty(),
    }
}

/// How one variant advances the schema compiler: compile it, appending its
/// artifacts or its errors; then reject its command name if an earlier
/// variant already declared it; then record its name as seen.
pub open spec fn schema_step(st: SchemaState, v: VariantModel) -> SchemaState {
    let st1 = match compiled_variant(v) {
        Result::Ok(sb) => SchemaState {
            signatures: st.signatures.push(sb.0),
            bindings: st.bindings.push(sb.1),
            errors: st.errors,
            names: st.names,
        },
        Result::Err(es) => SchemaState {
            signatures: st.signatures,
            bindings: st.bindings,
            errors: st.errors + es,
            names: st.names,
        },
    };
    match v.name {
        Option::Some(n) => SchemaState {
            signatures: st1.signatures,
            bindings: st1.bindings,
            errors: if st.names.contains(n) {
                st1.errors.push(SchemaErrorModel::DuplicateCommandName { name: n })
            } else {
                st1.errors
            },
            names: st1.names.push(n),
        },
        Option::None => st1,
    }
}

/// The schema compiler's state after the first `n` variants.
pub open spec fn schema_state_at(vs: Seq<VariantModel>, n: int) -> SchemaState
    decreases n,
{
    if n <= 0 {
        schema_state_init()
    } else {
        schema_step(schema_state_at(vs, n - 1), vs[n - 1])
    }
}

/// What compiling a whole schema yields: the signature list and binding
/// table, in declaration order, when no variant erred and no command name
/// was declared twice; otherwise every error collected.
pub open spec fn compiled_schema_spec(vs: Seq<VariantModel>) -> Result<
    CompiledModel,
    Seq<SchemaErrorModel>,
> {
    let st = schema_state_at(vs, vs.len() as int);
    if st.errors.len() == 0 {
        Result::Ok(CompiledModel { signatures: st.signatures, bindings: st.bindings })
    } else {
        Result::Err(st.errors)
    }
}

/// Whether the list of names already holds the given one.
fn contains_name(names: &Vec<String>, n: &String) -> (r: bool)
    ensures
        r == names_view(names@).contains(n@),
{
    let mut i: usize = 0;
    while i < names.len()
        invariant
            i <= names@.len(),
            forall|j: int| 0 <= j < i ==> names_view(names@)[j] != n@,
        decreases names@.len() - i,
    {
        if names[i] == *n {
            assert(names_view(names@).contains(n@)) by {
                assert(names_view(names@)[i as int] == n@);
            }
            return true;
        }
        i += 1;
    }
    false
}

/// Compiles a whole schema: every variant, in declaration order.  Reports
/// every schema error found across all variants, including duplicate
/// command names; produces the signature list and binding table only when
/// there are none.
pub fn compile_schema(schema: &Vec<VariantSpec>) -> (r: Result<CompiledSchema, Vec<SchemaError>>)
    ensures
        match r {
            Result::Ok(c) => compiled_schema_spec(variants_view(schema@)) == Result::<
                CompiledModel,
                Seq<SchemaErrorModel>,
            >::Ok(c@),
            Result::Err(es) => compiled_schema_spec(variants_view(schema@)) == Result::<
                CompiledModel,
                Seq<SchemaErrorModel>,
            >::Err(errors_view(es@)),
        },
{
    let ghost vv = variants_view(schema@);
    let mut signatures: Vec<SignatureDescriptor> = Vec::new();
    let mut bindings: Vec<VariantBinding> = Vec::new();
    let mut errors: Vec<SchemaError> = Vec::new();
    let mut names: Vec<String> = Vec::new();
    let mut i: usize = 0;

    proof {
        assert(sigs_view(Seq::<SignatureDescriptor>::empty()) =~= Seq::<SignatureModel>::empty());
        assert(bindings_view(Seq::<VariantBinding>::empty()) =~= Seq::<BindingModel>::empty());
        assert(errors_view(Seq::<SchemaError>::empty()) =~= Seq::<SchemaErrorModel>::empty());
        assert(names_view(Seq::<String>::empty()) =~= Seq::<Seq<char>>::empty());
    }

    while i < schema.len()
        invariant
            i <= schema@.len(),
            vv == variants_view(schema@),
            vv.len() == schema@.len(),
            sigs_view(signatures@) == schema_state_at(vv, i as int).signatures,
            bindings_view(bindings@) == schema_state_at(vv, i as int).bindings,
            errors_view(errors@) == schema_state_at(vv, i as int).errors,
            names_view(names@) == schema_state_at(vv, i as int).names,
        decreases schema@.len() - i,
    {
        let ghost st = schema_state_at(vv, i as int);
        let v = &schema[i];
        proof {
            assert(vv[i as int] == v@);
        }
        match compile_variant(v) {
            Result::Ok(cv) => {
                proof {
                    lemma_sigs_view_push(signatures@, cv.signature);
                    lemma_bindings_view_push(bindings@, cv.binding);
                }
                signatures.push(cv.signature);
                bindings.push(cv.binding);
            },
            Result::Err(mut es) => {
                proof {
                    lemma_errors_view_concat(errors@, es@);
                }
                errors.append(&mut es);
            },
        }
        match &v.name {
            Option::Some(n) => {
                if contains_name(&names, n) {
                    let e = SchemaError::DuplicateCommandName { name: n.clone() };
                    proof {
                        lemma_errors_view_push(errors@, e);
                    }
                    errors.push(e);
                }
                proof {
                    lemma_names_view_push(names@, *n);
                }
                names.push(n.clone());
            },
            Option::None => {},
        }
        i += 1;
        assert(errors_view(errors@) == schema_state_at(vv, i as int).errors);
    }

    if errors.len() == 0 {
        Result::Ok(CompiledSchema { signatures, bindings })
    } else {
        Result::Err(errors)
    }
}

} // verus!
